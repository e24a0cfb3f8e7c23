//! Tests for the operation catalog, driven through the bus.

use rand::RngExt;
use rand::SeedableRng;
use rand::rngs::StdRng;

use flynes::bus::Bus;
use flynes::cartridges::load_raw_commands;
use flynes::cpu::shared_ops::is_flag_set;
use flynes::cpu::shared_ops::set_flag;
use flynes::cpu::{
    BREAK_FLAG, CARRY_FLAG, Cpu, DECIMAL_FLAG, INTERRUPT_FLAG, NEGATIVE_FLAG, OVERFLOW_FLAG,
    UNUSED_FLAG, ZERO_FLAG,
};

// flags are NEGATIVE -> OVERFLOW -> ZERO -> CARRY
fn check_arith(res: u8, exp_res: u8, cpu_status: u8, flags: [bool; 4]) {
    assert_eq!(res, exp_res);
    assert_eq!(is_flag_set(&cpu_status, NEGATIVE_FLAG), flags[0]);
    assert_eq!(is_flag_set(&cpu_status, OVERFLOW_FLAG), flags[1]);
    assert_eq!(is_flag_set(&cpu_status, ZERO_FLAG), flags[2]);
    assert_eq!(is_flag_set(&cpu_status, CARRY_FLAG), flags[3]);
}

fn test_zero_and_neg(cpu_status: u8, target_value: u8) {
    assert_eq!(is_flag_set(&cpu_status, ZERO_FLAG), target_value == 0);
    assert_eq!(is_flag_set(&cpu_status, NEGATIVE_FLAG), target_value >= 0b1000_0000);
}

#[test]
fn test_arithmetic() {
    let mut rng: StdRng = StdRng::seed_from_u64(42);

    let mut cpu = Cpu::default();
    cpu.reg_a = 0;
    cpu.cpu_status = 0b0000_0000;
    let mut bus = Bus::default();

    // ASM code for tests below
    // ----------------------
    // LDA #$90
    // ADC #$90
    // ADC #$20
    // ADC #$50
    // ADC #$6F
    // ADC #$FF
    // ADC #$7F
    // ADC #$00
    // ADC #$80
    // LDA #$7F
    // CLC
    // ADC #$01
    // ADC #$FF
    let adc_values: [u8; 10] = [0x90, 0x20, 0x50, 0x6F, 0xFF, 0x7F, 0x00, 0x80, 0x01, 0xFF];
    for (now_value_id, now_value) in adc_values.iter().enumerate() {
        bus.write_8bit_cpu(now_value_id as u16, *now_value);
    }

    cpu.reg_a = 0x90;
    cpu.op_adc(&mut bus, 0x0000);
    check_arith(cpu.reg_a, 0x20, cpu.cpu_status, [false, true, false, true]);
    cpu.op_adc(&mut bus, 0x0001);
    check_arith(cpu.reg_a, 0x41, cpu.cpu_status, [false, false, false, false]);
    cpu.op_adc(&mut bus, 0x0002);
    check_arith(cpu.reg_a, 0x91, cpu.cpu_status, [true, true, false, false]);
    cpu.op_adc(&mut bus, 0x0003);
    check_arith(cpu.reg_a, 0x00, cpu.cpu_status, [false, false, true, true]);
    cpu.op_adc(&mut bus, 0x0004);
    check_arith(cpu.reg_a, 0x00, cpu.cpu_status, [false, false, true, true]);
    cpu.op_adc(&mut bus, 0x0005);
    check_arith(cpu.reg_a, 0x80, cpu.cpu_status, [true, true, false, false]);
    cpu.op_adc(&mut bus, 0x0006);
    check_arith(cpu.reg_a, 0x80, cpu.cpu_status, [true, false, false, false]);
    cpu.op_adc(&mut bus, 0x0007);
    check_arith(cpu.reg_a, 0x00, cpu.cpu_status, [false, true, true, true]);
    cpu.reg_a = 0x7F;
    set_flag(&mut cpu.cpu_status, CARRY_FLAG, false);
    cpu.op_adc(&mut bus, 0x0008);
    check_arith(cpu.reg_a, 0x80, cpu.cpu_status, [true, true, false, false]);
    cpu.op_adc(&mut bus, 0x0009);
    check_arith(cpu.reg_a, 0x7F, cpu.cpu_status, [false, true, false, true]);

    // ASM code for tests below
    // -----------------------
    // LDA #$0
    // SBC #$64
    // SBC #$9B
    // SBC #$01
    // SBC #$FC
    // SBC #$02
    // SBC #$80
    // SBC #$80
    // SBC #$FF
    // SBC #$FD
    // SBC #$00
    // SBC #$FF
    // SBC #$00
    // SBC #$00
    // CLC
    // SBC #$01

    let sbc_values: [u8; 15] = [
        0x64,
        0x9B,
        0x01,
        0xFC,
        0x02,
        0x80,
        0x80,
        0xFF,
        0xFD,
        0x00,
        0xFF,
        0x00,
        0x00,
        0x01,
        0x7F,
    ];
    for (now_value_id, now_value) in sbc_values.iter().enumerate() {
        bus.write_8bit_cpu(now_value_id as u16, *now_value);
    }
    cpu.cpu_status = 0b0000_0000;
    cpu.reg_a = 0x0;
    cpu.op_sbc(&mut bus, 0x0000);
    check_arith(cpu.reg_a, 0x9B, cpu.cpu_status, [true, false, false, false]);
    cpu.op_sbc(&mut bus, 0x0001);
    check_arith(cpu.reg_a, 0xFF, cpu.cpu_status, [true, false, false, false]);
    cpu.op_sbc(&mut bus, 0x0002);
    check_arith(cpu.reg_a, 0xFD, cpu.cpu_status, [true, false, false, true]);
    cpu.op_sbc(&mut bus, 0x0003);
    check_arith(cpu.reg_a, 0x01, cpu.cpu_status, [false, false, false, true]);
    cpu.op_sbc(&mut bus, 0x0004);
    check_arith(cpu.reg_a, 0xFF, cpu.cpu_status, [true, false, false, false]);
    cpu.op_sbc(&mut bus, 0x0005);
    check_arith(cpu.reg_a, 0x7E, cpu.cpu_status, [false, false, false, true]);
    cpu.op_sbc(&mut bus, 0x0006);
    check_arith(cpu.reg_a, 0xFE, cpu.cpu_status, [true, true, false, false]);
    cpu.op_sbc(&mut bus, 0x0007);
    check_arith(cpu.reg_a, 0xFE, cpu.cpu_status, [true, false, false, false]);
    cpu.op_sbc(&mut bus, 0x0008);
    check_arith(cpu.reg_a, 0x00, cpu.cpu_status, [false, false, true, true]);
    cpu.op_sbc(&mut bus, 0x0009);
    check_arith(cpu.reg_a, 0x00, cpu.cpu_status, [false, false, true, true]);
    cpu.op_sbc(&mut bus, 0x000A);
    check_arith(cpu.reg_a, 0x01, cpu.cpu_status, [false, false, false, false]);
    cpu.op_sbc(&mut bus, 0x000B);
    check_arith(cpu.reg_a, 0x00, cpu.cpu_status, [false, false, true, true]);
    cpu.op_sbc(&mut bus, 0x000C);
    check_arith(cpu.reg_a, 0x00, cpu.cpu_status, [false, false, true, true]);
    set_flag(&mut cpu.cpu_status, CARRY_FLAG, false);
    cpu.op_sbc(&mut bus, 0x000D);
    check_arith(cpu.reg_a, 0xFE, cpu.cpu_status, [true, false, false, false]);

    cpu.reg_a = 0x80;
    set_flag(&mut cpu.cpu_status, CARRY_FLAG, true);
    cpu.op_sbc(&mut bus, 0x000E);

    assert_eq!(cpu.reg_a, 0x01);
    assert!(is_flag_set(&cpu.cpu_status, OVERFLOW_FLAG));

    let mut last_val = rng.random::<u8>();
    for _ in 0..1000 {
        cpu.reg_a = last_val;
        cpu.reg_x = last_val;
        cpu.reg_y = last_val;

        let random_v = rng.random::<u8>();
        let random_st = rng.random::<u8>();

        bus.write_8bit_cpu(0x0000u16, random_v);

        cpu.cpu_status = random_st;
        cpu.op_cmp(&mut bus, 0x0000);
        let new_cpu_status = cpu.cpu_status;

        cpu.cpu_status = random_st;
        cpu.op_cpx(&mut bus, 0x0000);
        assert_eq!(cpu.cpu_status, new_cpu_status);

        cpu.cpu_status = random_st;
        cpu.op_cpy(&mut bus, 0x0000);
        assert_eq!(cpu.cpu_status, new_cpu_status);

        assert_eq!(
            is_flag_set(&cpu.cpu_status, NEGATIVE_FLAG),
            last_val.wrapping_sub(random_v) & 0b1000_0000 != 0
        );
        assert_eq!(is_flag_set(&cpu.cpu_status, CARRY_FLAG), last_val >= random_v);
        assert_eq!(is_flag_set(&cpu.cpu_status, ZERO_FLAG), last_val == random_v);

        last_val = random_v;
    }
}

fn call_by_flag(flag_to_call: usize, flag_status: bool, cpu: &mut Cpu, bus: &mut Bus) {
    match (flag_to_call, flag_status) {
        (CARRY_FLAG, true) => cpu.op_bcs(bus, 0x0000),
        (CARRY_FLAG, false) => cpu.op_bcc(bus, 0x0000),
        (ZERO_FLAG, true) => cpu.op_beq(bus, 0x0000),
        (ZERO_FLAG, false) => cpu.op_bne(bus, 0x0000),
        (NEGATIVE_FLAG, true) => cpu.op_bmi(bus, 0x0000),
        (NEGATIVE_FLAG, false) => cpu.op_bpl(bus, 0x0000),
        (OVERFLOW_FLAG, true) => cpu.op_bvs(bus, 0x0000),
        (OVERFLOW_FLAG, false) => cpu.op_bvc(bus, 0x0000),
        _ => unreachable!(),
    }
}

fn check_by_flag(cpu: &mut Cpu, bus: &mut Bus, value: i8) {
    let branchable_flags: [usize; 4] = [CARRY_FLAG, ZERO_FLAG, NEGATIVE_FLAG, OVERFLOW_FLAG];
    let old_pc = cpu.program_counter;
    cpu.write_8bit(bus, 0x0000u16, value as u8);
    for now_flag in branchable_flags {
        if is_flag_set(&cpu.cpu_status, now_flag) {
            call_by_flag(now_flag, true, cpu, bus);
            assert_eq!(cpu.program_counter, old_pc.wrapping_add_signed(value as i16));
            cpu.program_counter = old_pc;

            call_by_flag(now_flag, false, cpu, bus);
            assert_eq!(cpu.program_counter, old_pc);
            cpu.program_counter = old_pc;
        } else {
            call_by_flag(now_flag, false, cpu, bus);
            assert_eq!(cpu.program_counter, old_pc.wrapping_add_signed(value as i16));
            cpu.program_counter = old_pc;

            call_by_flag(now_flag, true, cpu, bus);
            assert_eq!(cpu.program_counter, old_pc);
            cpu.program_counter = old_pc;
        }
    }
}

#[test]
fn test_branches() {
    let branchable_flags: [usize; 4] = [CARRY_FLAG, ZERO_FLAG, NEGATIVE_FLAG, OVERFLOW_FLAG];

    let mut rng: StdRng = StdRng::seed_from_u64(42);

    let mut cpu = Cpu::default();
    cpu.program_counter = 0u16;
    let mut bus = Bus::default();

    let edge_displacements: [i8; 4] = [
        0x00,  // no branch movement
        0x7F,  // largest positive offset (+127)
        -128,  // largest negative offset (-128)
        -1,    // smallest negative offset (-1)
    ];

    for disp in edge_displacements {
        for flag in branchable_flags {
            cpu.write_8bit(&mut bus, 0x0000u16, disp as u8);
            cpu.cpu_status = 1 << flag;
            cpu.program_counter = 0x1234;
            call_by_flag(flag, true, &mut cpu, &mut bus);
            assert_eq!(cpu.program_counter, 0x1234u16.wrapping_add_signed(disp as i16));

            cpu.cpu_status = 0;
            cpu.program_counter = 0x1234;
            call_by_flag(flag, true, &mut cpu, &mut bus);
            assert_eq!(cpu.program_counter, 0x1234);
        }
    }

    for _ in 0..10_000 {
        let random_new_pc = rng.random::<u16>();
        cpu.program_counter = random_new_pc;

        let random_cpu_status = rng.random::<u8>();
        cpu.cpu_status = random_cpu_status;

        let random_displacement = rng.random::<i8>();
        check_by_flag(&mut cpu, &mut bus, random_displacement);
    }
}

#[test]
fn test_incerement_decrement() {
    let mut rng: StdRng = StdRng::seed_from_u64(42);

    let mut cpu = Cpu::default();
    cpu.reg_a = 0;
    cpu.reg_x = 0;
    cpu.reg_y = 0;
    cpu.cpu_status = 0b0000_0000;

    // A 256-cell scratch block at the start of RAM stands in for the counters.
    let mut bus = Bus::default();

    for _ in 0..1000 {
        let random_v = rng.random::<u8>();
        let random_st = rng.random::<u8>();

        cpu.cpu_status = random_st;
        let random_ids: Vec<u8> = (0..random_v).map(|_| rng.random::<u8>()).collect();

        for now_id in &random_ids {
            cpu.op_inc(&mut bus, *now_id as u16);
        }
        let mut cells_sum: u8 = 0;
        for cell in 0..256u16 {
            cells_sum += bus.read_8bit_cpu(cell);
        }
        assert_eq!(cells_sum, random_v);

        for now_id in &random_ids {
            cpu.op_dec(&mut bus, *now_id as u16);
        }
        let mut cells_sum: u8 = 0;
        for cell in 0..256u16 {
            cells_sum += bus.read_8bit_cpu(cell);
        }
        assert_eq!(cells_sum, 0);

        cpu.reg_x = random_st;
        cpu.reg_y = random_st;

        for i in 0..random_v {
            cpu.op_inx();
            test_zero_and_neg(cpu.cpu_status, random_st.wrapping_add(i).wrapping_add(1));
            cpu.op_iny();
            test_zero_and_neg(cpu.cpu_status, random_st.wrapping_add(i).wrapping_add(1));
        }
        assert_eq!(cpu.reg_x, cpu.reg_y);
        assert_eq!(cpu.reg_x, random_st.wrapping_add(random_v));

        let new_start = random_st.wrapping_add(random_v);
        for i in 0..random_v {
            cpu.op_dex();
            test_zero_and_neg(cpu.cpu_status, new_start.wrapping_sub(i).wrapping_sub(1));
            cpu.op_dey();
            test_zero_and_neg(cpu.cpu_status, new_start.wrapping_sub(i).wrapping_sub(1));
        }
        assert_eq!(cpu.reg_x, cpu.reg_y);
        assert_eq!(cpu.reg_x, random_st);
    }

    // A single counter cell, past the scratch block, still zero.
    let counter_cell: u16 = 0x0200;
    let number_of_iters: usize = 256 + 10;

    for i in 0..number_of_iters {
        cpu.op_inc(&mut bus, counter_cell);
        test_zero_and_neg(cpu.cpu_status, ((i + 1) % 256) as u8);
        assert_eq!(bus.read_8bit_cpu(counter_cell), ((i + 1) % 256) as u8);
    }
    assert_eq!(bus.read_8bit_cpu(counter_cell), 10);

    for i in 0..number_of_iters {
        cpu.op_dec(&mut bus, counter_cell);
        test_zero_and_neg(cpu.cpu_status, ((number_of_iters - i - 1) % 256) as u8);
        assert_eq!(bus.read_8bit_cpu(counter_cell), ((number_of_iters - i - 1) % 256) as u8);
    }
    assert_eq!(bus.read_8bit_cpu(counter_cell), 0);
}

#[test]
fn test_load_store_ops() {
    let offset: usize = 256;

    let mut rng: StdRng = StdRng::seed_from_u64(42);

    let mut cpu = Cpu::default();
    cpu.reg_a = 0;
    cpu.reg_x = 0;
    cpu.reg_y = 0;
    cpu.cpu_status = 0b0000_0000;

    let mut bus = Bus::default();
    for cell in 0..0x0800u16 {
        bus.write_8bit_cpu(cell, 6);
    }
    let ram_end: u16 = 0x07FF;

    for now_value in (0..offset).rev() {
        let now_v: u8 = now_value.try_into().unwrap();
        cpu.write_8bit(&mut bus, ram_end, now_v);
        let random_v = rng.random::<u8>();

        cpu.reg_a = now_v.wrapping_add(10);
        cpu.reg_x = now_v.wrapping_add(10);
        cpu.reg_y = now_v.wrapping_add(10);
        cpu.cpu_status = random_v;

        cpu.op_lda(&mut bus, ram_end);
        let new_status = cpu.cpu_status;

        cpu.cpu_status = random_v;
        cpu.op_ldx(&mut bus, ram_end);
        assert_eq!(new_status, cpu.cpu_status);

        cpu.cpu_status = random_v;
        cpu.op_ldy(&mut bus, ram_end);
        assert_eq!(new_status, cpu.cpu_status);

        assert_eq!(is_flag_set(&cpu.cpu_status, ZERO_FLAG), now_value == 0);
        assert_eq!(is_flag_set(&cpu.cpu_status, NEGATIVE_FLAG), now_value >= 0b1000_0000);
        assert_eq!([cpu.reg_a, cpu.reg_x, cpu.reg_y], [now_value as u8; 3]);

        cpu.op_sta(&mut bus, now_value as u16);
        cpu.op_stx(&mut bus, (now_value + offset) as u16);
        cpu.op_sty(&mut bus, (now_value + (offset * 2)) as u16);
    }

    for (now_id, now_v) in bus.memory().ram().iter().enumerate().take(offset * 3) {
        assert_eq!(*now_v, (now_id % offset) as u8);
    }
}

#[test]
fn test_logical_operations() {
    let mut rng: StdRng = StdRng::seed_from_u64(42);

    let mut cpu = Cpu::default();
    cpu.reg_a = 0;
    cpu.cpu_status = 0b0000_0000;
    let mut bus: Bus = Bus::default();

    for _ in 0..1000 {
        let random_v = rng.random::<u8>();
        let random_st = rng.random::<u8>();

        cpu.reg_a = random_v;
        bus.write_8bit_cpu(0x0000u16, 0b0000_0000);
        bus.write_8bit_cpu(0x0001u16, 0b1111_1111);
        bus.write_8bit_cpu(0x0002u16, !random_v);

        let other_random_v = rng.random::<u8>();
        bus.write_8bit_cpu(0x0003u16, other_random_v);

        cpu.op_ora(&mut bus, 0x0000);
        test_zero_and_neg(cpu.cpu_status, cpu.reg_a);
        cpu.op_and(&mut bus, 0x0001);
        test_zero_and_neg(cpu.cpu_status, cpu.reg_a);
        cpu.op_eor(&mut bus, 0x0000);
        test_zero_and_neg(cpu.cpu_status, cpu.reg_a);
        assert_eq!(cpu.reg_a, random_v);

        cpu.cpu_status = random_st;
        cpu.op_ora(&mut bus, 0x0002);
        assert_eq!(cpu.reg_a, 0b1111_1111);
        test_zero_and_neg(cpu.cpu_status, 0b1111_1111);

        cpu.cpu_status = random_st;
        cpu.reg_a = random_v;
        cpu.op_and(&mut bus, 0x0002);
        assert_eq!(cpu.reg_a, 0b0000_0000);
        test_zero_and_neg(cpu.cpu_status, 0b0000_0000);

        cpu.cpu_status = random_st;
        cpu.reg_a = random_v;
        cpu.op_eor(&mut bus, 0x0002);
        assert_eq!(cpu.reg_a, 0b1111_1111);
        test_zero_and_neg(cpu.cpu_status, 0b1111_1111);

        cpu.cpu_status = random_st;
        cpu.reg_a = random_v;
        cpu.op_bit(&mut bus, 0x0003);
        assert_eq!(is_flag_set(&cpu.cpu_status, ZERO_FLAG), other_random_v & random_v == 0);
        assert_eq!(
            is_flag_set(&cpu.cpu_status, NEGATIVE_FLAG),
            is_flag_set(&other_random_v, NEGATIVE_FLAG)
        );
        assert_eq!(
            is_flag_set(&cpu.cpu_status, OVERFLOW_FLAG),
            is_flag_set(&other_random_v, OVERFLOW_FLAG)
        );
    }
}

#[test]
fn test_register_transfer() {
    let mut rng: StdRng = StdRng::seed_from_u64(42);

    let mut cpu = Cpu::default();
    cpu.reg_a = 0;
    cpu.reg_x = 0;
    cpu.reg_y = 0;
    cpu.cpu_status = 0b0000_0000;

    for _ in 0..1000 {
        let random_v = rng.random::<u8>();
        let random_st = rng.random::<u8>();
        let first_random_offset = rng.random::<u8>();
        let second_random_offset = rng.random::<u8>();

        cpu.reg_a = random_v.wrapping_add(first_random_offset);
        cpu.reg_y = random_v.wrapping_add(second_random_offset);
        cpu.reg_x = random_v;

        cpu.cpu_status = random_st;
        cpu.op_txa();
        test_zero_and_neg(cpu.cpu_status, random_v);

        cpu.cpu_status = random_st;
        cpu.op_tay();
        test_zero_and_neg(cpu.cpu_status, random_v);

        assert_eq!([cpu.reg_a, cpu.reg_x, cpu.reg_y], [random_v; 3]);

        cpu.reg_a = random_v.wrapping_add(second_random_offset);
        cpu.reg_x = random_v.wrapping_add(first_random_offset);

        cpu.cpu_status = random_st;
        cpu.op_tya();
        test_zero_and_neg(cpu.cpu_status, random_v);

        cpu.cpu_status = random_st;
        cpu.op_tax();
        test_zero_and_neg(cpu.cpu_status, random_v);

        assert_eq!([cpu.reg_a, cpu.reg_x, cpu.reg_y], [random_v; 3]);
    }
}

fn clear_cpu_and_mem(cpu: &mut Cpu, bus: &mut Bus, random_st: u8, random_v: u8) {
    cpu.cpu_status = random_st;
    cpu.reg_a = random_v;
    cpu.write_8bit(bus, 0x0000u16, random_v);
}

#[test]
fn test_shifts() {
    let mut rng: StdRng = StdRng::seed_from_u64(42);

    let mut cpu = Cpu::default();
    cpu.reg_a = 0;
    cpu.cpu_status = 0b0000_0000;
    let mut bus = Bus::default();

    for _ in 0..1000 {
        let random_v = rng.random::<u8>();
        let random_st = rng.random::<u8>();

        clear_cpu_and_mem(&mut cpu, &mut bus, random_st, random_v);

        // ASL part
        cpu.op_asl(&mut bus, 0x0000);
        let mem_value = cpu.read_8bit(&mut bus, 0x0000u16);
        assert_eq!(mem_value, random_v << 1);
        assert!(mem_value % 2 == 0);
        assert_eq!(is_flag_set(&cpu.cpu_status, CARRY_FLAG), random_v & 0b1000_0000 == 0b1000_0000);
        test_zero_and_neg(cpu.cpu_status, mem_value);
        let (mut old_cpu_status, mut old_mem_value) = (cpu.cpu_status, mem_value);

        clear_cpu_and_mem(&mut cpu, &mut bus, random_st, random_v);
        cpu.op_asl_acc();
        assert_eq!(cpu.reg_a, old_mem_value);
        assert_eq!(cpu.cpu_status, old_cpu_status);

        clear_cpu_and_mem(&mut cpu, &mut bus, random_st, random_v);

        // LSR part
        cpu.op_lsr(&mut bus, 0x0000);
        let mem_value = cpu.read_8bit(&mut bus, 0x0000u16);
        assert_eq!(mem_value, random_v >> 1);
        assert!(mem_value < 0b1000_0000);
        assert_eq!(is_flag_set(&cpu.cpu_status, CARRY_FLAG), random_v % 2 == 1);
        test_zero_and_neg(cpu.cpu_status, mem_value);
        (old_cpu_status, old_mem_value) = (cpu.cpu_status, mem_value);

        clear_cpu_and_mem(&mut cpu, &mut bus, random_st, random_v);
        cpu.op_lsr_acc();
        assert_eq!(cpu.reg_a, old_mem_value);
        assert_eq!(cpu.cpu_status, old_cpu_status);

        clear_cpu_and_mem(&mut cpu, &mut bus, random_st, random_v);

        let mut carry_flag_st = is_flag_set(&cpu.cpu_status, CARRY_FLAG);
        let first_carry_flag = carry_flag_st;

        cpu.write_8bit(&mut bus, 0x0000u16, random_v);
        // ROL and ROR
        for _ in 0..random_st % 16 {
            cpu.op_rol(&mut bus, 0x0000);
            let mem_value = cpu.read_8bit(&mut bus, 0x0000u16);
            assert_eq!(carry_flag_st, mem_value % 2 == 1);
            test_zero_and_neg(cpu.cpu_status, mem_value);
            carry_flag_st = is_flag_set(&cpu.cpu_status, CARRY_FLAG);
        }

        for _ in 0..random_st % 16 {
            cpu.op_ror(&mut bus, 0x0000);
            let mem_value = cpu.read_8bit(&mut bus, 0x0000u16);
            assert_eq!(carry_flag_st, mem_value & 0b1000_0000 == 0b1000_0000);
            test_zero_and_neg(cpu.cpu_status, mem_value);
            carry_flag_st = is_flag_set(&cpu.cpu_status, CARRY_FLAG);
        }

        assert_eq!(first_carry_flag, is_flag_set(&cpu.cpu_status, CARRY_FLAG));
        assert_eq!(cpu.read_8bit(&mut bus, 0x0000u16), random_v);

        clear_cpu_and_mem(&mut cpu, &mut bus, random_st, random_v);
        let mut carry_flag_st = is_flag_set(&cpu.cpu_status, CARRY_FLAG);

        // ROL acc and ROR acc
        for _ in 0..random_st % 42 {
            cpu.op_rol_acc();
            assert_eq!(carry_flag_st, cpu.reg_a % 2 == 1);
            test_zero_and_neg(cpu.cpu_status, cpu.reg_a);
            carry_flag_st = is_flag_set(&cpu.cpu_status, CARRY_FLAG);
        }

        for _ in 0..random_st % 42 {
            cpu.op_ror_acc();
            assert_eq!(carry_flag_st, cpu.reg_a & 0b1000_0000 == 0b1000_0000);
            test_zero_and_neg(cpu.cpu_status, cpu.reg_a);
            carry_flag_st = is_flag_set(&cpu.cpu_status, CARRY_FLAG);
        }

        assert_eq!(first_carry_flag, is_flag_set(&cpu.cpu_status, CARRY_FLAG));
        assert_eq!(cpu.reg_a, random_v);
    }
}

#[test]
fn test_stack_operations() {
    let unused_flag_bit: u8 = 0b0000_0001 << UNUSED_FLAG;
    let break_flag_bit: u8 = 0b0000_0001 << BREAK_FLAG;
    let break_flag_reversed_bit: u8 = !break_flag_bit;

    let mut rng: StdRng = StdRng::seed_from_u64(42);

    let mut cpu = Cpu::default();
    cpu.reg_a = 0;
    cpu.reg_x = 0;
    cpu.cpu_status = 0b0000_0000;
    cpu.stack_pointer = 0;

    let mut bus: Bus = Bus::default();

    for _ in 0..1000 {
        let random_v = rng.random::<u8>();
        let random_st = rng.random::<u8>();

        cpu.cpu_status = random_st;
        cpu.stack_pointer = random_v;
        cpu.op_tsx();
        test_zero_and_neg(cpu.cpu_status, random_v);
        assert_eq!(cpu.reg_x, random_v);

        cpu.stack_pointer = random_v.wrapping_add(10);
        cpu.op_txs();
        assert_eq!(cpu.stack_pointer, random_v);

        cpu.reg_a = random_st;
        cpu.op_pha(&mut bus);
        assert_eq!(
            bus.memory().stack_as_slice()[cpu.stack_pointer.wrapping_add(1) as usize],
            random_st
        );

        cpu.reg_a = random_v;
        cpu.op_pla(&bus);
        assert_eq!(cpu.reg_a, random_st);
        test_zero_and_neg(cpu.cpu_status, random_st);

        cpu.cpu_status = random_v | unused_flag_bit;
        cpu.op_php(&mut bus);
        assert_eq!(
            bus.memory().stack_as_slice()[cpu.stack_pointer.wrapping_add(1) as usize],
            random_v | unused_flag_bit | break_flag_bit
        );

        cpu.cpu_status = cpu.cpu_status.wrapping_add(random_v);
        cpu.op_plp(&bus);
        assert_eq!(cpu.cpu_status, (random_v | unused_flag_bit) & break_flag_reversed_bit);
    }
}

#[test]
fn test_status_flag_changes() {
    let carry_flag_mask_inv: u8 = !(0b0000_0001 << CARRY_FLAG);
    let decimal_flag_mask_inv: u8 = !(0b0000_0001 << DECIMAL_FLAG);
    let interrupt_mask_inv: u8 = !(0b0000_0001 << INTERRUPT_FLAG);
    let overflow_mask_inv: u8 = !(0b0000_0001 << OVERFLOW_FLAG);

    let mut rng: StdRng = StdRng::seed_from_u64(42);

    let mut cpu = Cpu::default();
    cpu.cpu_status = 0b0000_0000;

    for _ in 0..1000 {
        let random_status = rng.random::<u8>();
        cpu.cpu_status = random_status;

        cpu.op_clc();
        assert!(!is_flag_set(&cpu.cpu_status, CARRY_FLAG));
        assert_eq!(random_status & carry_flag_mask_inv, cpu.cpu_status & carry_flag_mask_inv);
        cpu.op_sec();
        assert!(is_flag_set(&cpu.cpu_status, CARRY_FLAG));
        assert_eq!(random_status & carry_flag_mask_inv, cpu.cpu_status & carry_flag_mask_inv);

        cpu.cpu_status = random_status;
        cpu.op_cld();
        assert!(!is_flag_set(&cpu.cpu_status, DECIMAL_FLAG));
        assert_eq!(random_status & decimal_flag_mask_inv, cpu.cpu_status & decimal_flag_mask_inv);
        cpu.op_sed();
        assert!(is_flag_set(&cpu.cpu_status, DECIMAL_FLAG));
        assert_eq!(random_status & decimal_flag_mask_inv, cpu.cpu_status & decimal_flag_mask_inv);

        cpu.cpu_status = random_status;
        cpu.op_cli();
        assert!(!is_flag_set(&cpu.cpu_status, INTERRUPT_FLAG));
        assert_eq!(random_status & interrupt_mask_inv, cpu.cpu_status & interrupt_mask_inv);
        cpu.op_sei();
        assert!(is_flag_set(&cpu.cpu_status, INTERRUPT_FLAG));
        assert_eq!(random_status & interrupt_mask_inv, cpu.cpu_status & interrupt_mask_inv);

        cpu.cpu_status = random_status;
        cpu.op_clv();
        assert!(!is_flag_set(&cpu.cpu_status, OVERFLOW_FLAG));
        assert_eq!(random_status & overflow_mask_inv, cpu.cpu_status & overflow_mask_inv);
    }
}

#[test]
fn test_system_functions() {
    let mut rng: StdRng = StdRng::seed_from_u64(42);

    let mut cpu: Cpu = Cpu::default();
    cpu.stack_pointer = 0xFF;
    cpu.program_counter = 0u16;
    cpu.cpu_status = 0u8;

    for _ in 0..1000 {
        let old_random_pc = rng.random::<u16>();
        let random_cpu_status = rng.random::<u8>() | (0b0000_0001 << UNUSED_FLAG);
        let new_random_pc = rng.random::<u16>();

        // The interrupt vector lives in ROM, so each round loads a fresh
        // 16 KB image whose mirrored 0xFFFE/0xFFFF bytes hold the vector.
        let mut commands = vec![0u8; 0x4000];
        commands[0x3FFE] = new_random_pc as u8;
        commands[0x3FFF] = (new_random_pc >> 8) as u8;
        let mut bus = Bus::default();
        load_raw_commands(&mut bus, commands);

        cpu.cpu_status = random_cpu_status;
        cpu.program_counter = old_random_pc;
        cpu.stack_pointer = 0xFF;

        cpu.op_brk(&mut bus);

        assert_eq!(cpu.program_counter, new_random_pc);
        assert_eq!(cpu.stack_pointer, 0xFC);
        assert_eq!(cpu.cpu_status, random_cpu_status | (0b0000_0001 << BREAK_FLAG));

        cpu.op_rti(&bus);
        assert_eq!(cpu.cpu_status, random_cpu_status | (0b0000_0001 << BREAK_FLAG));
        assert_eq!(cpu.program_counter, old_random_pc);
    }
}

#[test]
fn test_t_operations() {
    let mut cpu = Cpu::default();

    cpu.reg_x = 0;
    cpu.reg_y = 0;
    cpu.reg_a = 255;

    cpu.op_tax();
    cpu.op_tay();
    assert_eq!((cpu.reg_x, cpu.reg_y, cpu.reg_a), (255, 255, 255));

    cpu.stack_pointer = 0;
    cpu.op_tsx();
    cpu.op_txa();
    assert_eq!(cpu.reg_a, cpu.stack_pointer);

    cpu.reg_x = 127;
    cpu.reg_y = 127;
    cpu.op_txs();
    cpu.op_tya();
    assert_eq!(cpu.stack_pointer, cpu.reg_a);
}
