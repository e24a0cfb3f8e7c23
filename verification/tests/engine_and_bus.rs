//! Tests for the execution engine, the instruction table, the bus decoding
//! with its mirror regions, and the documented addressing quirks.

use rand::RngExt;
use rand::SeedableRng;
use rand::rngs::StdRng;

use flynes::bus::Bus;
use flynes::cartridges::load_raw_commands;
use flynes::cpu::instructions::{ASSIGNED_OPCODE_COUNT, init_all_operations};
use flynes::cpu::shared_ops::{is_flag_set, set_flag};
use flynes::cpu::{CARRY_FLAG, Cpu, CpuStepError};
use flynes::memory::MemoryType;

#[test]
fn test_instruction_table_count() {
    let (all_operations, assigned) = init_all_operations();

    // Every one of the 256 opcode slots yields exactly one descriptor, and
    // the non-sentinel count matches the documented official + unofficial
    // opcode count.
    assert_eq!(all_operations.len(), 256);
    assert_eq!(assigned, ASSIGNED_OPCODE_COUNT);

    let mut non_sentinel: usize = 0;
    for op in &all_operations {
        if !op.is_sentinel() {
            non_sentinel += 1;
        }
    }
    assert_eq!(non_sentinel, assigned);
}

#[test]
fn test_ram_mirror_accesses() {
    let mut bus = Bus::default();

    bus.write_8bit_cpu(0x0800, 0x42);
    bus.write_8bit_cpu(0x1001, 0x43);
    assert_eq!((bus.read_8bit_cpu(0x0000), bus.read_8bit_cpu(0x1801)), (0x42, 0x43));

    bus.write_8bit_cpu(0x07FE, 0x19);
    bus.write_8bit_cpu(0x1FFF, 0x20);
    assert_eq!((bus.read_8bit_cpu(0x0FFE), bus.read_8bit_cpu(0x17FF)), (0x19, 0x20));

    // Every mirror slot aliases the address modulo 0x0800.
    for now_i in 0..0x0800u16 {
        bus.write_8bit_cpu(now_i, (now_i % 251) as u8);
    }
    for mirror in 1..4u16 {
        for now_i in 0..0x0800u16 {
            assert_eq!(bus.read_8bit_cpu(mirror * 0x0800 + now_i), (now_i % 251) as u8);
        }
    }
}

#[test]
fn test_graphics_register_mirror_accesses() {
    // The data register (index 7) is both writable and readable, so it shows
    // the modulo-8 aliasing across 0x2008..=0x3FFF.
    let mut bus = Bus::default();

    bus.write_8bit_cpu(0x2007, 0x5A);
    assert_eq!(bus.read_8bit_cpu(0x200F), 0x5A);
    assert_eq!(bus.read_8bit_cpu(0x3FFF), 0x5A);

    bus.write_8bit_cpu(0x3FF7, 0xA5);
    assert_eq!(bus.read_8bit_cpu(0x2007), 0xA5);

    // Write-only registers read back as 0, through the mirrors too.
    bus.write_8bit_cpu(0x2000, 0x77);
    assert_eq!(bus.read_8bit_cpu(0x2008), 0);
}

#[test]
fn test_zero_page_wraparound_pointer() {
    // An indirect zero-page read at pointer address 0x00FF takes its high
    // byte from 0x0000, not from 0x0100.
    let mut cpu = Cpu::default();
    let mut bus = Bus::default();

    bus.write_8bit_cpu(0x00FF, 0x34);
    bus.write_8bit_cpu(0x0000, 0x12);
    bus.write_8bit_cpu(0x0100, 0x99);

    assert_eq!(cpu.read_16bit_zp_wrap(&mut bus, 0x00FF), 0x1234);

    // One byte lower there is no wraparound.
    bus.write_8bit_cpu(0x00FE, 0x78);
    assert_eq!(cpu.read_16bit_zp_wrap(&mut bus, 0x00FE), 0x3478);
}

#[test]
fn test_indirect_jmp_page_bug() {
    // An indirect JMP whose pointer's low byte is 0xFF takes its target high
    // byte from the start of the same page, not the next page.
    let mut cpu = Cpu::default();
    let mut bus = Bus::default();

    bus.write_8bit_cpu(0x02FF, 0x34);
    bus.write_8bit_cpu(0x0200, 0x12);
    bus.write_8bit_cpu(0x0300, 0x99);

    let target = cpu.conv_2byte_address(MemoryType::Indirect, 0x02FF, &mut bus);
    assert_eq!(target, 0x1234);

    // A pointer that does not sit at a page end dereferences normally.
    bus.write_8bit_cpu(0x02FE, 0x78);
    let target = cpu.conv_2byte_address(MemoryType::Indirect, 0x02FE, &mut bus);
    assert_eq!(target, 0x3478);
}

#[test]
fn test_adc_sbc_round_trip() {
    // Applying ADC and then SBC with the same operand and complementary
    // carry-in returns the accumulator to its original value.
    let mut rng: StdRng = StdRng::seed_from_u64(42);

    let mut cpu = Cpu::default();
    let mut bus = Bus::default();

    for _ in 0..10_000 {
        let a = rng.random::<u8>();
        let operand = rng.random::<u8>();
        let carry_in = rng.random::<bool>();

        cpu.reg_a = a;
        set_flag(&mut cpu.cpu_status, CARRY_FLAG, carry_in);
        bus.write_8bit_cpu(0x0000, operand);

        cpu.op_adc(&mut bus, 0x0000);
        set_flag(&mut cpu.cpu_status, CARRY_FLAG, !carry_in);
        cpu.op_sbc(&mut bus, 0x0000);

        assert_eq!(cpu.reg_a, a);
    }
}

#[test]
fn test_engine_step_and_errors() {
    // Program at the start of the cartridge ROM window (0x8000):
    //   LDA #$42 ; INX ; then a slot holding the invalid sentinel, then STP.
    let mut commands = vec![0u8; 0x4000];
    commands[0x0000] = 0xA9;  // LDA immediate
    commands[0x0001] = 0x42;
    commands[0x0002] = 0xE8;  // INX
    commands[0x0003] = 0x8B;  // unassigned slot: decode error
    commands[0x0004] = 0x02;  // STP

    let mut bus = Bus::default();
    load_raw_commands(&mut bus, commands);

    let mut cpu = Cpu::default();
    cpu.set_pc(0x8000);

    assert_eq!(cpu.execute_cpu_iteration(&mut bus), Ok(2));
    assert_eq!(cpu.reg_a, 0x42);
    assert_eq!(cpu.get_program_counter(), 0x8002);

    cpu.reg_x = 9;
    assert_eq!(cpu.execute_cpu_iteration(&mut bus), Ok(2));
    assert_eq!(cpu.reg_x, 10);
    assert_eq!(cpu.get_program_counter(), 0x8003);

    // The sentinel is reported as a decode error and mutates nothing.
    assert_eq!(cpu.execute_cpu_iteration(&mut bus), Err(CpuStepError::IllegalOpcode));
    assert_eq!(cpu.get_program_counter(), 0x8003);
    assert_eq!(cpu.reg_a, 0x42);

    // The caller decides the recovery policy; here: skip the bad byte.
    cpu.set_pc(0x8004);
    assert_eq!(cpu.execute_cpu_iteration(&mut bus), Err(CpuStepError::Stopped));

    // Stopped is terminal: every further step reports the halt and executes
    // nothing, whatever the program counter points at.
    cpu.set_pc(0x8000);
    let frozen_a = cpu.reg_a;
    let frozen_pc = cpu.get_program_counter();
    assert_eq!(cpu.execute_cpu_iteration(&mut bus), Err(CpuStepError::Stopped));
    assert_eq!(cpu.execute_cpu_iteration(&mut bus), Err(CpuStepError::Stopped));
    assert_eq!((cpu.reg_a, cpu.get_program_counter()), (frozen_a, frozen_pc));
}

#[test]
fn test_engine_step_info_trace_bytes() {
    // Program: LDA #$37 ; STA $0203 (a three-byte instruction).
    let mut commands = vec![0u8; 0x4000];
    commands[0x0000] = 0xA9;
    commands[0x0001] = 0x37;
    commands[0x0002] = 0x8D;  // STA absolute
    commands[0x0003] = 0x03;
    commands[0x0004] = 0x02;

    let mut bus = Bus::default();
    load_raw_commands(&mut bus, commands);

    let mut cpu = Cpu::default();
    cpu.set_pc(0x8000);

    let (descriptor, bytes) = cpu.execute_cpu_iteration_info(&mut bus).unwrap();
    assert_eq!(descriptor.cycles(), 2);
    assert_eq!(bytes, vec![0xA9, 0x37]);

    let (descriptor, bytes) = cpu.execute_cpu_iteration_info(&mut bus).unwrap();
    assert_eq!(descriptor.cycles(), 4);
    assert_eq!(bytes, vec![0x8D, 0x03, 0x02]);
    assert_eq!(bus.read_8bit_cpu(0x0203), 0x37);
    assert_eq!(cpu.get_program_counter(), 0x8005);
}

#[test]
fn test_engine_indexed_and_indirect_modes() {
    // Program exercising a zero-page store and an indirect-Y load:
    //   LDX #$05 ; STX $10 ; LDA ($20),Y
    let mut commands = vec![0u8; 0x4000];
    commands[0x0000] = 0xA2;  // LDX immediate
    commands[0x0001] = 0x05;
    commands[0x0002] = 0x86;  // STX zero page
    commands[0x0003] = 0x10;
    commands[0x0004] = 0xB1;  // LDA indirect, Y
    commands[0x0005] = 0x20;

    let mut bus = Bus::default();
    load_raw_commands(&mut bus, commands);

    // The zero-page pointer at 0x20 points at 0x0240; Y adds 2.
    bus.write_8bit_cpu(0x0020, 0x40);
    bus.write_8bit_cpu(0x0021, 0x02);
    bus.write_8bit_cpu(0x0242, 0x77);

    let mut cpu = Cpu::default();
    cpu.reg_y = 2;
    cpu.set_pc(0x8000);

    assert_eq!(cpu.execute_cpu_iteration(&mut bus), Ok(2));
    assert_eq!(cpu.reg_x, 5);
    assert_eq!(cpu.execute_cpu_iteration(&mut bus), Ok(3));
    assert_eq!(bus.read_8bit_cpu(0x0010), 5);
    // 2 + 3 cycles have elapsed, so the stubbed audio/IO registers read the
    // cycle counter's parity.
    assert_eq!(bus.cpu_cycles_num, 5);
    assert_eq!(bus.read_8bit_cpu(0x4000), 1);
    assert_eq!(cpu.execute_cpu_iteration(&mut bus), Ok(5));
    assert_eq!(cpu.reg_a, 0x77);
    assert_eq!(bus.cpu_cycles_num, 10);
    assert_eq!(bus.read_8bit_cpu(0x4000), 0);
    assert!(!is_flag_set(&cpu.cpu_status, flynes::cpu::ZERO_FLAG));
}

#[test]
fn test_engine_subroutine_round_trip() {
    // A small program driven step by step, with the full visible state
    // checked after every step:
    //   8000: LDX #$10
    //   8002: JSR $8008
    //   8005: NOP
    //   8006: STP
    //   8008: INX
    //   8009: RTS
    let mut commands = vec![0u8; 0x4000];
    commands[0x0000] = 0xA2;
    commands[0x0001] = 0x10;
    commands[0x0002] = 0x20;
    commands[0x0003] = 0x08;
    commands[0x0004] = 0x80;
    commands[0x0005] = 0xEA;
    commands[0x0006] = 0x02;
    commands[0x0008] = 0xE8;
    commands[0x0009] = 0x60;

    let mut bus = Bus::default();
    load_raw_commands(&mut bus, commands);

    let mut cpu = Cpu::default();
    cpu.set_pc(0x8000);

    assert_eq!(cpu.execute_cpu_iteration(&mut bus), Ok(2));
    assert_eq!(
        (cpu.reg_x, cpu.get_cpu_status(), cpu.get_stack_pointer(), cpu.get_program_counter()),
        (0x10, 0x24, 0xFD, 0x8002)
    );

    assert_eq!(cpu.execute_cpu_iteration(&mut bus), Ok(6));
    assert_eq!((cpu.get_stack_pointer(), cpu.get_program_counter()), (0xFB, 0x8008));
    // The pushed return point is the address of the call's last byte.
    assert_eq!(bus.read_8bit_cpu(0x01FD), 0x80);
    assert_eq!(bus.read_8bit_cpu(0x01FC), 0x04);

    assert_eq!(cpu.execute_cpu_iteration(&mut bus), Ok(2));
    assert_eq!((cpu.reg_x, cpu.get_program_counter()), (0x11, 0x8009));

    assert_eq!(cpu.execute_cpu_iteration(&mut bus), Ok(6));
    assert_eq!((cpu.get_stack_pointer(), cpu.get_program_counter()), (0xFD, 0x8005));

    assert_eq!(cpu.execute_cpu_iteration(&mut bus), Ok(2));
    assert_eq!(cpu.get_program_counter(), 0x8006);

    assert_eq!(cpu.execute_cpu_iteration(&mut bus), Err(CpuStepError::Stopped));
}
