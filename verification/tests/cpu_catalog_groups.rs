//! Grouped operation tests with hand-checked register and status values.

use flynes::bus::Bus;
use flynes::cpu::Cpu;
use flynes::cpu::shared_ops::is_flag_set;

#[test]
fn test_ab_operations() {
    let mut cpu = Cpu::default();
    cpu.cpu_status = 0b0000_0000;
    let mut bus = Bus::default();

    // Checked against a reference assembler run:
    //
    // LDA #$90
    // ADC #$90
    // ADC #$20
    // ADC #$50
    // ADC #$6F
    // ADC #$FF
    // ADC #$7F
    // ADC #$80
    let operands: [u8; 8] = [0x90, 0x90, 0x20, 0x50, 0x6F, 0xFF, 0x7F, 0x80];
    for (now_id, now_value) in operands.iter().enumerate() {
        bus.write_8bit_cpu(now_id as u16, *now_value);
    }

    cpu.op_lda(&mut bus, 0x0000);
    cpu.op_adc(&mut bus, 0x0001);
    assert_eq!((cpu.reg_a, cpu.cpu_status), (0x20, 0b0100_0001));
    cpu.op_adc(&mut bus, 0x0002);
    assert_eq!((cpu.reg_a, cpu.cpu_status), (0x41, 0b0000_0000));
    cpu.op_adc(&mut bus, 0x0003);
    assert_eq!((cpu.reg_a, cpu.cpu_status), (0x91, 0b1100_0000));
    cpu.op_adc(&mut bus, 0x0004);
    assert_eq!((cpu.reg_a, cpu.cpu_status), (0x00, 0b0000_0011));
    cpu.op_adc(&mut bus, 0x0005);
    assert_eq!((cpu.reg_a, cpu.cpu_status), (0x00, 0b0000_0011));
    cpu.op_adc(&mut bus, 0x0006);
    assert_eq!((cpu.reg_a, cpu.cpu_status), (0x80, 0b1100_0000));
    cpu.op_adc(&mut bus, 0x0007);
    assert_eq!((cpu.reg_a, cpu.cpu_status), (0x00, 0b0100_0011));
}

#[test]
fn test_cde_operations() {
    let mut cpu = Cpu::default();
    cpu.cpu_status = 0b1111_1111;
    let mut bus = Bus::default();

    cpu.op_clv();
    cpu.op_clc();
    cpu.op_cld();
    cpu.op_cli();
    assert_eq!(cpu.cpu_status, 0b1011_0010);
    cpu.op_clv();
    cpu.op_clc();
    cpu.op_cld();
    cpu.op_cli();
    assert_eq!(cpu.cpu_status, 0b1011_0010);

    cpu.cpu_status = 0b0000_0000;
    cpu.reg_a = 0xFF;
    bus.write_8bit_cpu(0x01FF, 0x01);
    cpu.op_cmp(&mut bus, 0x01FF);
    assert_eq!(cpu.cpu_status, 0b1000_0001);

    cpu.cpu_status = 0b0000_0000;
    cpu.reg_x = 0x01;
    bus.write_8bit_cpu(0x0010, 0x10);
    cpu.op_cpx(&mut bus, 0x0010);
    assert_eq!(cpu.cpu_status, 0b1000_0000);

    cpu.cpu_status = 0b0000_0000;
    cpu.reg_y = 0xFF;
    bus.write_8bit_cpu(0x0011, 0xFF);
    cpu.op_cpy(&mut bus, 0x0011);
    assert_eq!(cpu.cpu_status, 0b0000_0011);

    bus.write_8bit_cpu(0x01FF, 0x01);
    cpu.op_dec(&mut bus, 0x01FF);
    cpu.op_dec(&mut bus, 0x01FF);
    assert_eq!(0xFF, bus.read_8bit_cpu(0x01FF));

    cpu.reg_x = 0b0000_0000;
    cpu.op_dex();
    assert_eq!(cpu.reg_x, 0b1111_1111);

    cpu.reg_y = 0b1111_1111;
    cpu.op_dey();
    assert_eq!(cpu.reg_y, 0b1111_1110);

    cpu.reg_a = 0b1001_1001;
    bus.write_8bit_cpu(0x0012, 0b0101_0111);
    cpu.op_eor(&mut bus, 0x0012);
    assert_eq!(cpu.reg_a, 0b1100_1110)
}

#[test]
fn test_ijlno_operations() {
    let mut cpu = Cpu::default();
    let mut bus = Bus::default();

    bus.write_8bit_cpu(0x0000, 0b0101_0101);
    cpu.op_lda(&mut bus, 0x0000);
    bus.write_8bit_cpu(0x0001, 0b1010_1010);
    cpu.op_ora(&mut bus, 0x0001);
    assert_eq!(cpu.reg_a, 0b1111_1111);
    assert!(is_flag_set(&cpu.cpu_status, 7));

    cpu.op_lda(&mut bus, 0x07FF);
    cpu.op_ora(&mut bus, 0x07FF);
    assert_eq!(cpu.reg_a, 0b0000_0000);
    assert!(is_flag_set(&cpu.cpu_status, 1));

    bus.write_8bit_cpu(0x0002, 0b0000_0001);
    cpu.op_lda(&mut bus, 0x0002);
    cpu.op_lsr_acc();
    assert_eq!(cpu.reg_a, 0);
    assert!(is_flag_set(&cpu.cpu_status, 0));

    bus.write_8bit_cpu(0x0003, 0x10);
    cpu.op_ldx(&mut bus, 0x0003);
    bus.write_8bit_cpu(0x0004, 0x11);
    cpu.op_ldy(&mut bus, 0x0004);
    assert!(cpu.reg_x == cpu.reg_y - 1);

    cpu.op_jmp(0xFFFF);
    assert_eq!(cpu.program_counter, 0xFFFF);

    // The call pushes the return point minus one; starting from 0x0002 the
    // pushed address is 0x0001.
    cpu.set_pc(0x0002);
    cpu.op_jsr(&mut bus, 0x1111);
    assert_eq!(cpu.program_counter, 0x1111);
    assert_eq!(bus.memory().stack_pull_16bit(&mut cpu.stack_pointer), 0x01);

    cpu.op_inx();
    cpu.op_iny();

    assert_eq!((cpu.reg_x, cpu.reg_y), (0x11, 0x12));
    cpu.op_inc(&mut bus, 0x0300);
    assert_eq!(bus.read_8bit_cpu(0x0300), 1);
}
