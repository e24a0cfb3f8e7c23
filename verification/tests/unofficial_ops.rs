//! Tests for the unofficial combined and read-modify-write operations,
//! checked against their compositions of official behavior.

use rand::RngExt;
use rand::SeedableRng;
use rand::rngs::StdRng;

use flynes::bus::Bus;
use flynes::cpu::Cpu;
use flynes::cpu::shared_ops::is_flag_set;
use flynes::cpu::{CARRY_FLAG, CpuState, NEGATIVE_FLAG, OVERFLOW_FLAG, ZERO_FLAG};

#[test]
fn test_slo_matches_asl_then_ora() {
    let mut rng: StdRng = StdRng::seed_from_u64(42);

    for _ in 0..1000 {
        let a = rng.random::<u8>();
        let m = rng.random::<u8>();
        let st = rng.random::<u8>();

        let mut combined = Cpu::default();
        let mut combined_bus = Bus::default();
        combined.reg_a = a;
        combined.cpu_status = st;
        combined_bus.write_8bit_cpu(0x0000, m);
        combined.op_slo(&mut combined_bus, 0x0000);

        let mut split = Cpu::default();
        let mut split_bus = Bus::default();
        split.reg_a = a;
        split.cpu_status = st;
        split_bus.write_8bit_cpu(0x0000, m);
        split.op_asl(&mut split_bus, 0x0000);
        split.op_ora(&mut split_bus, 0x0000);

        assert_eq!(combined.reg_a, split.reg_a);
        assert_eq!(combined.cpu_status, split.cpu_status);
        assert_eq!(combined_bus.read_8bit_cpu(0x0000), split_bus.read_8bit_cpu(0x0000));
    }
}

#[test]
fn test_rmw_compositions() {
    let mut rng: StdRng = StdRng::seed_from_u64(42);

    for _ in 0..1000 {
        let a = rng.random::<u8>();
        let m = rng.random::<u8>();
        let st = rng.random::<u8>();

        // SRE is LSR then EOR.
        let mut combined = Cpu::default();
        let mut combined_bus = Bus::default();
        combined.reg_a = a;
        combined.cpu_status = st;
        combined_bus.write_8bit_cpu(0x0000, m);
        combined.op_sre(&mut combined_bus, 0x0000);

        let mut split = Cpu::default();
        let mut split_bus = Bus::default();
        split.reg_a = a;
        split.cpu_status = st;
        split_bus.write_8bit_cpu(0x0000, m);
        split.op_lsr(&mut split_bus, 0x0000);
        split.op_eor(&mut split_bus, 0x0000);

        assert_eq!(combined.reg_a, split.reg_a);
        assert_eq!(combined.cpu_status, split.cpu_status);

        // RRA is ROR then ADC.
        let mut combined = Cpu::default();
        let mut combined_bus = Bus::default();
        combined.reg_a = a;
        combined.cpu_status = st;
        combined_bus.write_8bit_cpu(0x0000, m);
        combined.op_rra(&mut combined_bus, 0x0000);

        let mut split = Cpu::default();
        let mut split_bus = Bus::default();
        split.reg_a = a;
        split.cpu_status = st;
        split_bus.write_8bit_cpu(0x0000, m);
        split.op_ror(&mut split_bus, 0x0000);
        split.op_adc(&mut split_bus, 0x0000);

        assert_eq!(combined.reg_a, split.reg_a);
        assert_eq!(combined.cpu_status, split.cpu_status);

        // DCP is DEC then CMP.
        let mut combined = Cpu::default();
        let mut combined_bus = Bus::default();
        combined.reg_a = a;
        combined.cpu_status = st;
        combined_bus.write_8bit_cpu(0x0000, m);
        combined.op_dcp(&mut combined_bus, 0x0000);

        let mut split = Cpu::default();
        let mut split_bus = Bus::default();
        split.reg_a = a;
        split.cpu_status = st;
        split_bus.write_8bit_cpu(0x0000, m);
        split.op_dec(&mut split_bus, 0x0000);
        split.op_cmp(&mut split_bus, 0x0000);

        assert_eq!(combined.cpu_status, split.cpu_status);
        assert_eq!(combined_bus.read_8bit_cpu(0x0000), split_bus.read_8bit_cpu(0x0000));
    }
}

#[test]
fn test_lax_and_sax() {
    let mut cpu = Cpu::default();
    let mut bus = Bus::default();

    bus.write_8bit_cpu(0x0000, 0x5C);
    cpu.op_lax(&mut bus, 0x0000);
    assert_eq!((cpu.reg_a, cpu.reg_x), (0x5C, 0x5C));

    cpu.reg_a = 0b1100_1100;
    cpu.reg_x = 0b1010_1010;
    cpu.op_sax(&mut bus, 0x0010);
    assert_eq!(bus.read_8bit_cpu(0x0010), 0b1000_1000);
}

#[test]
fn test_alr_anc_arr_axs() {
    let mut cpu = Cpu::default();
    let mut bus = Bus::default();

    // ALR: AND then shift right; Carry takes the pre-shift low bit.
    cpu.reg_a = 0b1101_0111;
    cpu.cpu_status = 0;
    bus.write_8bit_cpu(0x0000, 0b0000_0111);
    cpu.op_alr(&mut bus, 0x0000);
    assert_eq!(cpu.reg_a, 0b0000_0011);
    assert!(is_flag_set(&cpu.cpu_status, CARRY_FLAG));

    // ANC: AND, then the Negative flag is copied into Carry.
    cpu.reg_a = 0b1000_0001;
    cpu.cpu_status = 0;
    bus.write_8bit_cpu(0x0001, 0b1000_0000);
    cpu.op_anc(&mut bus, 0x0001);
    assert_eq!(cpu.reg_a, 0b1000_0000);
    assert!(is_flag_set(&cpu.cpu_status, NEGATIVE_FLAG));
    assert!(is_flag_set(&cpu.cpu_status, CARRY_FLAG));

    // ARR: AND then rotate right; Carry from bit 6 of the result, Overflow
    // from the xor of bits 6 and 5.
    cpu.reg_a = 0xFF;
    cpu.cpu_status = 0;
    bus.write_8bit_cpu(0x0002, 0b1100_0000);
    cpu.op_arr(&mut bus, 0x0002);
    assert_eq!(cpu.reg_a, 0b0110_0000);
    assert!(is_flag_set(&cpu.cpu_status, CARRY_FLAG));
    assert!(!is_flag_set(&cpu.cpu_status, OVERFLOW_FLAG));

    // AXS: X = (A AND X) - operand, with Carry as no-borrow.
    cpu.reg_a = 0b1111_0000;
    cpu.reg_x = 0b1010_1010;
    cpu.cpu_status = 0;
    bus.write_8bit_cpu(0x0003, 0x10);
    cpu.op_axs(&mut bus, 0x0003);
    assert_eq!(cpu.reg_x, 0b1010_0000 - 0x10);
    assert!(is_flag_set(&cpu.cpu_status, CARRY_FLAG));
    assert!(!is_flag_set(&cpu.cpu_status, ZERO_FLAG));
}

#[test]
fn test_shx_and_shy_store_masked_high_byte() {
    let mut cpu = Cpu::default();
    let mut bus = Bus::default();

    cpu.reg_x = 0xFF;
    cpu.op_shx(&mut bus, 0x0312);
    // X AND (high byte + 1) = 0xFF AND 0x04 = 0x04, stored at the address.
    assert_eq!(bus.read_8bit_cpu(0x0312), 0x04);

    cpu.reg_y = 0x0F;
    cpu.op_shy(&mut bus, 0x0212);
    assert_eq!(bus.read_8bit_cpu(0x0212), 0x03);
}

#[test]
fn test_stp_enters_terminal_state() {
    let mut cpu = Cpu::default();
    assert!(matches!(cpu.state, CpuState::Running));
    cpu.op_stp();
    assert!(matches!(cpu.state, CpuState::Stopped));
}
