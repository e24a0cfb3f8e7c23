//! Tests for the stack discipline on the fixed stack page.

use rand::RngExt;
use rand::SeedableRng;
use rand::rngs::StdRng;

use flynes::cpu::Cpu;
use flynes::memory::Memory;

#[test]
fn test_stack_push_pull() {
    let mut rng: StdRng = StdRng::seed_from_u64(42);

    let mut mem: Memory = Memory::default();

    let mut cpu: Cpu = Cpu::default();
    cpu.init_sp(0xFF);

    for _ in 0..1000 {
        let random_num = rng.random::<u8>();

        for _ in 0..random_num {
            let random_start = rng.random::<u8>().max(0x2);
            let sp = cpu.stack_pointer_mut();
            *sp = random_start;

            let random_data = rng.random::<u16>();

            let random_data_1bit = (random_data >> 8) as u8;
            let random_data_2bit = random_data as u8;

            assert_eq!(((random_data_1bit as u16) << 8) + (random_data_2bit as u16), random_data);

            mem.stack_push_8bit(random_data_1bit, sp);
            assert_eq!(*sp, random_start - 1);
            mem.stack_push_8bit(random_data_2bit, sp);
            assert_eq!(*sp, random_start - 2);

            let pulled_data = mem.stack_pull_16bit(sp);
            assert_eq!(pulled_data, random_data);
            assert_eq!(*sp, random_start);

            mem.stack_push_16bit(random_data, sp);
            assert_eq!(*sp, random_start - 2);
            let pulled_data = mem.stack_pull_16bit(sp);
            assert_eq!(pulled_data, random_data);

            mem.stack_push_16bit(random_data, sp);
            let pulled_data_1bit = mem.stack_pull_8bit(sp) as u16;
            assert_eq!(*sp, random_start - 1);
            let pulled_data_2bit = mem.stack_pull_8bit(sp) as u16;
            assert_eq!(*sp, random_start);

            assert_eq!(pulled_data_1bit + (pulled_data_2bit << 8), random_data);
        }
    }
}

#[test]
fn test_stack_discipline_round_trip() {
    let mut rng: StdRng = StdRng::seed_from_u64(7);

    for _ in 0..100 {
        let mut mem = Memory::default();
        let mut sp: u8 = rng.random::<u8>();
        let start_sp = sp;
        let count = (rng.random::<u8>() as usize) + 1;

        let values: Vec<u8> = (0..count).map(|_| rng.random::<u8>()).collect();
        for v in &values {
            mem.stack_push_8bit(*v, &mut sp);
        }

        for v in values.iter().rev() {
            let pulled = mem.stack_pull_8bit(&mut sp);
            assert_eq!(pulled, *v);
        }
        assert_eq!(sp, start_sp);
    }
}

#[test]
fn test_stack_as_slice_window() {
    let mut mem = Memory::default();
    let mut sp: u8 = 0xFF;
    mem.stack_push_8bit(0x42, &mut sp);
    mem.stack_push_8bit(0x43, &mut sp);

    let stack = mem.stack_as_slice();
    assert_eq!(stack.len(), 256);
    assert_eq!(stack[0xFF], 0x42);
    assert_eq!(stack[0xFE], 0x43);
}
