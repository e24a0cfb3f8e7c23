//! Logical operations: AND, EOR, ORA, BIT.

use vstd::prelude::*;

use crate::bus::Bus;
use crate::cpu::{Cpu, NEGATIVE_FLAG, OVERFLOW_FLAG, ZERO_FLAG};
use crate::cpu::shared_ops::{
    set_flag, spec_set_flag, spec_transfer_bit, spec_update_zero_and_neg, transfer_bit,
    update_zero_and_neg_flags,
};
use crate::memory::SRAM_START;

verus! {

/// AND: bitwise AND of the accumulator with memory, result in A,
/// Zero/Negative updated.
pub open spec fn spec_op_and(cpu: Cpu, bus: Bus, data_ref: u16) -> (Cpu, Bus) {
    let r = cpu.reg_a & bus.spec_cpu_read_value(data_ref);
    (
        Cpu { reg_a: r, cpu_status: spec_update_zero_and_neg(cpu.cpu_status, r), ..cpu },
        bus.spec_cpu_read_state(data_ref),
    )
}

/// EOR: bitwise exclusive OR of the accumulator with memory, result in A,
/// Zero/Negative updated.
pub open spec fn spec_op_eor(cpu: Cpu, bus: Bus, data_ref: u16) -> (Cpu, Bus) {
    let r = cpu.reg_a ^ bus.spec_cpu_read_value(data_ref);
    (
        Cpu { reg_a: r, cpu_status: spec_update_zero_and_neg(cpu.cpu_status, r), ..cpu },
        bus.spec_cpu_read_state(data_ref),
    )
}

/// ORA: bitwise OR of the accumulator with memory, result in A,
/// Zero/Negative updated.
pub open spec fn spec_op_ora(cpu: Cpu, bus: Bus, data_ref: u16) -> (Cpu, Bus) {
    let r = cpu.reg_a | bus.spec_cpu_read_value(data_ref);
    (
        Cpu { reg_a: r, cpu_status: spec_update_zero_and_neg(cpu.cpu_status, r), ..cpu },
        bus.spec_cpu_read_state(data_ref),
    )
}

/// BIT: Zero = (A AND memory) == 0; Negative and Overflow are copied straight
/// from bits 7 and 6 of the memory operand, not from the AND result.
pub open spec fn spec_op_bit(cpu: Cpu, bus: Bus, data_ref: u16) -> (Cpu, Bus) {
    let m = bus.spec_cpu_read_value(data_ref);
    let st1 = spec_set_flag(cpu.cpu_status, ZERO_FLAG, (m & cpu.reg_a) == 0);
    let st2 = spec_transfer_bit(st1, m, OVERFLOW_FLAG);
    let st3 = spec_transfer_bit(st2, m, NEGATIVE_FLAG);
    (Cpu { cpu_status: st3, ..cpu }, bus.spec_cpu_read_state(data_ref))
}

impl Cpu {
    /// Performs logical AND between register A and data, result saved in reg A.
    pub fn op_and(&mut self, bus: &mut Bus, data_ref: u16)
        requires
            data_ref >= SRAM_START ==> old(bus).cart_ready(),
        ensures
            (*final(self), *final(bus)) == spec_op_and(*old(self), *old(bus), data_ref),
    {
        self.reg_a &= self.read_8bit(bus, data_ref);
        update_zero_and_neg_flags(&mut self.cpu_status, self.reg_a);
    }

    /// Performs logical XOR between register A and data, result saved in reg A.
    pub fn op_eor(&mut self, bus: &mut Bus, data_ref: u16)
        requires
            data_ref >= SRAM_START ==> old(bus).cart_ready(),
        ensures
            (*final(self), *final(bus)) == spec_op_eor(*old(self), *old(bus), data_ref),
    {
        self.reg_a ^= self.read_8bit(bus, data_ref);
        update_zero_and_neg_flags(&mut self.cpu_status, self.reg_a);
    }

    /// Performs logical OR between register A and data, result saved in reg A.
    pub fn op_ora(&mut self, bus: &mut Bus, data_ref: u16)
        requires
            data_ref >= SRAM_START ==> old(bus).cart_ready(),
        ensures
            (*final(self), *final(bus)) == spec_op_ora(*old(self), *old(bus), data_ref),
    {
        self.reg_a |= self.read_8bit(bus, data_ref);
        update_zero_and_neg_flags(&mut self.cpu_status, self.reg_a);
    }

    /// Performs logical AND between register A and data, affects only the cpu
    /// status.
    pub fn op_bit(&mut self, bus: &mut Bus, data_ref: u16)
        requires
            data_ref >= SRAM_START ==> old(bus).cart_ready(),
        ensures
            (*final(self), *final(bus)) == spec_op_bit(*old(self), *old(bus), data_ref),
    {
        let read_data = self.read_8bit(bus, data_ref);
        set_flag(&mut self.cpu_status, ZERO_FLAG, (read_data & self.reg_a) == 0);
        transfer_bit(&mut self.cpu_status, &read_data, OVERFLOW_FLAG);
        transfer_bit(&mut self.cpu_status, &read_data, NEGATIVE_FLAG);
    }
}

} // verus!
