//! Unofficial combined operations: ALR, ANC, ARR, AXS, LAX, SAX. Each is a
//! documented composition of official behavior.

use vstd::prelude::*;

use crate::bus::Bus;
use crate::cpu::{CARRY_FLAG, Cpu, NEGATIVE_FLAG, OVERFLOW_FLAG};
use crate::cpu::shared_ops::{
    is_flag_set, set_flag, spec_is_flag_set, spec_set_flag, spec_update_zero_and_neg,
    update_zero_and_neg_flags,
};
use crate::memory::SRAM_START;

verus! {

/// ALR: AND the operand into A, then shift A right one bit; Carry takes the
/// bit shifted out.
pub open spec fn spec_op_alr(cpu: Cpu, bus: Bus, data_ref: u16) -> (Cpu, Bus) {
    let anded = cpu.reg_a & bus.spec_cpu_read_value(data_ref);
    let r = anded >> 1;
    let st1 = spec_set_flag(cpu.cpu_status, CARRY_FLAG, anded & 0b0000_0001 == 0b0000_0001);
    (
        Cpu { reg_a: r, cpu_status: spec_update_zero_and_neg(st1, r), ..cpu },
        bus.spec_cpu_read_state(data_ref),
    )
}

/// ANC: AND the operand into A, then copy the Negative flag into Carry.
pub open spec fn spec_op_anc(cpu: Cpu, bus: Bus, data_ref: u16) -> (Cpu, Bus) {
    let r = cpu.reg_a & bus.spec_cpu_read_value(data_ref);
    let st1 = spec_update_zero_and_neg(cpu.cpu_status, r);
    let st2 = spec_set_flag(st1, CARRY_FLAG, spec_is_flag_set(st1, NEGATIVE_FLAG));
    (Cpu { reg_a: r, cpu_status: st2, ..cpu }, bus.spec_cpu_read_state(data_ref))
}

/// ARR: AND then rotate right, but Carry comes from bit 6 of the result and
/// Overflow from the exclusive OR of bits 6 and 5.
pub open spec fn spec_op_arr(cpu: Cpu, bus: Bus, data_ref: u16) -> (Cpu, Bus) {
    let anded = cpu.reg_a & bus.spec_cpu_read_value(data_ref);
    let r = if spec_is_flag_set(cpu.cpu_status, CARRY_FLAG) {
        (anded >> 1) | 0b1000_0000
    } else {
        anded >> 1
    };
    let carry_out = r & 0b0100_0000 == 0b0100_0000;
    let overflow_out = (r & 0b0010_0000 == 0b0010_0000) != carry_out;
    let st1 = spec_update_zero_and_neg(cpu.cpu_status, r);
    let st2 = spec_set_flag(st1, CARRY_FLAG, carry_out);
    let st3 = spec_set_flag(st2, OVERFLOW_FLAG, overflow_out);
    (Cpu { reg_a: r, cpu_status: st3, ..cpu }, bus.spec_cpu_read_state(data_ref))
}

/// AXS: X = (X AND A) - operand; Carry = (X AND A) >= operand; Zero/Negative
/// from the result.
pub open spec fn spec_op_axs(cpu: Cpu, bus: Bus, data_ref: u16) -> (Cpu, Bus) {
    let anded = cpu.reg_x & cpu.reg_a;
    let m = bus.spec_cpu_read_value(data_ref);
    let r = anded.wrapping_sub(m);
    let st1 = spec_set_flag(cpu.cpu_status, CARRY_FLAG, anded >= m);
    (
        Cpu { reg_x: r, cpu_status: spec_update_zero_and_neg(st1, r), ..cpu },
        bus.spec_cpu_read_state(data_ref),
    )
}

/// LAX: load the operand into both A and X, as LDA followed by TAX.
pub open spec fn spec_op_lax(cpu: Cpu, bus: Bus, data_ref: u16) -> (Cpu, Bus) {
    let m = bus.spec_cpu_read_value(data_ref);
    (
        Cpu {
            reg_a: m,
            reg_x: m,
            cpu_status: spec_update_zero_and_neg(cpu.cpu_status, m),
            ..cpu
        },
        bus.spec_cpu_read_state(data_ref),
    )
}

/// SAX: store A AND X; no flags change.
pub open spec fn spec_op_sax(cpu: Cpu, bus: Bus, data_ref: u16) -> (Cpu, Bus) {
    (cpu, bus.spec_cpu_write(data_ref, cpu.reg_a & cpu.reg_x))
}

impl Cpu {
    /// ALR / ASR operation; AND byte with reg_a, then shift right one bit in
    /// reg_a.
    pub fn op_alr(&mut self, bus: &mut Bus, data_ref: u16)
        requires
            data_ref >= SRAM_START ==> old(bus).cart_ready(),
        ensures
            (*final(self), *final(bus)) == spec_op_alr(*old(self), *old(bus), data_ref),
    {
        self.reg_a &= self.read_8bit(bus, data_ref);
        set_flag(&mut self.cpu_status, CARRY_FLAG, self.reg_a & 0b0000_0001 == 0b0000_0001);
        self.reg_a >>= 1;
        update_zero_and_neg_flags(&mut self.cpu_status, self.reg_a);
    }

    /// ANC / AAC operation; AND byte with reg_a, then copies N (bit 7) to
    /// the carry flag.
    pub fn op_anc(&mut self, bus: &mut Bus, data_ref: u16)
        requires
            data_ref >= SRAM_START ==> old(bus).cart_ready(),
        ensures
            (*final(self), *final(bus)) == spec_op_anc(*old(self), *old(bus), data_ref),
    {
        self.reg_a &= self.read_8bit(bus, data_ref);
        update_zero_and_neg_flags(&mut self.cpu_status, self.reg_a);
        let is_neg_set = is_flag_set(&self.cpu_status, NEGATIVE_FLAG);
        set_flag(&mut self.cpu_status, CARRY_FLAG, is_neg_set);
    }

    /// ARR operation; similar to AND then ROR, but C is bit 6, and V is the
    /// xor of bit 6 and bit 5.
    pub fn op_arr(&mut self, bus: &mut Bus, data_ref: u16)
        requires
            data_ref >= SRAM_START ==> old(bus).cart_ready(),
        ensures
            (*final(self), *final(bus)) == spec_op_arr(*old(self), *old(bus), data_ref),
    {
        self.reg_a &= self.read_8bit(bus, data_ref);
        self.reg_a >>= 1;
        if is_flag_set(&self.cpu_status, CARRY_FLAG) {
            self.reg_a |= 0b1000_0000;
        }

        update_zero_and_neg_flags(&mut self.cpu_status, self.reg_a);
        let is_carry_flag_set = self.reg_a & 0b0100_0000 == 0b0100_0000;
        set_flag(&mut self.cpu_status, CARRY_FLAG, is_carry_flag_set);
        let is_overflow_flag_set = (self.reg_a & 0b0010_0000 == 0b0010_0000) ^ is_carry_flag_set;
        set_flag(&mut self.cpu_status, OVERFLOW_FLAG, is_overflow_flag_set);
    }

    /// AXS / SBX / SAX operation; sets reg_x to ((reg_x AND reg_a) - value)
    /// and updates Z, N and C.
    pub fn op_axs(&mut self, bus: &mut Bus, data_ref: u16)
        requires
            data_ref >= SRAM_START ==> old(bus).cart_ready(),
        ensures
            (*final(self), *final(bus)) == spec_op_axs(*old(self), *old(bus), data_ref),
    {
        let temp_and_result = self.reg_x & self.reg_a;
        let read_data = self.read_8bit(bus, data_ref);
        set_flag(&mut self.cpu_status, CARRY_FLAG, temp_and_result >= read_data);
        self.reg_x = temp_and_result.wrapping_sub(read_data);
        update_zero_and_neg_flags(&mut self.cpu_status, self.reg_x);
    }

    /// LAX operation; same as LDA then TAX.
    pub fn op_lax(&mut self, bus: &mut Bus, data_ref: u16)
        requires
            data_ref >= SRAM_START ==> old(bus).cart_ready(),
        ensures
            (*final(self), *final(bus)) == spec_op_lax(*old(self), *old(bus), data_ref),
    {
        self.reg_a = self.read_8bit(bus, data_ref);
        self.reg_x = self.reg_a;
        update_zero_and_neg_flags(&mut self.cpu_status, self.reg_x)
    }

    /// SAX / AAX / AXS operation; stores the bitwise AND of reg_a and reg_x.
    pub fn op_sax(&mut self, bus: &mut Bus, data_ref: u16)
        requires
            data_ref >= SRAM_START ==> old(bus).cart_ready(),
        ensures
            (*final(self), *final(bus)) == spec_op_sax(*old(self), *old(bus), data_ref),
    {
        let value = self.reg_a & self.reg_x;
        self.write_8bit(bus, data_ref, value);
    }
}

} // verus!
