//! The remaining unofficial operations: SHX, SHY, the STP/JAM halt family,
//! and the unstable XAA, AHX, TAS, immediate LAX and LAS forms.

use vstd::prelude::*;

use crate::bus::Bus;
use crate::cpu::{Cpu, CpuState};
use crate::memory::SRAM_START;

verus! {

/// SHX: store X AND (high byte of the address + 1).
pub open spec fn spec_op_shx(cpu: Cpu, bus: Bus, data_ref: u16) -> (Cpu, Bus) {
    (cpu, bus.spec_cpu_write(data_ref, cpu.reg_x & ((data_ref >> 8) as u8).wrapping_add(1)))
}

/// SHY: store Y AND (high byte of the address + 1).
pub open spec fn spec_op_shy(cpu: Cpu, bus: Bus, data_ref: u16) -> (Cpu, Bus) {
    (cpu, bus.spec_cpu_write(data_ref, cpu.reg_y & ((data_ref >> 8) as u8).wrapping_add(1)))
}

/// STP: the engine enters its terminal Stopped state.
pub open spec fn spec_op_stp(cpu: Cpu) -> Cpu {
    Cpu { state: CpuState::Stopped, ..cpu }
}

/// XAA: A = (A AND X) AND operand; no flags change in this model.
pub open spec fn spec_op_xaa(cpu: Cpu, bus: Bus, data_ref: u16) -> (Cpu, Bus) {
    (
        Cpu { reg_a: (cpu.reg_a & cpu.reg_x) & bus.spec_cpu_read_value(data_ref), ..cpu },
        bus.spec_cpu_read_state(data_ref),
    )
}

/// AHX: store (A AND X) AND 7.
pub open spec fn spec_op_ahx(cpu: Cpu, bus: Bus, data_ref: u16) -> (Cpu, Bus) {
    (cpu, bus.spec_cpu_write(data_ref, (cpu.reg_a & cpu.reg_x) & 7))
}

/// TAS: SP = X AND A, then store SP AND (high byte of the address + 1).
pub open spec fn spec_op_tas(cpu: Cpu, bus: Bus, data_ref: u16) -> (Cpu, Bus) {
    let sp = cpu.reg_x & cpu.reg_a;
    (
        Cpu { stack_pointer: sp, ..cpu },
        bus.spec_cpu_write(data_ref, sp & ((data_ref >> 8) as u8).wrapping_add(1)),
    )
}

/// Immediate LAX: A = A AND operand, then X = A; no flags change in this
/// model.
pub open spec fn spec_op_lax_other_ver(cpu: Cpu, bus: Bus, data_ref: u16) -> (Cpu, Bus) {
    let r = cpu.reg_a & bus.spec_cpu_read_value(data_ref);
    (Cpu { reg_a: r, reg_x: r, ..cpu }, bus.spec_cpu_read_state(data_ref))
}

/// LAS: SP = SP AND operand, copied into A and X; no flags change in this
/// model.
pub open spec fn spec_op_las(cpu: Cpu, bus: Bus, data_ref: u16) -> (Cpu, Bus) {
    let r = cpu.stack_pointer & bus.spec_cpu_read_value(data_ref);
    (
        Cpu { reg_a: r, reg_x: r, stack_pointer: r, ..cpu },
        bus.spec_cpu_read_state(data_ref),
    )
}

impl Cpu {
    /// SHX (SXA, XAS); AND reg_x with the high byte of the address + 1, then
    /// store.
    pub fn op_shx(&mut self, bus: &mut Bus, data_ref: u16)
        requires
            data_ref >= SRAM_START ==> old(bus).cart_ready(),
        ensures
            (*final(self), *final(bus)) == spec_op_shx(*old(self), *old(bus), data_ref),
    {
        let data_to_write = self.reg_x & ((data_ref >> 8) as u8).wrapping_add(1);
        bus.write_8bit_cpu(data_ref, data_to_write)
    }

    /// SHY (SYA, SAY); AND reg_y with the high byte of the address + 1, then
    /// store.
    pub fn op_shy(&mut self, bus: &mut Bus, data_ref: u16)
        requires
            data_ref >= SRAM_START ==> old(bus).cart_ready(),
        ensures
            (*final(self), *final(bus)) == spec_op_shy(*old(self), *old(bus), data_ref),
    {
        let data_to_write = self.reg_y & ((data_ref >> 8) as u8).wrapping_add(1);
        bus.write_8bit_cpu(data_ref, data_to_write)
    }

    /// STP (KIL, JAM, HLT) operations; processor lock up.
    pub fn op_stp(&mut self)
        ensures
            *final(self) == spec_op_stp(*old(self)),
    {
        self.state = CpuState::Stopped;
    }

    /// XAA (ANE) operations; unstable instruction.
    pub fn op_xaa(&mut self, bus: &mut Bus, data_ref: u16)
        requires
            data_ref >= SRAM_START ==> old(bus).cart_ready(),
        ensures
            (*final(self), *final(bus)) == spec_op_xaa(*old(self), *old(bus), data_ref),
    {
        let read_data = bus.read_8bit_cpu(data_ref);
        self.reg_a = (self.reg_a & self.reg_x) & read_data;
    }

    /// AHX (AXA, SHA) operation; AND reg_x with reg_a then AND with 7.
    pub fn op_ahx(&mut self, bus: &mut Bus, data_ref: u16)
        requires
            data_ref >= SRAM_START ==> old(bus).cart_ready(),
        ensures
            (*final(self), *final(bus)) == spec_op_ahx(*old(self), *old(bus), data_ref),
    {
        let data_to_write = (self.reg_a & self.reg_x) & 7;
        bus.write_8bit_cpu(data_ref, data_to_write)
    }

    /// TAS (XAS, SHS) operation; AND of reg_x and the accumulator, stored in
    /// SP, then SP AND the high address byte + 1 stored in memory.
    pub fn op_tas(&mut self, bus: &mut Bus, data_ref: u16)
        requires
            data_ref >= SRAM_START ==> old(bus).cart_ready(),
        ensures
            (*final(self), *final(bus)) == spec_op_tas(*old(self), *old(bus), data_ref),
    {
        self.stack_pointer = self.reg_x & self.reg_a;
        let data_to_write = self.stack_pointer & (((data_ref >> 8) as u8).wrapping_add(1));
        bus.write_8bit_cpu(data_ref, data_to_write);
    }

    /// LAX immediate (ATX, LXA, OAL) operations; AND memory with the
    /// accumulator, then transfer reg_a to reg_x.
    pub fn op_lax_other_ver(&mut self, bus: &mut Bus, data_ref: u16)
        requires
            data_ref >= SRAM_START ==> old(bus).cart_ready(),
        ensures
            (*final(self), *final(bus)) == spec_op_lax_other_ver(*old(self), *old(bus), data_ref),
    {
        self.reg_a &= bus.read_8bit_cpu(data_ref);
        self.reg_x = self.reg_a;
    }

    /// LAS (LAR, LAE) operations; AND memory with SP, transferred to reg_a,
    /// reg_x and SP.
    pub fn op_las(&mut self, bus: &mut Bus, data_ref: u16)
        requires
            data_ref >= SRAM_START ==> old(bus).cart_ready(),
        ensures
            (*final(self), *final(bus)) == spec_op_las(*old(self), *old(bus), data_ref),
    {
        self.stack_pointer &= bus.read_8bit_cpu(data_ref);
        self.reg_x = self.stack_pointer;
        self.reg_a = self.stack_pointer;
    }
}

} // verus!
