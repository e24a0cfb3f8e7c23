//! Load and store operations: LDA, LDX, LDY, STA, STX, STY.

use vstd::prelude::*;

use crate::bus::Bus;
use crate::cpu::Cpu;
use crate::cpu::shared_ops::{spec_update_zero_and_neg, update_zero_and_neg_flags};
use crate::memory::SRAM_START;

verus! {

/// LDA: loads the accumulator from memory and updates Zero/Negative.
pub open spec fn spec_op_lda(cpu: Cpu, bus: Bus, data_ref: u16) -> (Cpu, Bus) {
    let m = bus.spec_cpu_read_value(data_ref);
    (
        Cpu {
            reg_a: m,
            cpu_status: spec_update_zero_and_neg(cpu.cpu_status, m),
            ..cpu
        },
        bus.spec_cpu_read_state(data_ref),
    )
}

/// LDX: loads the X register from memory and updates Zero/Negative.
pub open spec fn spec_op_ldx(cpu: Cpu, bus: Bus, data_ref: u16) -> (Cpu, Bus) {
    let m = bus.spec_cpu_read_value(data_ref);
    (
        Cpu {
            reg_x: m,
            cpu_status: spec_update_zero_and_neg(cpu.cpu_status, m),
            ..cpu
        },
        bus.spec_cpu_read_state(data_ref),
    )
}

/// LDY: loads the Y register from memory and updates Zero/Negative.
pub open spec fn spec_op_ldy(cpu: Cpu, bus: Bus, data_ref: u16) -> (Cpu, Bus) {
    let m = bus.spec_cpu_read_value(data_ref);
    (
        Cpu {
            reg_y: m,
            cpu_status: spec_update_zero_and_neg(cpu.cpu_status, m),
            ..cpu
        },
        bus.spec_cpu_read_state(data_ref),
    )
}

/// STA: stores the accumulator to memory; no flags change.
pub open spec fn spec_op_sta(cpu: Cpu, bus: Bus, data_ref: u16) -> (Cpu, Bus) {
    (cpu, bus.spec_cpu_write(data_ref, cpu.reg_a))
}

/// STX: stores the X register to memory; no flags change.
pub open spec fn spec_op_stx(cpu: Cpu, bus: Bus, data_ref: u16) -> (Cpu, Bus) {
    (cpu, bus.spec_cpu_write(data_ref, cpu.reg_x))
}

/// STY: stores the Y register to memory; no flags change.
pub open spec fn spec_op_sty(cpu: Cpu, bus: Bus, data_ref: u16) -> (Cpu, Bus) {
    (cpu, bus.spec_cpu_write(data_ref, cpu.reg_y))
}

impl Cpu {
    /// Sets memory value to register A, updates Zero and Neg flags.
    pub fn op_lda(&mut self, bus: &mut Bus, data_ref: u16)
        requires
            data_ref >= SRAM_START ==> old(bus).cart_ready(),
        ensures
            (*final(self), *final(bus)) == spec_op_lda(*old(self), *old(bus), data_ref),
    {
        self.reg_a = self.read_8bit(bus, data_ref);
        update_zero_and_neg_flags(&mut self.cpu_status, self.reg_a)
    }

    /// Sets memory value to register X, updates Zero and Neg flags.
    pub fn op_ldx(&mut self, bus: &mut Bus, data_ref: u16)
        requires
            data_ref >= SRAM_START ==> old(bus).cart_ready(),
        ensures
            (*final(self), *final(bus)) == spec_op_ldx(*old(self), *old(bus), data_ref),
    {
        self.reg_x = self.read_8bit(bus, data_ref);
        update_zero_and_neg_flags(&mut self.cpu_status, self.reg_x)
    }

    /// Sets memory value to register Y, updates Zero and Neg flags.
    pub fn op_ldy(&mut self, bus: &mut Bus, data_ref: u16)
        requires
            data_ref >= SRAM_START ==> old(bus).cart_ready(),
        ensures
            (*final(self), *final(bus)) == spec_op_ldy(*old(self), *old(bus), data_ref),
    {
        self.reg_y = self.read_8bit(bus, data_ref);
        update_zero_and_neg_flags(&mut self.cpu_status, self.reg_y)
    }

    /// Sets value of register A to memory.
    pub fn op_sta(&mut self, bus: &mut Bus, data_ref: u16)
        requires
            data_ref >= SRAM_START ==> old(bus).cart_ready(),
        ensures
            (*final(self), *final(bus)) == spec_op_sta(*old(self), *old(bus), data_ref),
    {
        let value = self.reg_a;
        self.write_8bit(bus, data_ref, value);
    }

    /// Sets value of register X to memory.
    pub fn op_stx(&mut self, bus: &mut Bus, data_ref: u16)
        requires
            data_ref >= SRAM_START ==> old(bus).cart_ready(),
        ensures
            (*final(self), *final(bus)) == spec_op_stx(*old(self), *old(bus), data_ref),
    {
        let value = self.reg_x;
        self.write_8bit(bus, data_ref, value);
    }

    /// Sets value of register Y to memory.
    pub fn op_sty(&mut self, bus: &mut Bus, data_ref: u16)
        requires
            data_ref >= SRAM_START ==> old(bus).cart_ready(),
        ensures
            (*final(self), *final(bus)) == spec_op_sty(*old(self), *old(bus), data_ref),
    {
        let value = self.reg_y;
        self.write_8bit(bus, data_ref, value);
    }
}

} // verus!
