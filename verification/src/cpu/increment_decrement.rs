//! Increment and decrement operations: INC, INX, INY, DEC, DEX, DEY.

use vstd::prelude::*;

use crate::bus::Bus;
use crate::cpu::Cpu;
use crate::cpu::shared_ops::{spec_update_zero_and_neg, update_zero_and_neg_flags};
use crate::memory::SRAM_START;

verus! {

/// INC: adds one to a memory byte with 8-bit wraparound, updates
/// Zero/Negative from the new value.
pub open spec fn spec_op_inc(cpu: Cpu, bus: Bus, data_ref: u16) -> (Cpu, Bus) {
    let m = bus.spec_cpu_read_value(data_ref).wrapping_add(1);
    let bus1 = bus.spec_cpu_read_state(data_ref);
    (
        Cpu { cpu_status: spec_update_zero_and_neg(cpu.cpu_status, m), ..cpu },
        bus1.spec_cpu_write(data_ref, m),
    )
}

/// DEC: subtracts one from a memory byte with 8-bit wraparound, updates
/// Zero/Negative from the new value.
pub open spec fn spec_op_dec(cpu: Cpu, bus: Bus, data_ref: u16) -> (Cpu, Bus) {
    let m = bus.spec_cpu_read_value(data_ref).wrapping_sub(1);
    let bus1 = bus.spec_cpu_read_state(data_ref);
    (
        Cpu { cpu_status: spec_update_zero_and_neg(cpu.cpu_status, m), ..cpu },
        bus1.spec_cpu_write(data_ref, m),
    )
}

/// INX: adds one to X with wraparound, updates Zero/Negative.
pub open spec fn spec_op_inx(cpu: Cpu) -> Cpu {
    let r = cpu.reg_x.wrapping_add(1);
    Cpu { reg_x: r, cpu_status: spec_update_zero_and_neg(cpu.cpu_status, r), ..cpu }
}

/// INY: adds one to Y with wraparound, updates Zero/Negative.
pub open spec fn spec_op_iny(cpu: Cpu) -> Cpu {
    let r = cpu.reg_y.wrapping_add(1);
    Cpu { reg_y: r, cpu_status: spec_update_zero_and_neg(cpu.cpu_status, r), ..cpu }
}

/// DEX: subtracts one from X with wraparound, updates Zero/Negative.
pub open spec fn spec_op_dex(cpu: Cpu) -> Cpu {
    let r = cpu.reg_x.wrapping_sub(1);
    Cpu { reg_x: r, cpu_status: spec_update_zero_and_neg(cpu.cpu_status, r), ..cpu }
}

/// DEY: subtracts one from Y with wraparound, updates Zero/Negative.
pub open spec fn spec_op_dey(cpu: Cpu) -> Cpu {
    let r = cpu.reg_y.wrapping_sub(1);
    Cpu { reg_y: r, cpu_status: spec_update_zero_and_neg(cpu.cpu_status, r), ..cpu }
}

impl Cpu {
    /// Increments memory.
    pub fn op_inc(&mut self, bus: &mut Bus, data_ref: u16)
        requires
            data_ref >= SRAM_START ==> old(bus).cart_ready(),
        ensures
            (*final(self), *final(bus)) == spec_op_inc(*old(self), *old(bus), data_ref),
    {
        let new_value = self.read_8bit(bus, data_ref).wrapping_add(1);
        self.write_8bit(bus, data_ref, new_value);
        update_zero_and_neg_flags(&mut self.cpu_status, new_value);
    }

    /// Increments register X.
    pub fn op_inx(&mut self)
        ensures
            *final(self) == spec_op_inx(*old(self)),
    {
        self.reg_x = self.reg_x.wrapping_add(1);
        update_zero_and_neg_flags(&mut self.cpu_status, self.reg_x);
    }

    /// Increments register Y.
    pub fn op_iny(&mut self)
        ensures
            *final(self) == spec_op_iny(*old(self)),
    {
        self.reg_y = self.reg_y.wrapping_add(1);
        update_zero_and_neg_flags(&mut self.cpu_status, self.reg_y);
    }

    /// Decrements memory.
    pub fn op_dec(&mut self, bus: &mut Bus, data_ref: u16)
        requires
            data_ref >= SRAM_START ==> old(bus).cart_ready(),
        ensures
            (*final(self), *final(bus)) == spec_op_dec(*old(self), *old(bus), data_ref),
    {
        let new_value = self.read_8bit(bus, data_ref).wrapping_sub(1);
        self.write_8bit(bus, data_ref, new_value);
        update_zero_and_neg_flags(&mut self.cpu_status, new_value);
    }

    /// Decrements register X.
    pub fn op_dex(&mut self)
        ensures
            *final(self) == spec_op_dex(*old(self)),
    {
        self.reg_x = self.reg_x.wrapping_sub(1);
        update_zero_and_neg_flags(&mut self.cpu_status, self.reg_x);
    }

    /// Decrements register Y.
    pub fn op_dey(&mut self)
        ensures
            *final(self) == spec_op_dey(*old(self)),
    {
        self.reg_y = self.reg_y.wrapping_sub(1);
        update_zero_and_neg_flags(&mut self.cpu_status, self.reg_y);
    }
}

} // verus!
