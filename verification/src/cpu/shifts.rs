//! Shift and rotate operations: ASL, LSR, ROL, ROR, on memory and on the
//! accumulator. Carry receives the bit shifted out; the rotates inject the
//! previous Carry into the vacated bit.

use vstd::prelude::*;

use crate::bus::Bus;
use crate::cpu::{CARRY_FLAG, Cpu};
use crate::cpu::shared_ops::{
    is_flag_set, set_flag, spec_is_flag_set, spec_set_flag, spec_update_zero_and_neg,
    update_zero_and_neg_flags,
};
use crate::memory::SRAM_START;

verus! {

/// The byte and carry an arithmetic shift left produces.
pub open spec fn spec_asl_result(m: u8) -> u8 {
    m << 1
}

/// The byte and carry a logical shift right produces.
pub open spec fn spec_lsr_result(m: u8) -> u8 {
    m >> 1
}

/// The byte a rotate left produces: shift left, old Carry into bit 0.
pub open spec fn spec_rol_result(m: u8, carry_in: bool) -> u8 {
    if carry_in {
        (m << 1) | 0b0000_0001
    } else {
        m << 1
    }
}

/// The byte a rotate right produces: shift right, old Carry into bit 7.
pub open spec fn spec_ror_result(m: u8, carry_in: bool) -> u8 {
    if carry_in {
        (m >> 1) | 0b1000_0000
    } else {
        m >> 1
    }
}

/// The status after a shift/rotate: Carry holds the bit shifted out,
/// Zero/Negative follow the result.
pub open spec fn spec_shift_status(cpu_status: u8, carry_out: bool, result: u8) -> u8 {
    spec_update_zero_and_neg(spec_set_flag(cpu_status, CARRY_FLAG, carry_out), result)
}

/// ASL on memory.
pub open spec fn spec_op_asl(cpu: Cpu, bus: Bus, data_ref: u16) -> (Cpu, Bus) {
    let m = bus.spec_cpu_read_value(data_ref);
    let bus1 = bus.spec_cpu_read_state(data_ref);
    let r = spec_asl_result(m);
    (
        Cpu {
            cpu_status: spec_shift_status(cpu.cpu_status, m & 0b1000_0000 == 0b1000_0000, r),
            ..cpu
        },
        bus1.spec_cpu_write(data_ref, r),
    )
}

/// ASL on the accumulator.
pub open spec fn spec_op_asl_acc(cpu: Cpu) -> Cpu {
    let r = spec_asl_result(cpu.reg_a);
    Cpu {
        reg_a: r,
        cpu_status: spec_shift_status(
            cpu.cpu_status,
            cpu.reg_a & 0b1000_0000 == 0b1000_0000,
            r,
        ),
        ..cpu
    }
}

/// LSR on memory.
pub open spec fn spec_op_lsr(cpu: Cpu, bus: Bus, data_ref: u16) -> (Cpu, Bus) {
    let m = bus.spec_cpu_read_value(data_ref);
    let bus1 = bus.spec_cpu_read_state(data_ref);
    let r = spec_lsr_result(m);
    (
        Cpu {
            cpu_status: spec_shift_status(cpu.cpu_status, m & 0b0000_0001 == 0b0000_0001, r),
            ..cpu
        },
        bus1.spec_cpu_write(data_ref, r),
    )
}

/// LSR on the accumulator.
pub open spec fn spec_op_lsr_acc(cpu: Cpu) -> Cpu {
    let r = spec_lsr_result(cpu.reg_a);
    Cpu {
        reg_a: r,
        cpu_status: spec_shift_status(
            cpu.cpu_status,
            cpu.reg_a & 0b0000_0001 == 0b0000_0001,
            r,
        ),
        ..cpu
    }
}

/// ROL on memory.
pub open spec fn spec_op_rol(cpu: Cpu, bus: Bus, data_ref: u16) -> (Cpu, Bus) {
    let carry_in = spec_is_flag_set(cpu.cpu_status, CARRY_FLAG);
    let m = bus.spec_cpu_read_value(data_ref);
    let bus1 = bus.spec_cpu_read_state(data_ref);
    let r = spec_rol_result(m, carry_in);
    (
        Cpu {
            cpu_status: spec_shift_status(cpu.cpu_status, m & 0b1000_0000 == 0b1000_0000, r),
            ..cpu
        },
        bus1.spec_cpu_write(data_ref, r),
    )
}

/// ROL on the accumulator.
pub open spec fn spec_op_rol_acc(cpu: Cpu) -> Cpu {
    let carry_in = spec_is_flag_set(cpu.cpu_status, CARRY_FLAG);
    let r = spec_rol_result(cpu.reg_a, carry_in);
    Cpu {
        reg_a: r,
        cpu_status: spec_shift_status(
            cpu.cpu_status,
            cpu.reg_a & 0b1000_0000 == 0b1000_0000,
            r,
        ),
        ..cpu
    }
}

/// ROR on memory.
pub open spec fn spec_op_ror(cpu: Cpu, bus: Bus, data_ref: u16) -> (Cpu, Bus) {
    let carry_in = spec_is_flag_set(cpu.cpu_status, CARRY_FLAG);
    let m = bus.spec_cpu_read_value(data_ref);
    let bus1 = bus.spec_cpu_read_state(data_ref);
    let r = spec_ror_result(m, carry_in);
    (
        Cpu {
            cpu_status: spec_shift_status(cpu.cpu_status, m & 0b0000_0001 == 0b0000_0001, r),
            ..cpu
        },
        bus1.spec_cpu_write(data_ref, r),
    )
}

/// ROR on the accumulator.
pub open spec fn spec_op_ror_acc(cpu: Cpu) -> Cpu {
    let carry_in = spec_is_flag_set(cpu.cpu_status, CARRY_FLAG);
    let r = spec_ror_result(cpu.reg_a, carry_in);
    Cpu {
        reg_a: r,
        cpu_status: spec_shift_status(
            cpu.cpu_status,
            cpu.reg_a & 0b0000_0001 == 0b0000_0001,
            r,
        ),
        ..cpu
    }
}

impl Cpu {
    /// Performs arithmetic shift left on memory.
    pub fn op_asl(&mut self, bus: &mut Bus, data_ref: u16)
        requires
            data_ref >= SRAM_START ==> old(bus).cart_ready(),
        ensures
            (*final(self), *final(bus)) == spec_op_asl(*old(self), *old(bus), data_ref),
    {
        let mut read_data = self.read_8bit(bus, data_ref);
        set_flag(&mut self.cpu_status, CARRY_FLAG, read_data & 0b1000_0000 == 0b1000_0000);
        read_data <<= 1;
        self.write_8bit(bus, data_ref, read_data);
        update_zero_and_neg_flags(&mut self.cpu_status, read_data)
    }

    /// Performs arithmetic shift left on accumulator.
    pub fn op_asl_acc(&mut self)
        ensures
            *final(self) == spec_op_asl_acc(*old(self)),
    {
        set_flag(&mut self.cpu_status, CARRY_FLAG, self.reg_a & 0b1000_0000 == 0b1000_0000);
        self.reg_a <<= 1;
        update_zero_and_neg_flags(&mut self.cpu_status, self.reg_a)
    }

    /// Logical shift right for memory.
    pub fn op_lsr(&mut self, bus: &mut Bus, data_ref: u16)
        requires
            data_ref >= SRAM_START ==> old(bus).cart_ready(),
        ensures
            (*final(self), *final(bus)) == spec_op_lsr(*old(self), *old(bus), data_ref),
    {
        let mut read_data = self.read_8bit(bus, data_ref);
        set_flag(&mut self.cpu_status, CARRY_FLAG, read_data & 0b0000_0001 == 0b0000_0001);
        read_data >>= 1;
        self.write_8bit(bus, data_ref, read_data);
        update_zero_and_neg_flags(&mut self.cpu_status, read_data)
    }

    /// Logical shift right for accumulator.
    pub fn op_lsr_acc(&mut self)
        ensures
            *final(self) == spec_op_lsr_acc(*old(self)),
    {
        set_flag(&mut self.cpu_status, CARRY_FLAG, self.reg_a & 0b0000_0001 == 0b0000_0001);
        self.reg_a >>= 1;
        update_zero_and_neg_flags(&mut self.cpu_status, self.reg_a)
    }

    /// Rotate left for memory.
    pub fn op_rol(&mut self, bus: &mut Bus, data_ref: u16)
        requires
            data_ref >= SRAM_START ==> old(bus).cart_ready(),
        ensures
            (*final(self), *final(bus)) == spec_op_rol(*old(self), *old(bus), data_ref),
    {
        let previous_carry_flag = is_flag_set(&self.cpu_status, CARRY_FLAG);
        let mut read_data = self.read_8bit(bus, data_ref);
        set_flag(&mut self.cpu_status, CARRY_FLAG, read_data & 0b1000_0000 == 0b1000_0000);
        read_data <<= 1;
        if previous_carry_flag {
            read_data |= 0b0000_0001;
        }
        self.write_8bit(bus, data_ref, read_data);
        update_zero_and_neg_flags(&mut self.cpu_status, read_data);
    }

    /// Rotate left for accumulator.
    pub fn op_rol_acc(&mut self)
        ensures
            *final(self) == spec_op_rol_acc(*old(self)),
    {
        let previous_carry_flag = is_flag_set(&self.cpu_status, CARRY_FLAG);
        set_flag(&mut self.cpu_status, CARRY_FLAG, self.reg_a & 0b1000_0000 == 0b1000_0000);
        self.reg_a <<= 1;
        if previous_carry_flag {
            self.reg_a |= 0b0000_0001;
        }
        update_zero_and_neg_flags(&mut self.cpu_status, self.reg_a);
    }

    /// Rotate right for memory.
    pub fn op_ror(&mut self, bus: &mut Bus, data_ref: u16)
        requires
            data_ref >= SRAM_START ==> old(bus).cart_ready(),
        ensures
            (*final(self), *final(bus)) == spec_op_ror(*old(self), *old(bus), data_ref),
    {
        let previous_carry_flag = is_flag_set(&self.cpu_status, CARRY_FLAG);
        let mut read_data = self.read_8bit(bus, data_ref);
        set_flag(&mut self.cpu_status, CARRY_FLAG, read_data & 0b0000_0001 == 0b0000_0001);
        read_data >>= 1;
        if previous_carry_flag {
            read_data |= 0b1000_0000;
        }
        self.write_8bit(bus, data_ref, read_data);
        update_zero_and_neg_flags(&mut self.cpu_status, read_data);
    }

    /// Rotate right for accumulator.
    pub fn op_ror_acc(&mut self)
        ensures
            *final(self) == spec_op_ror_acc(*old(self)),
    {
        let previous_carry_flag = is_flag_set(&self.cpu_status, CARRY_FLAG);
        set_flag(&mut self.cpu_status, CARRY_FLAG, self.reg_a & 0b0000_0001 == 0b0000_0001);
        self.reg_a >>= 1;
        if previous_carry_flag {
            self.reg_a |= 0b1000_0000;
        }
        update_zero_and_neg_flags(&mut self.cpu_status, self.reg_a);
    }
}

} // verus!
