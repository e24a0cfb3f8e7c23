//! Stack operations: TSX, TXS, PHA, PHP, PLA, PLP. Pushes write then
//! decrement the stack pointer, pulls increment then read; the pointer wraps
//! at 8 bits. PHP pushes the status with the Unused and Break bits forced to
//! one; PLP restores Unused to one and masks Break back off.

use vstd::prelude::*;

use crate::bus::Bus;
use crate::cpu::Cpu;
use crate::cpu::shared_ops::{spec_update_zero_and_neg, update_zero_and_neg_flags};
use crate::memory::{Memory, spec_stack_slot};

verus! {

pub const UNUSED_FLAG_BIT: u8 = 0b0010_0000;
pub const BREAK_FLAG_BIT: u8 = 0b0001_0000;
pub const BREAK_FLAG_REVERSED_BIT: u8 = 0b1110_1111;

/// The bus after one byte is pushed at the given stack pointer.
pub open spec fn spec_push_byte(bus: Bus, stack_pointer: u8, value: u8) -> Bus {
    Bus {
        memory: Memory {
            ram: vstd::array::spec_array_update(
                bus.memory.ram,
                spec_stack_slot(stack_pointer),
                value,
            ),
            ..bus.memory
        },
        ..bus
    }
}

/// TSX: copies the stack pointer to X and updates Zero/Negative.
pub open spec fn spec_op_tsx(cpu: Cpu) -> Cpu {
    Cpu {
        reg_x: cpu.stack_pointer,
        cpu_status: spec_update_zero_and_neg(cpu.cpu_status, cpu.stack_pointer),
        ..cpu
    }
}

/// TXS: copies X to the stack pointer; no flags change.
pub open spec fn spec_op_txs(cpu: Cpu) -> Cpu {
    Cpu { stack_pointer: cpu.reg_x, ..cpu }
}

/// PHA: pushes the accumulator.
pub open spec fn spec_op_pha(cpu: Cpu, bus: Bus) -> (Cpu, Bus) {
    (
        Cpu { stack_pointer: cpu.stack_pointer.wrapping_sub(1), ..cpu },
        spec_push_byte(bus, cpu.stack_pointer, cpu.reg_a),
    )
}

/// PHP: pushes the status with the Unused and Break bits forced to one.
pub open spec fn spec_op_php(cpu: Cpu, bus: Bus) -> (Cpu, Bus) {
    (
        Cpu { stack_pointer: cpu.stack_pointer.wrapping_sub(1), ..cpu },
        spec_push_byte(bus, cpu.stack_pointer, cpu.cpu_status | UNUSED_FLAG_BIT | BREAK_FLAG_BIT),
    )
}

/// PLA: pulls a byte into the accumulator and updates Zero/Negative.
pub open spec fn spec_op_pla(cpu: Cpu, bus: Bus) -> Cpu {
    let value = bus.memory.ram@[spec_stack_slot(cpu.stack_pointer.wrapping_add(1))];
    Cpu {
        reg_a: value,
        stack_pointer: cpu.stack_pointer.wrapping_add(1),
        cpu_status: spec_update_zero_and_neg(cpu.cpu_status, value),
        ..cpu
    }
}

/// PLP: pulls the status, restoring Unused to one and masking Break off.
pub open spec fn spec_op_plp(cpu: Cpu, bus: Bus) -> Cpu {
    let value = bus.memory.ram@[spec_stack_slot(cpu.stack_pointer.wrapping_add(1))];
    Cpu {
        stack_pointer: cpu.stack_pointer.wrapping_add(1),
        cpu_status: (value | UNUSED_FLAG_BIT) & BREAK_FLAG_REVERSED_BIT,
        ..cpu
    }
}

impl Cpu {
    /// Transfers stack pointer to register X.
    pub fn op_tsx(&mut self)
        ensures
            *final(self) == spec_op_tsx(*old(self)),
    {
        self.reg_x = self.stack_pointer;
        update_zero_and_neg_flags(&mut self.cpu_status, self.reg_x);
    }

    /// Transfers register X to stack pointer.
    pub fn op_txs(&mut self)
        ensures
            *final(self) == spec_op_txs(*old(self)),
    {
        self.stack_pointer = self.reg_x;
    }

    /// Pushes register A to stack.
    pub fn op_pha(&mut self, bus: &mut Bus)
        ensures
            (*final(self), *final(bus)) == spec_op_pha(*old(self), *old(bus)),
    {
        let value = self.reg_a;
        bus.memory_mut().stack_push_8bit(value, &mut self.stack_pointer)
    }

    /// Pushes cpu status to stack, with the Unused and Break bits forced.
    pub fn op_php(&mut self, bus: &mut Bus)
        ensures
            (*final(self), *final(bus)) == spec_op_php(*old(self), *old(bus)),
    {
        let value = self.cpu_status | UNUSED_FLAG_BIT | BREAK_FLAG_BIT;
        bus.memory_mut().stack_push_8bit(value, &mut self.stack_pointer);
    }

    /// Pulls actual stack value to register A.
    pub fn op_pla(&mut self, bus: &Bus)
        ensures
            *final(self) == spec_op_pla(*old(self), *bus),
    {
        self.reg_a = bus.memory().stack_pull_8bit(&mut self.stack_pointer);
        update_zero_and_neg_flags(&mut self.cpu_status, self.reg_a);
    }

    /// Pulls actual stack value to cpu status.
    pub fn op_plp(&mut self, bus: &Bus)
        ensures
            *final(self) == spec_op_plp(*old(self), *bus),
    {
        self.cpu_status = bus.memory().stack_pull_8bit(&mut self.stack_pointer) | UNUSED_FLAG_BIT;
        self.cpu_status &= BREAK_FLAG_REVERSED_BIT;
    }
}

} // verus!
