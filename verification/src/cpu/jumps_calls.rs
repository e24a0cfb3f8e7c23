//! Jump and call operations: JMP, JSR, RTS.

use vstd::prelude::*;

use crate::bus::Bus;
use crate::cpu::Cpu;
use crate::memory::{Memory, spec_stack_slot};

verus! {

/// JMP: sets the program counter to the resolved address.
pub open spec fn spec_op_jmp(cpu: Cpu, data: u16) -> Cpu {
    Cpu { program_counter: data, ..cpu }
}

/// JSR: pushes the address of the last byte of the call instruction (the
/// already-advanced program counter minus one, high byte first) and jumps.
pub open spec fn spec_op_jsr(cpu: Cpu, bus: Bus, data: u16) -> (Cpu, Bus) {
    let return_point = cpu.program_counter.wrapping_sub(1);
    let ram1 = vstd::array::spec_array_update(
        bus.memory.ram,
        spec_stack_slot(cpu.stack_pointer),
        (return_point / 256) as u8,
    );
    let ram2 = vstd::array::spec_array_update(
        ram1,
        spec_stack_slot(cpu.stack_pointer.wrapping_sub(1)),
        (return_point % 256) as u8,
    );
    (
        Cpu {
            program_counter: data,
            stack_pointer: cpu.stack_pointer.wrapping_sub(2),
            ..cpu
        },
        Bus { memory: Memory { ram: ram2, ..bus.memory }, ..bus },
    )
}

/// RTS: pulls the return point (low byte first) and resumes one byte past it.
pub open spec fn spec_op_rts(cpu: Cpu, bus: Bus) -> Cpu {
    let lo = bus.memory.ram@[spec_stack_slot(cpu.stack_pointer.wrapping_add(1))];
    let hi = bus.memory.ram@[spec_stack_slot(cpu.stack_pointer.wrapping_add(2))];
    Cpu {
        program_counter: (((lo + hi * 256) as u16)).wrapping_add(1),
        stack_pointer: cpu.stack_pointer.wrapping_add(2),
        ..cpu
    }
}

impl Cpu {
    /// Jump operation. Sets PC to the specified address.
    pub fn op_jmp(&mut self, data: u16)
        ensures
            *final(self) == spec_op_jmp(*old(self), data),
    {
        self.program_counter = data;
    }

    /// Jump to subroutine. Pushes the address (-1) of the return point on the
    /// stack and sets the PC to the target address.
    pub fn op_jsr(&mut self, bus: &mut Bus, data: u16)
        ensures
            (*final(self), *final(bus)) == spec_op_jsr(*old(self), *old(bus), data),
    {
        self.program_counter = self.program_counter.wrapping_sub(1);
        let return_point = self.program_counter;
        bus.memory_mut().stack_push_16bit(return_point, &mut self.stack_pointer);
        self.program_counter = data;
    }

    /// Return from subroutine. Pulls the PC (-1) from the stack and sets it
    /// (+1) as the actual PC.
    pub fn op_rts(&mut self, bus: &Bus)
        ensures
            *final(self) == spec_op_rts(*old(self), *bus),
    {
        self.program_counter = bus.memory().stack_pull_16bit(&mut self.stack_pointer);
        self.program_counter = self.program_counter.wrapping_add(1);
    }
}

} // verus!
