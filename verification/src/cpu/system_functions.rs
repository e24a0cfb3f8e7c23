//! System functions: BRK, NOP, RTI.

use vstd::prelude::*;

use crate::bus::Bus;
use crate::cpu::{BREAK_FLAG, Cpu, spec_read16_value};
use crate::cpu::shared_ops::spec_set_flag;
use crate::cpu::stack_operations::UNUSED_FLAG_BIT;
use crate::memory::{Memory, spec_stack_slot};

verus! {

/// BRK: sets the Break flag, pushes the program counter (high byte first)
/// and then the status with the Unused bit forced to one, and loads the
/// program counter from the interrupt vector at 0xFFFE.
pub open spec fn spec_op_brk(cpu: Cpu, bus: Bus) -> (Cpu, Bus) {
    let status = spec_set_flag(cpu.cpu_status, BREAK_FLAG, true);
    let ram1 = vstd::array::spec_array_update(
        bus.memory.ram,
        spec_stack_slot(cpu.stack_pointer),
        (cpu.program_counter / 256) as u8,
    );
    let ram2 = vstd::array::spec_array_update(
        ram1,
        spec_stack_slot(cpu.stack_pointer.wrapping_sub(1)),
        (cpu.program_counter % 256) as u8,
    );
    let ram3 = vstd::array::spec_array_update(
        ram2,
        spec_stack_slot(cpu.stack_pointer.wrapping_sub(2)),
        status | UNUSED_FLAG_BIT,
    );
    let bus1 = Bus { memory: Memory { ram: ram3, ..bus.memory }, ..bus };
    (
        Cpu {
            cpu_status: status,
            stack_pointer: cpu.stack_pointer.wrapping_sub(3),
            program_counter: spec_read16_value(bus1, 0xFFFE),
            ..cpu
        },
        bus1,
    )
}

/// RTI: pulls the status (as pushed) and then the program counter.
pub open spec fn spec_op_rti(cpu: Cpu, bus: Bus) -> Cpu {
    let status = bus.memory.ram@[spec_stack_slot(cpu.stack_pointer.wrapping_add(1))];
    let lo = bus.memory.ram@[spec_stack_slot(cpu.stack_pointer.wrapping_add(2))];
    let hi = bus.memory.ram@[spec_stack_slot(cpu.stack_pointer.wrapping_add(3))];
    Cpu {
        cpu_status: status,
        program_counter: (lo + hi * 256) as u16,
        stack_pointer: cpu.stack_pointer.wrapping_add(3),
        ..cpu
    }
}

impl Cpu {
    /// Creates a forced interrupt.
    pub fn op_brk(&mut self, bus: &mut Bus)
        requires
            old(bus).cart_ready(),
        ensures
            (*final(self), *final(bus)) == spec_op_brk(*old(self), *old(bus)),
    {
        crate::cpu::shared_ops::set_flag(&mut self.cpu_status, BREAK_FLAG, true);
        let pc = self.program_counter;
        let status_to_push = self.cpu_status | UNUSED_FLAG_BIT;
        let mem = bus.memory_mut();
        mem.stack_push_16bit(pc, &mut self.stack_pointer);
        mem.stack_push_8bit(status_to_push, &mut self.stack_pointer);
        let target = self.read_16bit(bus, 0xFFFE);
        self.program_counter = target;
    }

    /// Does literally nothing outside the normal change of PC.
    pub fn op_nop(&mut self)
        ensures
            *final(self) == *old(self),
    {
    }

    /// Return from interrupt: pulls cpu status and pc from the stack.
    pub fn op_rti(&mut self, bus: &Bus)
        ensures
            *final(self) == spec_op_rti(*old(self), *bus),
    {
        self.cpu_status = bus.memory().stack_pull_8bit(&mut self.stack_pointer);
        self.program_counter = bus.memory().stack_pull_16bit(&mut self.stack_pointer);
    }
}

} // verus!
