//! Status flag changes: CLC, CLD, CLI, CLV, SEC, SED, SEI.

use vstd::prelude::*;

use crate::cpu::{CARRY_FLAG, Cpu, DECIMAL_FLAG, INTERRUPT_FLAG, OVERFLOW_FLAG};
use crate::cpu::shared_ops::{set_flag, spec_set_flag};

verus! {

/// A flag-change instruction: the named flag is forced to the given value,
/// nothing else moves.
pub open spec fn spec_op_flag_change(cpu: Cpu, flag: usize, value: bool) -> Cpu {
    Cpu { cpu_status: spec_set_flag(cpu.cpu_status, flag, value), ..cpu }
}

impl Cpu {
    /// Clear carry flag.
    pub fn op_clc(&mut self)
        ensures
            *final(self) == spec_op_flag_change(*old(self), CARRY_FLAG, false),
    {
        set_flag(&mut self.cpu_status, CARRY_FLAG, false)
    }

    /// Clear decimal flag.
    pub fn op_cld(&mut self)
        ensures
            *final(self) == spec_op_flag_change(*old(self), DECIMAL_FLAG, false),
    {
        set_flag(&mut self.cpu_status, DECIMAL_FLAG, false)
    }

    /// Clear interrupt flag.
    pub fn op_cli(&mut self)
        ensures
            *final(self) == spec_op_flag_change(*old(self), INTERRUPT_FLAG, false),
    {
        set_flag(&mut self.cpu_status, INTERRUPT_FLAG, false)
    }

    /// Clear overflow flag.
    pub fn op_clv(&mut self)
        ensures
            *final(self) == spec_op_flag_change(*old(self), OVERFLOW_FLAG, false),
    {
        set_flag(&mut self.cpu_status, OVERFLOW_FLAG, false)
    }

    /// Set carry flag.
    pub fn op_sec(&mut self)
        ensures
            *final(self) == spec_op_flag_change(*old(self), CARRY_FLAG, true),
    {
        set_flag(&mut self.cpu_status, CARRY_FLAG, true)
    }

    /// Set decimal flag.
    pub fn op_sed(&mut self)
        ensures
            *final(self) == spec_op_flag_change(*old(self), DECIMAL_FLAG, true),
    {
        set_flag(&mut self.cpu_status, DECIMAL_FLAG, true)
    }

    /// Set interrupt flag.
    pub fn op_sei(&mut self)
        ensures
            *final(self) == spec_op_flag_change(*old(self), INTERRUPT_FLAG, true),
    {
        set_flag(&mut self.cpu_status, INTERRUPT_FLAG, true)
    }
}

} // verus!
