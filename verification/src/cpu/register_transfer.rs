//! Register transfer operations: TAX, TAY, TXA, TYA.

use vstd::prelude::*;

use crate::cpu::Cpu;
use crate::cpu::shared_ops::{spec_update_zero_and_neg, update_zero_and_neg_flags};

verus! {

/// TAX: copies A to X and updates Zero/Negative.
pub open spec fn spec_op_tax(cpu: Cpu) -> Cpu {
    Cpu {
        reg_x: cpu.reg_a,
        cpu_status: spec_update_zero_and_neg(cpu.cpu_status, cpu.reg_a),
        ..cpu
    }
}

/// TAY: copies A to Y and updates Zero/Negative.
pub open spec fn spec_op_tay(cpu: Cpu) -> Cpu {
    Cpu {
        reg_y: cpu.reg_a,
        cpu_status: spec_update_zero_and_neg(cpu.cpu_status, cpu.reg_a),
        ..cpu
    }
}

/// TXA: copies X to A and updates Zero/Negative.
pub open spec fn spec_op_txa(cpu: Cpu) -> Cpu {
    Cpu {
        reg_a: cpu.reg_x,
        cpu_status: spec_update_zero_and_neg(cpu.cpu_status, cpu.reg_x),
        ..cpu
    }
}

/// TYA: copies Y to A and updates Zero/Negative.
pub open spec fn spec_op_tya(cpu: Cpu) -> Cpu {
    Cpu {
        reg_a: cpu.reg_y,
        cpu_status: spec_update_zero_and_neg(cpu.cpu_status, cpu.reg_y),
        ..cpu
    }
}

impl Cpu {
    /// Transfers register A to register X.
    pub fn op_tax(&mut self)
        ensures
            *final(self) == spec_op_tax(*old(self)),
    {
        self.reg_x = self.reg_a;
        update_zero_and_neg_flags(&mut self.cpu_status, self.reg_x)
    }

    /// Transfers register A to register Y.
    pub fn op_tay(&mut self)
        ensures
            *final(self) == spec_op_tay(*old(self)),
    {
        self.reg_y = self.reg_a;
        update_zero_and_neg_flags(&mut self.cpu_status, self.reg_y)
    }

    /// Transfers register X to register A.
    pub fn op_txa(&mut self)
        ensures
            *final(self) == spec_op_txa(*old(self)),
    {
        self.reg_a = self.reg_x;
        update_zero_and_neg_flags(&mut self.cpu_status, self.reg_a)
    }

    /// Transfers register Y to register A.
    pub fn op_tya(&mut self)
        ensures
            *final(self) == spec_op_tya(*old(self)),
    {
        self.reg_a = self.reg_y;
        update_zero_and_neg_flags(&mut self.cpu_status, self.reg_a)
    }
}

} // verus!
