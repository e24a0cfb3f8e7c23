//! Branch operations: BCC, BCS, BEQ, BNE, BMI, BPL, BVC, BVS. The signed
//! 8-bit displacement is applied to the already-advanced program counter,
//! with wrapping arithmetic, only if the tested flag matches the
//! instruction's polarity.

use vstd::prelude::*;

use crate::bus::Bus;
use crate::cpu::{CARRY_FLAG, Cpu, NEGATIVE_FLAG, OVERFLOW_FLAG, ZERO_FLAG};
use crate::cpu::shared_ops::{is_flag_set, spec_is_flag_set};
use crate::memory::SRAM_START;

verus! {

/// The displacement byte read as a signed value.
pub open spec fn spec_signed_displacement(displacement: u8) -> int {
    if displacement < 0x80 {
        displacement as int
    } else {
        displacement - 0x100
    }
}

/// Where a taken branch lands: the program counter plus the signed
/// displacement, modulo 0x10000.
pub open spec fn spec_branch_target(program_counter: u16, displacement: u8) -> u16 {
    ((program_counter + spec_signed_displacement(displacement) + 0x10000) % 0x10000) as u16
}

/// A branch on `flag` with the given polarity: if the flag matches, the
/// displacement byte is fetched and applied to the program counter; otherwise
/// nothing happens at all (not even the fetch).
pub open spec fn spec_op_branch(cpu: Cpu, bus: Bus, data_ref: u16, flag: usize, polarity: bool) -> (
    Cpu,
    Bus,
) {
    if spec_is_flag_set(cpu.cpu_status, flag) == polarity {
        let displacement = bus.spec_cpu_read_value(data_ref);
        (
            Cpu {
                program_counter: spec_branch_target(cpu.program_counter, displacement),
                ..cpu
            },
            bus.spec_cpu_read_state(data_ref),
        )
    } else {
        (cpu, bus)
    }
}

/// Applying a signed 8-bit displacement by wrapping arithmetic equals the
/// modulo-0x10000 statement.
proof fn lemma_branch_target(program_counter: u16, displacement: u8)
    by (bit_vector)
    ensures
        program_counter.wrapping_add_signed((displacement as i8) as i16) == spec_branch_target(
            program_counter,
            displacement,
        ),
{
}

impl Cpu {
    /// Branch if carry flag set.
    pub fn op_bcs(&mut self, bus: &mut Bus, data_ref: u16)
        requires
            data_ref >= SRAM_START ==> old(bus).cart_ready(),
        ensures
            (*final(self), *final(bus)) == spec_op_branch(
                *old(self),
                *old(bus),
                data_ref,
                CARRY_FLAG,
                true,
            ),
    {
        if is_flag_set(&self.cpu_status, CARRY_FLAG) {
            let read_data = self.read_8bit(bus, data_ref);
            proof {
                lemma_branch_target(self.program_counter, read_data);
            }
            let relative_displacement = (read_data as i8) as i16;
            self.program_counter = self.program_counter.wrapping_add_signed(relative_displacement)
        }
    }

    /// Branch if carry flag clear.
    pub fn op_bcc(&mut self, bus: &mut Bus, data_ref: u16)
        requires
            data_ref >= SRAM_START ==> old(bus).cart_ready(),
        ensures
            (*final(self), *final(bus)) == spec_op_branch(
                *old(self),
                *old(bus),
                data_ref,
                CARRY_FLAG,
                false,
            ),
    {
        if !is_flag_set(&self.cpu_status, CARRY_FLAG) {
            let read_data = self.read_8bit(bus, data_ref);
            proof {
                lemma_branch_target(self.program_counter, read_data);
            }
            let relative_displacement = (read_data as i8) as i16;
            self.program_counter = self.program_counter.wrapping_add_signed(relative_displacement)
        }
    }

    /// Branch if zero flag set.
    pub fn op_beq(&mut self, bus: &mut Bus, data_ref: u16)
        requires
            data_ref >= SRAM_START ==> old(bus).cart_ready(),
        ensures
            (*final(self), *final(bus)) == spec_op_branch(
                *old(self),
                *old(bus),
                data_ref,
                ZERO_FLAG,
                true,
            ),
    {
        if is_flag_set(&self.cpu_status, ZERO_FLAG) {
            let read_data = self.read_8bit(bus, data_ref);
            proof {
                lemma_branch_target(self.program_counter, read_data);
            }
            let relative_displacement = (read_data as i8) as i16;
            self.program_counter = self.program_counter.wrapping_add_signed(relative_displacement)
        }
    }

    /// Branch if zero flag clear.
    pub fn op_bne(&mut self, bus: &mut Bus, data_ref: u16)
        requires
            data_ref >= SRAM_START ==> old(bus).cart_ready(),
        ensures
            (*final(self), *final(bus)) == spec_op_branch(
                *old(self),
                *old(bus),
                data_ref,
                ZERO_FLAG,
                false,
            ),
    {
        if !is_flag_set(&self.cpu_status, ZERO_FLAG) {
            let read_data = self.read_8bit(bus, data_ref);
            proof {
                lemma_branch_target(self.program_counter, read_data);
            }
            let relative_displacement = (read_data as i8) as i16;
            self.program_counter = self.program_counter.wrapping_add_signed(relative_displacement)
        }
    }

    /// Branch if negative flag set.
    pub fn op_bmi(&mut self, bus: &mut Bus, data_ref: u16)
        requires
            data_ref >= SRAM_START ==> old(bus).cart_ready(),
        ensures
            (*final(self), *final(bus)) == spec_op_branch(
                *old(self),
                *old(bus),
                data_ref,
                NEGATIVE_FLAG,
                true,
            ),
    {
        if is_flag_set(&self.cpu_status, NEGATIVE_FLAG) {
            let read_data = self.read_8bit(bus, data_ref);
            proof {
                lemma_branch_target(self.program_counter, read_data);
            }
            let relative_displacement = (read_data as i8) as i16;
            self.program_counter = self.program_counter.wrapping_add_signed(relative_displacement)
        }
    }

    /// Branch if negative flag clear.
    pub fn op_bpl(&mut self, bus: &mut Bus, data_ref: u16)
        requires
            data_ref >= SRAM_START ==> old(bus).cart_ready(),
        ensures
            (*final(self), *final(bus)) == spec_op_branch(
                *old(self),
                *old(bus),
                data_ref,
                NEGATIVE_FLAG,
                false,
            ),
    {
        if !is_flag_set(&self.cpu_status, NEGATIVE_FLAG) {
            let read_data = self.read_8bit(bus, data_ref);
            proof {
                lemma_branch_target(self.program_counter, read_data);
            }
            let relative_displacement = (read_data as i8) as i16;
            self.program_counter = self.program_counter.wrapping_add_signed(relative_displacement)
        }
    }

    /// Branch if overflow flag set.
    pub fn op_bvs(&mut self, bus: &mut Bus, data_ref: u16)
        requires
            data_ref >= SRAM_START ==> old(bus).cart_ready(),
        ensures
            (*final(self), *final(bus)) == spec_op_branch(
                *old(self),
                *old(bus),
                data_ref,
                OVERFLOW_FLAG,
                true,
            ),
    {
        if is_flag_set(&self.cpu_status, OVERFLOW_FLAG) {
            let read_data = self.read_8bit(bus, data_ref);
            proof {
                lemma_branch_target(self.program_counter, read_data);
            }
            let relative_displacement = (read_data as i8) as i16;
            self.program_counter = self.program_counter.wrapping_add_signed(relative_displacement)
        }
    }

    /// Branch if overflow flag clear.
    pub fn op_bvc(&mut self, bus: &mut Bus, data_ref: u16)
        requires
            data_ref >= SRAM_START ==> old(bus).cart_ready(),
        ensures
            (*final(self), *final(bus)) == spec_op_branch(
                *old(self),
                *old(bus),
                data_ref,
                OVERFLOW_FLAG,
                false,
            ),
    {
        if !is_flag_set(&self.cpu_status, OVERFLOW_FLAG) {
            let read_data = self.read_8bit(bus, data_ref);
            proof {
                lemma_branch_target(self.program_counter, read_data);
            }
            let relative_displacement = (read_data as i8) as i16;
            self.program_counter = self.program_counter.wrapping_add_signed(relative_displacement)
        }
    }
}

} // verus!
