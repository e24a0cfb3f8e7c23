//! Unofficial read-modify-write operations: DCP, ISC, RLA, RRA, SLO, SRE.
//! Each is a documented composition of two official operations and delegates
//! to the same official handlers to guarantee consistency.

use vstd::prelude::*;

use crate::bus::Bus;
use crate::cpu::{CARRY_FLAG, Cpu};
use crate::cpu::arithmetic::{spec_compare_status, spec_op_adc, spec_op_sbc};
use crate::cpu::logical::{spec_op_eor, spec_op_ora};
use crate::cpu::shared_ops::{set_flag, spec_update_zero_and_neg, update_zero_and_neg_flags};
use crate::cpu::shifts::{spec_op_asl, spec_op_lsr, spec_op_rol, spec_op_ror};
use crate::memory::SRAM_START;

verus! {

/// DCP: decrement memory (without borrow), then compare with A.
pub open spec fn spec_op_dcp(cpu: Cpu, bus: Bus, data_ref: u16) -> (Cpu, Bus) {
    let m = bus.spec_cpu_read_value(data_ref).wrapping_sub(1);
    let bus1 = bus.spec_cpu_read_state(data_ref).spec_cpu_write(data_ref, m);
    (
        Cpu { cpu_status: spec_compare_status(cpu.cpu_status, cpu.reg_a, m), ..cpu },
        bus1,
    )
}

/// ISC: increment memory (without carry), then SBC the new value.
pub open spec fn spec_op_isc(cpu: Cpu, bus: Bus, data_ref: u16) -> (Cpu, Bus) {
    let m = bus.spec_cpu_read_value(data_ref).wrapping_add(1);
    let bus1 = bus.spec_cpu_read_state(data_ref).spec_cpu_write(data_ref, m);
    spec_op_sbc(cpu, bus1, data_ref)
}

/// RLA: ROL the memory byte, then AND it into A.
pub open spec fn spec_op_rla(cpu: Cpu, bus: Bus, data_ref: u16) -> (Cpu, Bus) {
    let (cpu1, bus1) = spec_op_rol(cpu, bus, data_ref);
    let r = cpu1.reg_a & bus1.spec_cpu_read_value(data_ref);
    (
        Cpu { reg_a: r, cpu_status: spec_update_zero_and_neg(cpu1.cpu_status, r), ..cpu1 },
        bus1.spec_cpu_read_state(data_ref),
    )
}

/// RRA: ROR the memory byte, then ADC the new value.
pub open spec fn spec_op_rra(cpu: Cpu, bus: Bus, data_ref: u16) -> (Cpu, Bus) {
    let (cpu1, bus1) = spec_op_ror(cpu, bus, data_ref);
    spec_op_adc(cpu1, bus1, data_ref)
}

/// SLO: ASL the memory byte, then ORA the new value.
pub open spec fn spec_op_slo(cpu: Cpu, bus: Bus, data_ref: u16) -> (Cpu, Bus) {
    let (cpu1, bus1) = spec_op_asl(cpu, bus, data_ref);
    spec_op_ora(cpu1, bus1, data_ref)
}

/// SRE: LSR the memory byte, then EOR the new value.
pub open spec fn spec_op_sre(cpu: Cpu, bus: Bus, data_ref: u16) -> (Cpu, Bus) {
    let (cpu1, bus1) = spec_op_lsr(cpu, bus, data_ref);
    spec_op_eor(cpu1, bus1, data_ref)
}

impl Cpu {
    /// DCP / DCM operations; subtract 1 from memory (without borrow) then
    /// compare.
    pub fn op_dcp(&mut self, bus: &mut Bus, data_ref: u16)
        requires
            data_ref >= SRAM_START ==> old(bus).cart_ready(),
        ensures
            (*final(self), *final(bus)) == spec_op_dcp(*old(self), *old(bus), data_ref),
    {
        let read_data = self.read_8bit(bus, data_ref).wrapping_sub(1);
        self.write_8bit(bus, data_ref, read_data);
        set_flag(&mut self.cpu_status, CARRY_FLAG, self.reg_a >= read_data);
        let temp_res = self.reg_a.wrapping_sub(read_data);
        update_zero_and_neg_flags(&mut self.cpu_status, temp_res);
    }

    /// ISC / ISB / INS operations; add 1 to memory (without carry) then SBC.
    pub fn op_isc(&mut self, bus: &mut Bus, data_ref: u16)
        requires
            data_ref >= SRAM_START ==> old(bus).cart_ready(),
        ensures
            (*final(self), *final(bus)) == spec_op_isc(*old(self), *old(bus), data_ref),
    {
        let read_data = self.read_8bit(bus, data_ref).wrapping_add(1);
        self.write_8bit(bus, data_ref, read_data);
        self.op_sbc(bus, data_ref);
    }

    /// RLA operations; ROL and then AND.
    pub fn op_rla(&mut self, bus: &mut Bus, data_ref: u16)
        requires
            data_ref >= SRAM_START ==> old(bus).cart_ready(),
        ensures
            (*final(self), *final(bus)) == spec_op_rla(*old(self), *old(bus), data_ref),
    {
        self.op_rol(bus, data_ref);
        self.reg_a &= self.read_8bit(bus, data_ref);
        update_zero_and_neg_flags(&mut self.cpu_status, self.reg_a);
    }

    /// RRA operations; ROR and then ADC.
    pub fn op_rra(&mut self, bus: &mut Bus, data_ref: u16)
        requires
            data_ref >= SRAM_START ==> old(bus).cart_ready(),
        ensures
            (*final(self), *final(bus)) == spec_op_rra(*old(self), *old(bus), data_ref),
    {
        self.op_ror(bus, data_ref);
        self.op_adc(bus, data_ref);
    }

    /// SLO / ASO operations; ASL then ORA.
    pub fn op_slo(&mut self, bus: &mut Bus, data_ref: u16)
        requires
            data_ref >= SRAM_START ==> old(bus).cart_ready(),
        ensures
            (*final(self), *final(bus)) == spec_op_slo(*old(self), *old(bus), data_ref),
    {
        self.op_asl(bus, data_ref);
        self.op_ora(bus, data_ref);
    }

    /// SRE / LSE operations; LSR then EOR.
    pub fn op_sre(&mut self, bus: &mut Bus, data_ref: u16)
        requires
            data_ref >= SRAM_START ==> old(bus).cart_ready(),
        ensures
            (*final(self), *final(bus)) == spec_op_sre(*old(self), *old(bus), data_ref),
    {
        self.op_lsr(bus, data_ref);
        self.op_eor(bus, data_ref);
    }
}

} // verus!
