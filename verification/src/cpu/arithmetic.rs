//! Arithmetic operations: ADC, SBC, CMP, CPX, CPY. ADC adds the operand and
//! the carry-in to the accumulator modulo 256; SBC is ADC against the one's
//! complement of the operand (the standard borrow convention); the compares
//! compute register minus operand without storing it.

use vstd::prelude::*;

use crate::bus::Bus;
use crate::cpu::{CARRY_FLAG, Cpu, OVERFLOW_FLAG};
use crate::cpu::shared_ops::{
    is_flag_set, set_flag, spec_is_flag_set, spec_set_flag, spec_update_zero_and_neg,
    update_zero_and_neg_flags,
};
use crate::memory::SRAM_START;

verus! {

/// The accumulator after ADC: A + M + carry-in, modulo 256.
pub open spec fn spec_adc_result(a: u8, m: u8, carry_in: bool) -> u8 {
    ((a + m + (if carry_in {
        1int
    } else {
        0int
    })) % 256) as u8
}

/// ADC's carry-out: the unsigned sum exceeded 255.
pub open spec fn spec_adc_carry(a: u8, m: u8, carry_in: bool) -> bool {
    a + m + (if carry_in {
        1int
    } else {
        0int
    }) > 255
}

/// ADC's overflow: the operands shared a sign bit but the result's sign
/// differs, computed by the sign-bit trick.
pub open spec fn spec_adc_overflow(a: u8, m: u8, r: u8) -> bool {
    (a ^ r) & (m ^ r) & 0b1000_0000 != 0
}

/// The accumulator after SBC: ADC against the one's complement of the
/// operand, so A + (255 - M) + carry-in, modulo 256.
pub open spec fn spec_sbc_result(a: u8, m: u8, carry_in: bool) -> u8 {
    spec_adc_result(a, (255 - m) as u8, carry_in)
}

/// SBC's carry-out (no borrow happened).
pub open spec fn spec_sbc_carry(a: u8, m: u8, carry_in: bool) -> bool {
    spec_adc_carry(a, (255 - m) as u8, carry_in)
}

/// ADC: accumulator plus operand plus carry-in, with Carry, Overflow, Zero
/// and Negative updated.
pub open spec fn spec_op_adc(cpu: Cpu, bus: Bus, data_ref: u16) -> (Cpu, Bus) {
    let m = bus.spec_cpu_read_value(data_ref);
    let carry_in = spec_is_flag_set(cpu.cpu_status, CARRY_FLAG);
    let r = spec_adc_result(cpu.reg_a, m, carry_in);
    let st1 = spec_set_flag(cpu.cpu_status, OVERFLOW_FLAG, spec_adc_overflow(cpu.reg_a, m, r));
    let st2 = spec_set_flag(st1, CARRY_FLAG, spec_adc_carry(cpu.reg_a, m, carry_in));
    (
        Cpu { reg_a: r, cpu_status: spec_update_zero_and_neg(st2, r), ..cpu },
        bus.spec_cpu_read_state(data_ref),
    )
}

/// SBC: modelled as ADC of the complemented operand, with the same overflow
/// formula applied to the complemented operand.
pub open spec fn spec_op_sbc(cpu: Cpu, bus: Bus, data_ref: u16) -> (Cpu, Bus) {
    let m = bus.spec_cpu_read_value(data_ref);
    let carry_in = spec_is_flag_set(cpu.cpu_status, CARRY_FLAG);
    let r = spec_sbc_result(cpu.reg_a, m, carry_in);
    let st1 = spec_set_flag(
        cpu.cpu_status,
        OVERFLOW_FLAG,
        spec_adc_overflow(cpu.reg_a, (255 - m) as u8, r),
    );
    let st2 = spec_set_flag(st1, CARRY_FLAG, spec_sbc_carry(cpu.reg_a, m, carry_in));
    (
        Cpu { reg_a: r, cpu_status: spec_update_zero_and_neg(st2, r), ..cpu },
        bus.spec_cpu_read_state(data_ref),
    )
}

/// A compare: Carry = register >= operand, Zero/Negative from the difference;
/// nothing is stored.
pub open spec fn spec_compare_status(cpu_status: u8, register: u8, m: u8) -> u8 {
    spec_update_zero_and_neg(
        spec_set_flag(cpu_status, CARRY_FLAG, register >= m),
        register.wrapping_sub(m),
    )
}

/// CMP: compares the accumulator with memory.
pub open spec fn spec_op_cmp(cpu: Cpu, bus: Bus, data_ref: u16) -> (Cpu, Bus) {
    let m = bus.spec_cpu_read_value(data_ref);
    (
        Cpu { cpu_status: spec_compare_status(cpu.cpu_status, cpu.reg_a, m), ..cpu },
        bus.spec_cpu_read_state(data_ref),
    )
}

/// CPX: compares the X register with memory.
pub open spec fn spec_op_cpx(cpu: Cpu, bus: Bus, data_ref: u16) -> (Cpu, Bus) {
    let m = bus.spec_cpu_read_value(data_ref);
    (
        Cpu { cpu_status: spec_compare_status(cpu.cpu_status, cpu.reg_x, m), ..cpu },
        bus.spec_cpu_read_state(data_ref),
    )
}

/// CPY: compares the Y register with memory.
pub open spec fn spec_op_cpy(cpu: Cpu, bus: Bus, data_ref: u16) -> (Cpu, Bus) {
    let m = bus.spec_cpu_read_value(data_ref);
    (
        Cpu { cpu_status: spec_compare_status(cpu.cpu_status, cpu.reg_y, m), ..cpu },
        bus.spec_cpu_read_state(data_ref),
    )
}

/// Round trip through the carry chain: adding an operand with some carry-in
/// and then subtracting the same operand with the complementary carry-in
/// returns the accumulator to its original value, for every accumulator,
/// operand and carry-in.
pub proof fn lemma_adc_sbc_round_trip(a: u8, m: u8, carry_in: bool)
    ensures
        spec_sbc_result(spec_adc_result(a, m, carry_in), m, !carry_in) == a,
{
    let c: int = if carry_in {
        1int
    } else {
        0int
    };
    let sum = a + m + c;
    assert(spec_adc_result(a, m, carry_in) == sum % 256);
    assert(0 <= sum < 512);
    assert(sum % 256 == (if sum > 255 {
        sum - 256
    } else {
        sum
    }));
    let r1 = spec_adc_result(a, m, carry_in);
    let back = r1 + (255 - m) + (1 - c);
    assert(back == (if sum > 255 {
        a + 256 - 256
    } else {
        a + 256
    }));
    assert(back % 256 == a);
}

impl Cpu {
    /// Writes add with carry to reg A by formula A(reg) + M(emory) + C(arry).
    pub fn op_adc(&mut self, bus: &mut Bus, data_ref: u16)
        requires
            data_ref >= SRAM_START ==> old(bus).cart_ready(),
        ensures
            (*final(self), *final(bus)) == spec_op_adc(*old(self), *old(bus), data_ref),
    {
        let read_data = self.read_8bit(bus, data_ref);
        self.reg_a = if is_flag_set(&self.cpu_status, CARRY_FLAG) {
            let temp_val = self.reg_a.wrapping_add(read_data).wrapping_add(1);
            let over_fl_st = (self.reg_a ^ temp_val) & (read_data ^ temp_val) & 0b1000_0000 != 0;

            set_flag(&mut self.cpu_status, OVERFLOW_FLAG, over_fl_st);
            set_flag(&mut self.cpu_status, CARRY_FLAG, temp_val <= self.reg_a);
            temp_val
        } else {
            let temp_val = self.reg_a.wrapping_add(read_data);
            let over_fl_st = (self.reg_a ^ temp_val) & (read_data ^ temp_val) & 0b1000_0000 != 0;

            set_flag(&mut self.cpu_status, OVERFLOW_FLAG, over_fl_st);
            set_flag(&mut self.cpu_status, CARRY_FLAG, temp_val < self.reg_a);
            temp_val
        };

        update_zero_and_neg_flags(&mut self.cpu_status, self.reg_a);
    }

    /// Writes subtract with carry to reg A by formula A(reg) - M(emory) -
    /// (1 - C(arry)).
    pub fn op_sbc(&mut self, bus: &mut Bus, data_ref: u16)
        requires
            data_ref >= SRAM_START ==> old(bus).cart_ready(),
        ensures
            (*final(self), *final(bus)) == spec_op_sbc(*old(self), *old(bus), data_ref),
    {
        let read_data = self.read_8bit(bus, data_ref);
        self.reg_a = if is_flag_set(&self.cpu_status, CARRY_FLAG) {
            let temp_val = self.reg_a.wrapping_sub(read_data);
            let over_fl_st = (self.reg_a ^ temp_val) & ((0b1111_1111 - read_data) ^ temp_val)
                & 0b1000_0000 != 0;

            set_flag(&mut self.cpu_status, OVERFLOW_FLAG, over_fl_st);
            set_flag(&mut self.cpu_status, CARRY_FLAG, temp_val <= self.reg_a);
            temp_val
        } else {
            let temp_val = self.reg_a.wrapping_sub(read_data).wrapping_sub(1);
            let over_fl_st = (self.reg_a ^ temp_val) & ((0b1111_1111 - read_data) ^ temp_val)
                & 0b1000_0000 != 0;

            set_flag(&mut self.cpu_status, OVERFLOW_FLAG, over_fl_st);
            set_flag(&mut self.cpu_status, CARRY_FLAG, temp_val < self.reg_a);
            temp_val
        };

        update_zero_and_neg_flags(&mut self.cpu_status, self.reg_a);
    }

    /// Compares memory with register A, changes cpu status.
    pub fn op_cmp(&mut self, bus: &mut Bus, data_ref: u16)
        requires
            data_ref >= SRAM_START ==> old(bus).cart_ready(),
        ensures
            (*final(self), *final(bus)) == spec_op_cmp(*old(self), *old(bus), data_ref),
    {
        let read_data = self.read_8bit(bus, data_ref);
        set_flag(&mut self.cpu_status, CARRY_FLAG, self.reg_a >= read_data);
        let temp_res = self.reg_a.wrapping_sub(read_data);
        update_zero_and_neg_flags(&mut self.cpu_status, temp_res);
    }

    /// Compares memory with register X, changes cpu status.
    pub fn op_cpx(&mut self, bus: &mut Bus, data_ref: u16)
        requires
            data_ref >= SRAM_START ==> old(bus).cart_ready(),
        ensures
            (*final(self), *final(bus)) == spec_op_cpx(*old(self), *old(bus), data_ref),
    {
        let read_data = self.read_8bit(bus, data_ref);
        set_flag(&mut self.cpu_status, CARRY_FLAG, self.reg_x >= read_data);
        let temp_res = self.reg_x.wrapping_sub(read_data);
        update_zero_and_neg_flags(&mut self.cpu_status, temp_res);
    }

    /// Compares memory with register Y, changes cpu status.
    pub fn op_cpy(&mut self, bus: &mut Bus, data_ref: u16)
        requires
            data_ref >= SRAM_START ==> old(bus).cart_ready(),
        ensures
            (*final(self), *final(bus)) == spec_op_cpy(*old(self), *old(bus), data_ref),
    {
        let read_data = self.read_8bit(bus, data_ref);
        set_flag(&mut self.cpu_status, CARRY_FLAG, self.reg_y >= read_data);
        let temp_res = self.reg_y.wrapping_sub(read_data);
        update_zero_and_neg_flags(&mut self.cpu_status, temp_res);
    }
}

} // verus!
