//! Shared flag helpers: pure bit twiddling on the 8-bit status register,
//! reused by every operation handler.

use vstd::prelude::*;

use crate::cpu::{NEGATIVE_FLAG, ZERO_FLAG};

verus! {

pub const NEGATIVE_FLAG_BIT: u8 = 0b1000_0000;
pub const ZERO_FLAG_BIT: u8 = 0b0000_0010;

/// The single-bit mask for a flag position.
pub open spec fn spec_flag_mask(flag: usize) -> u8 {
    if flag == 0 {
        0x01
    } else if flag == 1 {
        0x02
    } else if flag == 2 {
        0x04
    } else if flag == 3 {
        0x08
    } else if flag == 4 {
        0x10
    } else if flag == 5 {
        0x20
    } else if flag == 6 {
        0x40
    } else if flag == 7 {
        0x80
    } else {
        0
    }
}

/// Whether the given flag bit is set in a status byte.
pub open spec fn spec_is_flag_set(cpu_status: u8, flag: usize) -> bool {
    cpu_status & spec_flag_mask(flag) != 0
}

/// The status byte with one flag bit forced to the given value.
pub open spec fn spec_set_flag(cpu_status: u8, flag: usize, value: bool) -> u8 {
    if value {
        cpu_status | spec_flag_mask(flag)
    } else {
        cpu_status & !spec_flag_mask(flag)
    }
}

/// The shared rule applied after every load/arithmetic/logic/shift/increment/
/// decrement: Zero = (result == 0), Negative = (result's bit 7 set, that is,
/// result >= 0x80); all other flags keep their value.
pub open spec fn spec_update_zero_and_neg(cpu_status: u8, op_result: u8) -> u8 {
    spec_set_flag(
        spec_set_flag(cpu_status, ZERO_FLAG, op_result == 0),
        NEGATIVE_FLAG,
        op_result >= 0x80,
    )
}

/// The target byte with one bit replaced by the corresponding bit of the
/// source byte.
pub open spec fn spec_transfer_bit(transfer_to: u8, transfer_from: u8, bit_num: usize) -> u8 {
    spec_set_flag(transfer_to, bit_num, spec_is_flag_set(transfer_from, bit_num))
}

/// Reading a flag after writing one: the written flag has the written value,
/// every other flag is untouched.
pub proof fn lemma_flag_get_set(cpu_status: u8, flag: usize, other: usize, value: bool)
    by (bit_vector)
    requires
        flag < 8,
        other < 8,
    ensures
        spec_is_flag_set(spec_set_flag(cpu_status, flag, value), other) == (if other == flag {
            value
        } else {
            spec_is_flag_set(cpu_status, other)
        }),
{
}

/// The shared flag rule, read back: after the Zero/Negative update for a
/// result byte, the Zero flag holds exactly when the result is 0, the
/// Negative flag holds exactly when the result is at least 0x80, and every
/// other flag keeps its old value.
pub proof fn lemma_zero_and_neg_flags(cpu_status: u8, op_result: u8)
    ensures
        spec_is_flag_set(spec_update_zero_and_neg(cpu_status, op_result), ZERO_FLAG) == (op_result
            == 0),
        spec_is_flag_set(spec_update_zero_and_neg(cpu_status, op_result), NEGATIVE_FLAG) == (
        op_result >= 0x80),
        forall|flag: usize|
            flag < 8 && flag != ZERO_FLAG && flag != NEGATIVE_FLAG ==> #[trigger] spec_is_flag_set(
                spec_update_zero_and_neg(cpu_status, op_result),
                flag,
            ) == spec_is_flag_set(cpu_status, flag),
{
    let zeroed = spec_set_flag(cpu_status, ZERO_FLAG, op_result == 0);
    lemma_flag_get_set(zeroed, NEGATIVE_FLAG, ZERO_FLAG, op_result >= 0x80);
    lemma_flag_get_set(cpu_status, ZERO_FLAG, ZERO_FLAG, op_result == 0);
    lemma_flag_get_set(zeroed, NEGATIVE_FLAG, NEGATIVE_FLAG, op_result >= 0x80);
    assert forall|flag: usize|
        flag < 8 && flag != ZERO_FLAG && flag != NEGATIVE_FLAG implies #[trigger] spec_is_flag_set(
        spec_update_zero_and_neg(cpu_status, op_result),
        flag,
    ) == spec_is_flag_set(cpu_status, flag) by {
        lemma_flag_get_set(zeroed, NEGATIVE_FLAG, flag, op_result >= 0x80);
        lemma_flag_get_set(cpu_status, ZERO_FLAG, flag, op_result == 0);
    }
}

/// A computed single-bit mask equals the mask table entry.
proof fn lemma_shift_is_mask(flag: usize)
    by (bit_vector)
    requires
        flag < 8,
    ensures
        (0b0000_0001u8 << flag) == spec_flag_mask(flag),
        ((0b0000_0001u8 << flag) != 0),
{
}

#[inline(always)]
pub fn update_zero_and_neg_flags(cpu_status: &mut u8, op_result: u8)
    ensures
        *final(cpu_status) == spec_update_zero_and_neg(*old(cpu_status), op_result),
{
    proof {
        let st = *cpu_status;
        assert((((st & !NEGATIVE_FLAG_BIT) | (op_result & NEGATIVE_FLAG_BIT)) & !ZERO_FLAG_BIT)
            == (if op_result >= 0x80 {
                (st & !ZERO_FLAG_BIT) | NEGATIVE_FLAG_BIT
            } else {
                (st & !ZERO_FLAG_BIT) & !NEGATIVE_FLAG_BIT
            })) by (bit_vector);
    }
    if op_result == 0 {
        *cpu_status |= ZERO_FLAG_BIT;
        *cpu_status &= !NEGATIVE_FLAG_BIT;
    } else {
        *cpu_status = (*cpu_status & !NEGATIVE_FLAG_BIT) | (op_result & NEGATIVE_FLAG_BIT);
        *cpu_status &= !ZERO_FLAG_BIT;
    }
}

#[inline(always)]
pub fn is_flag_set(cpu_status: &u8, flag_to_check: usize) -> (r: bool)
    requires
        flag_to_check < 8,
    ensures
        r == spec_is_flag_set(*cpu_status, flag_to_check),
{
    proof {
        lemma_shift_is_mask(flag_to_check);
        let st = *cpu_status;
        let m = spec_flag_mask(flag_to_check);
        assert((st & m == m) == (st & m != 0)) by (bit_vector)
            requires
                m == spec_flag_mask(flag_to_check),
                flag_to_check < 8,
        ;
    }
    *cpu_status & (0b0000_0001 << flag_to_check) == (0b0000_0001 << flag_to_check)
}

#[inline(always)]
pub fn set_flag(cpu_status: &mut u8, flag_to_check: usize, is_one: bool)
    requires
        flag_to_check < 8,
    ensures
        *final(cpu_status) == spec_set_flag(*old(cpu_status), flag_to_check, is_one),
{
    proof {
        lemma_shift_is_mask(flag_to_check);
    }
    if is_one {
        *cpu_status |= 0b0000_0001 << flag_to_check
    } else {
        *cpu_status &= !(0b0000_0001 << flag_to_check)
    }
}

#[inline(always)]
pub fn transfer_bit(transfer_to: &mut u8, transfer_from: &u8, bit_num: usize)
    requires
        bit_num < 8,
    ensures
        *final(transfer_to) == spec_transfer_bit(*old(transfer_to), *transfer_from, bit_num),
{
    proof {
        lemma_shift_is_mask(bit_num);
        let to = *transfer_to;
        let from = *transfer_from;
        let m = spec_flag_mask(bit_num);
        assert(((to & !m) | (from & m)) == (if from & m != 0 {
            to | m
        } else {
            to & !m
        })) by (bit_vector)
            requires
                m == spec_flag_mask(bit_num),
                bit_num < 8,
        ;
    }
    let tr_bit = 0b0000_0001 << bit_num;
    *transfer_to = (*transfer_to & !tr_bit) | (*transfer_from & tr_bit);
}

} // verus!
