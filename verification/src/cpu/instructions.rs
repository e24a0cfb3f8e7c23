//! Instruction table: a 256-entry, build-once lookup from opcode byte to a
//! descriptor carrying the operand length (through the operation-name arm),
//! base cycle cost, page-cross cycle bonus, addressing-mode tag and operation
//! tag. Unassigned slots hold the "invalid" sentinel (zero cycles, `NoOp`).

use vstd::prelude::*;

use crate::bus::Bus;
use crate::cpu::Cpu;
use crate::cpu::arithmetic::{spec_op_adc, spec_op_cmp, spec_op_cpx, spec_op_cpy, spec_op_sbc};
use crate::cpu::branches::spec_op_branch;
use crate::cpu::increment_decrement::{
    spec_op_dec, spec_op_dex, spec_op_dey, spec_op_inc, spec_op_inx, spec_op_iny,
};
use crate::cpu::jumps_calls::{spec_op_jmp, spec_op_jsr, spec_op_rts};
use crate::cpu::load_store::{
    spec_op_lda, spec_op_ldx, spec_op_ldy, spec_op_sta, spec_op_stx, spec_op_sty,
};
use crate::cpu::logical::{spec_op_and, spec_op_bit, spec_op_eor, spec_op_ora};
use crate::cpu::register_transfer::{spec_op_tax, spec_op_tay, spec_op_txa, spec_op_tya};
use crate::cpu::shifts::{
    spec_op_asl, spec_op_asl_acc, spec_op_lsr, spec_op_lsr_acc, spec_op_rol, spec_op_rol_acc,
    spec_op_ror, spec_op_ror_acc,
};
use crate::cpu::stack_operations::{
    spec_op_pha, spec_op_php, spec_op_pla, spec_op_plp, spec_op_tsx, spec_op_txs,
};
use crate::cpu::status_flag_changes::spec_op_flag_change;
use crate::cpu::system_functions::{spec_op_brk, spec_op_rti};
use crate::cpu::unofficial_combined::{
    spec_op_alr, spec_op_anc, spec_op_arr, spec_op_axs, spec_op_lax, spec_op_sax,
};
use crate::cpu::unofficial_other::{spec_op_shx, spec_op_shy, spec_op_stp};
use crate::cpu::unofficial_rmw::{
    spec_op_dcp, spec_op_isc, spec_op_rla, spec_op_rra, spec_op_slo, spec_op_sre,
};
use crate::cpu::{CARRY_FLAG, DECIMAL_FLAG, INTERRUPT_FLAG, NEGATIVE_FLAG, OVERFLOW_FLAG, ZERO_FLAG};
use crate::memory::{MemoryType, SRAM_START};

verus! {

/// Operation tags for one-byte instructions (opcode only).
#[derive(Debug, Clone, Copy, PartialEq, Eq, Structural)]
pub enum Inst1Byte {
    TAXop,
    TAYop,
    TXAop,
    TYAop,
    TSXop,
    TXSop,
    PHAop,
    PHPop,
    PLAop,
    PLPop,
    INXop,
    INYop,
    DEXop,
    DEYop,
    ASLop,
    LSRop,
    ROLop,
    RORop,
    RTSop,
    CLCop,
    CLDop,
    CLIop,
    CLVop,
    SECop,
    SEDop,
    SEIop,
    BRKop,
    NOPop,
    RTIop,
    STPop,
}

/// Operation tags for two-byte instructions (opcode plus one operand byte).
#[derive(Debug, Clone, Copy, PartialEq, Eq, Structural)]
pub enum Inst2Byte {
    LDAop,
    LDXop,
    LDYop,
    STAop,
    STXop,
    STYop,
    ANDop,
    EORop,
    ORAop,
    BITop,
    ADCop,
    SBCop,
    CMPop,
    CPXop,
    CPYop,
    INCop,
    DECop,
    ASLop,
    LSRop,
    ROLop,
    RORop,
    BCCop,
    BCSop,
    BEQop,
    BMIop,
    BNEop,
    BPLop,
    BVCop,
    BVSop,
    ALRop,
    ANCop,
    ARRop,
    AXSop,
    LAXop,
    SAXop,
    DCPop,
    ISCop,
    RLAop,
    RRAop,
    SLOop,
    SREop,
    NOPop,
}

/// Operation tags for three-byte instructions (opcode plus two operand bytes).
#[derive(Debug, Clone, Copy, PartialEq, Eq, Structural)]
pub enum Inst3Byte {
    LDAop,
    LDXop,
    LDYop,
    STAop,
    STXop,
    STYop,
    ANDop,
    EORop,
    ORAop,
    BITop,
    ADCop,
    SBCop,
    CMPop,
    CPXop,
    CPYop,
    INCop,
    DECop,
    ASLop,
    LSRop,
    ROLop,
    RORop,
    JMPop,
    JSRop,
    LAXop,
    SAXop,
    DCPop,
    ISCop,
    RLAop,
    RRAop,
    SLOop,
    SREop,
    SHXop,
    SHYop,
    NOPop,
}

/// Operation name together with its instruction byte length; `NoOp` is the
/// sentinel for unassigned opcode slots.
#[derive(Debug, Clone, Copy, PartialEq, Eq, Structural)]
pub enum CPUInstByte {
    One(Inst1Byte),
    Two(Inst2Byte),
    Three(Inst3Byte),
    NoOp,
}

impl CPUInstByte {
    /// The total instruction length in bytes; 0 for the sentinel.
    pub open spec fn spec_as_digit(&self) -> usize {
        match self {
            CPUInstByte::One(_) => 1,
            CPUInstByte::Two(_) => 2,
            CPUInstByte::Three(_) => 3,
            CPUInstByte::NoOp => 0,
        }
    }

    #[verifier::when_used_as_spec(spec_as_digit)]
    pub fn as_digit(&self) -> (r: usize)
        ensures
            r == self.spec_as_digit(),
    {
        match self {
            CPUInstByte::One(_) => 1,
            CPUInstByte::Two(_) => 2,
            CPUInstByte::Three(_) => 3,
            CPUInstByte::NoOp => 0,
        }
    }
}

/// One immutable instruction descriptor: base cycle cost, page-cross cycle
/// bonus, addressing-mode tag and operation tag.
#[derive(Debug, Clone, Copy, PartialEq, Eq, Structural)]
pub struct Operation {
    pub cycles: u8,
    pub cycles_pgcr: u8,
    pub memory_type: MemoryType,
    pub op_name: CPUInstByte,
}

impl Operation {
    pub fn cycles(&self) -> (r: u8)
        ensures
            r == self.cycles,
    {
        self.cycles
    }

    pub fn _cycles_pgcr(&self) -> (r: u8)
        ensures
            r == self.cycles_pgcr,
    {
        self.cycles_pgcr
    }

    pub fn memory_type(&self) -> (r: MemoryType)
        ensures
            r == self.memory_type,
    {
        self.memory_type
    }

    pub fn op_name(&self) -> (r: CPUInstByte)
        ensures
            r == self.op_name,
    {
        self.op_name
    }
}

impl Operation {
    /// Whether this descriptor is the "invalid opcode" sentinel.
    pub open spec fn spec_is_sentinel(&self) -> bool {
        self.cycles == 0 && self.op_name is NoOp
    }

    #[verifier::when_used_as_spec(spec_is_sentinel)]
    pub fn is_sentinel(&self) -> (r: bool)
        ensures
            r == self.spec_is_sentinel(),
    {
        self.cycles == 0 && matches!(self.op_name, CPUInstByte::NoOp)
    }

    fn new(cycles: u8, memory_type: MemoryType, op_name: CPUInstByte) -> (r: Operation)
        ensures
            r == (Operation { cycles, cycles_pgcr: 0, memory_type, op_name }),
    {
        Operation { cycles, cycles_pgcr: 0, memory_type, op_name }
    }

    fn set_cycles_page_crossed(&mut self, cycles_pgcr: u8)
        ensures
            *final(self) == (Operation { cycles_pgcr, ..*old(self) }),
    {
        self.cycles_pgcr = cycles_pgcr
    }
}

/// The number of assigned (non-sentinel) opcode slots: official opcodes plus
/// the commonly emulated unofficial ones.
pub const ASSIGNED_OPCODE_COUNT: usize = 249;

/// The descriptor held by every opcode slot that no instruction is assigned
/// to: the invalid sentinel.
pub open spec fn spec_sentinel_descriptor() -> Operation {
    Operation {
        cycles: 0,
        cycles_pgcr: 0,
        memory_type: MemoryType::Implied,
        op_name: CPUInstByte::NoOp,
    }
}

/// Whether the load and store group assigns the given opcode slot.
pub open spec fn spec_load_store_owns(opcode: int) -> bool {
    opcode == 0x81 || opcode == 0x84 || opcode == 0x85 || opcode == 0x86 || opcode == 0x8C ||
        opcode == 0x8D || opcode == 0x8E || opcode == 0x91 || opcode == 0x94 ||
        opcode == 0x95 || opcode == 0x96 || opcode == 0x99 || opcode == 0x9D ||
        opcode == 0xA0 || opcode == 0xA1 || opcode == 0xA2 || opcode == 0xA4 ||
        opcode == 0xA5 || opcode == 0xA6 || opcode == 0xA9 || opcode == 0xAC ||
        opcode == 0xAD || opcode == 0xAE || opcode == 0xB1 || opcode == 0xB4 ||
        opcode == 0xB5 || opcode == 0xB6 || opcode == 0xB9 || opcode == 0xBC ||
        opcode == 0xBD || opcode == 0xBE
}

/// The descriptor the load and store group assigns to each of its slots.
pub open spec fn spec_load_store_descriptor(opcode: int) -> Operation {
    if opcode == 0x81 {
        Operation { cycles: 6, cycles_pgcr: 0, memory_type: MemoryType::IndirectX, op_name: CPUInstByte::Two(Inst2Byte::STAop) }
    } else if opcode == 0x84 {
        Operation { cycles: 3, cycles_pgcr: 0, memory_type: MemoryType::ZeroPage, op_name: CPUInstByte::Two(Inst2Byte::STYop) }
    } else if opcode == 0x85 {
        Operation { cycles: 3, cycles_pgcr: 0, memory_type: MemoryType::ZeroPage, op_name: CPUInstByte::Two(Inst2Byte::STAop) }
    } else if opcode == 0x86 {
        Operation { cycles: 3, cycles_pgcr: 0, memory_type: MemoryType::ZeroPage, op_name: CPUInstByte::Two(Inst2Byte::STXop) }
    } else if opcode == 0x8C {
        Operation { cycles: 4, cycles_pgcr: 0, memory_type: MemoryType::Absolute, op_name: CPUInstByte::Three(Inst3Byte::STYop) }
    } else if opcode == 0x8D {
        Operation { cycles: 4, cycles_pgcr: 0, memory_type: MemoryType::Absolute, op_name: CPUInstByte::Three(Inst3Byte::STAop) }
    } else if opcode == 0x8E {
        Operation { cycles: 4, cycles_pgcr: 0, memory_type: MemoryType::Absolute, op_name: CPUInstByte::Three(Inst3Byte::STXop) }
    } else if opcode == 0x91 {
        Operation { cycles: 6, cycles_pgcr: 0, memory_type: MemoryType::IndirectY, op_name: CPUInstByte::Two(Inst2Byte::STAop) }
    } else if opcode == 0x94 {
        Operation { cycles: 4, cycles_pgcr: 0, memory_type: MemoryType::ZeroPageX, op_name: CPUInstByte::Two(Inst2Byte::STYop) }
    } else if opcode == 0x95 {
        Operation { cycles: 4, cycles_pgcr: 0, memory_type: MemoryType::ZeroPageX, op_name: CPUInstByte::Two(Inst2Byte::STAop) }
    } else if opcode == 0x96 {
        Operation { cycles: 4, cycles_pgcr: 0, memory_type: MemoryType::ZeroPageY, op_name: CPUInstByte::Two(Inst2Byte::STXop) }
    } else if opcode == 0x99 {
        Operation { cycles: 5, cycles_pgcr: 0, memory_type: MemoryType::AbsoluteY, op_name: CPUInstByte::Three(Inst3Byte::STAop) }
    } else if opcode == 0x9D {
        Operation { cycles: 5, cycles_pgcr: 0, memory_type: MemoryType::AbsoluteX, op_name: CPUInstByte::Three(Inst3Byte::STAop) }
    } else if opcode == 0xA0 {
        Operation { cycles: 2, cycles_pgcr: 0, memory_type: MemoryType::Immediate, op_name: CPUInstByte::Two(Inst2Byte::LDYop) }
    } else if opcode == 0xA1 {
        Operation { cycles: 6, cycles_pgcr: 0, memory_type: MemoryType::IndirectX, op_name: CPUInstByte::Two(Inst2Byte::LDAop) }
    } else if opcode == 0xA2 {
        Operation { cycles: 2, cycles_pgcr: 0, memory_type: MemoryType::Immediate, op_name: CPUInstByte::Two(Inst2Byte::LDXop) }
    } else if opcode == 0xA4 {
        Operation { cycles: 3, cycles_pgcr: 0, memory_type: MemoryType::ZeroPage, op_name: CPUInstByte::Two(Inst2Byte::LDYop) }
    } else if opcode == 0xA5 {
        Operation { cycles: 3, cycles_pgcr: 0, memory_type: MemoryType::ZeroPage, op_name: CPUInstByte::Two(Inst2Byte::LDAop) }
    } else if opcode == 0xA6 {
        Operation { cycles: 3, cycles_pgcr: 0, memory_type: MemoryType::ZeroPage, op_name: CPUInstByte::Two(Inst2Byte::LDXop) }
    } else if opcode == 0xA9 {
        Operation { cycles: 2, cycles_pgcr: 0, memory_type: MemoryType::Immediate, op_name: CPUInstByte::Two(Inst2Byte::LDAop) }
    } else if opcode == 0xAC {
        Operation { cycles: 4, cycles_pgcr: 0, memory_type: MemoryType::Absolute, op_name: CPUInstByte::Three(Inst3Byte::LDYop) }
    } else if opcode == 0xAD {
        Operation { cycles: 4, cycles_pgcr: 0, memory_type: MemoryType::Absolute, op_name: CPUInstByte::Three(Inst3Byte::LDAop) }
    } else if opcode == 0xAE {
        Operation { cycles: 4, cycles_pgcr: 0, memory_type: MemoryType::Absolute, op_name: CPUInstByte::Three(Inst3Byte::LDXop) }
    } else if opcode == 0xB1 {
        Operation { cycles: 5, cycles_pgcr: 1, memory_type: MemoryType::IndirectY, op_name: CPUInstByte::Two(Inst2Byte::LDAop) }
    } else if opcode == 0xB4 {
        Operation { cycles: 4, cycles_pgcr: 0, memory_type: MemoryType::ZeroPageX, op_name: CPUInstByte::Two(Inst2Byte::LDYop) }
    } else if opcode == 0xB5 {
        Operation { cycles: 4, cycles_pgcr: 0, memory_type: MemoryType::ZeroPageX, op_name: CPUInstByte::Two(Inst2Byte::LDAop) }
    } else if opcode == 0xB6 {
        Operation { cycles: 4, cycles_pgcr: 0, memory_type: MemoryType::ZeroPageY, op_name: CPUInstByte::Two(Inst2Byte::LDXop) }
    } else if opcode == 0xB9 {
        Operation { cycles: 4, cycles_pgcr: 1, memory_type: MemoryType::AbsoluteY, op_name: CPUInstByte::Three(Inst3Byte::LDAop) }
    } else if opcode == 0xBC {
        Operation { cycles: 4, cycles_pgcr: 1, memory_type: MemoryType::AbsoluteX, op_name: CPUInstByte::Three(Inst3Byte::LDYop) }
    } else if opcode == 0xBD {
        Operation { cycles: 4, cycles_pgcr: 1, memory_type: MemoryType::AbsoluteX, op_name: CPUInstByte::Three(Inst3Byte::LDAop) }
    } else if opcode == 0xBE {
        Operation { cycles: 4, cycles_pgcr: 1, memory_type: MemoryType::AbsoluteY, op_name: CPUInstByte::Three(Inst3Byte::LDXop) }
    } else {
        spec_sentinel_descriptor()
    }
}

/// Whether the register-transfer and stack group assigns the given opcode slot.
pub open spec fn spec_transfers_and_stack_owns(opcode: int) -> bool {
    opcode == 0x08 || opcode == 0x28 || opcode == 0x48 || opcode == 0x68 || opcode == 0x8A ||
        opcode == 0x98 || opcode == 0x9A || opcode == 0xA8 || opcode == 0xAA || opcode == 0xBA
}

/// The descriptor the register-transfer and stack group assigns to each of its slots.
pub open spec fn spec_transfers_and_stack_descriptor(opcode: int) -> Operation {
    if opcode == 0x08 {
        Operation { cycles: 3, cycles_pgcr: 0, memory_type: MemoryType::Implied, op_name: CPUInstByte::One(Inst1Byte::PHPop) }
    } else if opcode == 0x28 {
        Operation { cycles: 4, cycles_pgcr: 0, memory_type: MemoryType::Implied, op_name: CPUInstByte::One(Inst1Byte::PLPop) }
    } else if opcode == 0x48 {
        Operation { cycles: 3, cycles_pgcr: 0, memory_type: MemoryType::Implied, op_name: CPUInstByte::One(Inst1Byte::PHAop) }
    } else if opcode == 0x68 {
        Operation { cycles: 4, cycles_pgcr: 0, memory_type: MemoryType::Implied, op_name: CPUInstByte::One(Inst1Byte::PLAop) }
    } else if opcode == 0x8A {
        Operation { cycles: 2, cycles_pgcr: 0, memory_type: MemoryType::Implied, op_name: CPUInstByte::One(Inst1Byte::TXAop) }
    } else if opcode == 0x98 {
        Operation { cycles: 2, cycles_pgcr: 0, memory_type: MemoryType::Implied, op_name: CPUInstByte::One(Inst1Byte::TYAop) }
    } else if opcode == 0x9A {
        Operation { cycles: 2, cycles_pgcr: 0, memory_type: MemoryType::Implied, op_name: CPUInstByte::One(Inst1Byte::TXSop) }
    } else if opcode == 0xA8 {
        Operation { cycles: 2, cycles_pgcr: 0, memory_type: MemoryType::Implied, op_name: CPUInstByte::One(Inst1Byte::TAYop) }
    } else if opcode == 0xAA {
        Operation { cycles: 2, cycles_pgcr: 0, memory_type: MemoryType::Implied, op_name: CPUInstByte::One(Inst1Byte::TAXop) }
    } else if opcode == 0xBA {
        Operation { cycles: 2, cycles_pgcr: 0, memory_type: MemoryType::Implied, op_name: CPUInstByte::One(Inst1Byte::TSXop) }
    } else {
        spec_sentinel_descriptor()
    }
}

/// Whether the logical group assigns the given opcode slot.
pub open spec fn spec_logical_owns(opcode: int) -> bool {
    opcode == 0x01 || opcode == 0x05 || opcode == 0x09 || opcode == 0x0D || opcode == 0x11 ||
        opcode == 0x15 || opcode == 0x19 || opcode == 0x1D || opcode == 0x21 ||
        opcode == 0x24 || opcode == 0x25 || opcode == 0x29 || opcode == 0x2C ||
        opcode == 0x2D || opcode == 0x31 || opcode == 0x35 || opcode == 0x39 ||
        opcode == 0x3D || opcode == 0x41 || opcode == 0x45 || opcode == 0x49 ||
        opcode == 0x4D || opcode == 0x51 || opcode == 0x55 || opcode == 0x59 || opcode == 0x5D
}

/// The descriptor the logical group assigns to each of its slots.
pub open spec fn spec_logical_descriptor(opcode: int) -> Operation {
    if opcode == 0x01 {
        Operation { cycles: 6, cycles_pgcr: 0, memory_type: MemoryType::IndirectX, op_name: CPUInstByte::Two(Inst2Byte::ORAop) }
    } else if opcode == 0x05 {
        Operation { cycles: 3, cycles_pgcr: 0, memory_type: MemoryType::ZeroPage, op_name: CPUInstByte::Two(Inst2Byte::ORAop) }
    } else if opcode == 0x09 {
        Operation { cycles: 2, cycles_pgcr: 0, memory_type: MemoryType::Immediate, op_name: CPUInstByte::Two(Inst2Byte::ORAop) }
    } else if opcode == 0x0D {
        Operation { cycles: 4, cycles_pgcr: 0, memory_type: MemoryType::Absolute, op_name: CPUInstByte::Three(Inst3Byte::ORAop) }
    } else if opcode == 0x11 {
        Operation { cycles: 5, cycles_pgcr: 1, memory_type: MemoryType::IndirectY, op_name: CPUInstByte::Two(Inst2Byte::ORAop) }
    } else if opcode == 0x15 {
        Operation { cycles: 4, cycles_pgcr: 0, memory_type: MemoryType::ZeroPageX, op_name: CPUInstByte::Two(Inst2Byte::ORAop) }
    } else if opcode == 0x19 {
        Operation { cycles: 4, cycles_pgcr: 1, memory_type: MemoryType::AbsoluteY, op_name: CPUInstByte::Three(Inst3Byte::ORAop) }
    } else if opcode == 0x1D {
        Operation { cycles: 4, cycles_pgcr: 1, memory_type: MemoryType::AbsoluteX, op_name: CPUInstByte::Three(Inst3Byte::ORAop) }
    } else if opcode == 0x21 {
        Operation { cycles: 6, cycles_pgcr: 0, memory_type: MemoryType::IndirectX, op_name: CPUInstByte::Two(Inst2Byte::ANDop) }
    } else if opcode == 0x24 {
        Operation { cycles: 3, cycles_pgcr: 0, memory_type: MemoryType::ZeroPage, op_name: CPUInstByte::Two(Inst2Byte::BITop) }
    } else if opcode == 0x25 {
        Operation { cycles: 3, cycles_pgcr: 0, memory_type: MemoryType::ZeroPage, op_name: CPUInstByte::Two(Inst2Byte::ANDop) }
    } else if opcode == 0x29 {
        Operation { cycles: 2, cycles_pgcr: 0, memory_type: MemoryType::Immediate, op_name: CPUInstByte::Two(Inst2Byte::ANDop) }
    } else if opcode == 0x2C {
        Operation { cycles: 4, cycles_pgcr: 0, memory_type: MemoryType::Absolute, op_name: CPUInstByte::Three(Inst3Byte::BITop) }
    } else if opcode == 0x2D {
        Operation { cycles: 4, cycles_pgcr: 0, memory_type: MemoryType::Absolute, op_name: CPUInstByte::Three(Inst3Byte::ANDop) }
    } else if opcode == 0x31 {
        Operation { cycles: 5, cycles_pgcr: 1, memory_type: MemoryType::IndirectY, op_name: CPUInstByte::Two(Inst2Byte::ANDop) }
    } else if opcode == 0x35 {
        Operation { cycles: 4, cycles_pgcr: 0, memory_type: MemoryType::ZeroPageX, op_name: CPUInstByte::Two(Inst2Byte::ANDop) }
    } else if opcode == 0x39 {
        Operation { cycles: 4, cycles_pgcr: 1, memory_type: MemoryType::AbsoluteY, op_name: CPUInstByte::Three(Inst3Byte::ANDop) }
    } else if opcode == 0x3D {
        Operation { cycles: 4, cycles_pgcr: 1, memory_type: MemoryType::AbsoluteX, op_name: CPUInstByte::Three(Inst3Byte::ANDop) }
    } else if opcode == 0x41 {
        Operation { cycles: 6, cycles_pgcr: 0, memory_type: MemoryType::IndirectX, op_name: CPUInstByte::Two(Inst2Byte::EORop) }
    } else if opcode == 0x45 {
        Operation { cycles: 3, cycles_pgcr: 0, memory_type: MemoryType::ZeroPage, op_name: CPUInstByte::Two(Inst2Byte::EORop) }
    } else if opcode == 0x49 {
        Operation { cycles: 2, cycles_pgcr: 0, memory_type: MemoryType::Immediate, op_name: CPUInstByte::Two(Inst2Byte::EORop) }
    } else if opcode == 0x4D {
        Operation { cycles: 4, cycles_pgcr: 0, memory_type: MemoryType::Absolute, op_name: CPUInstByte::Three(Inst3Byte::EORop) }
    } else if opcode == 0x51 {
        Operation { cycles: 5, cycles_pgcr: 1, memory_type: MemoryType::IndirectY, op_name: CPUInstByte::Two(Inst2Byte::EORop) }
    } else if opcode == 0x55 {
        Operation { cycles: 4, cycles_pgcr: 0, memory_type: MemoryType::ZeroPageX, op_name: CPUInstByte::Two(Inst2Byte::EORop) }
    } else if opcode == 0x59 {
        Operation { cycles: 4, cycles_pgcr: 1, memory_type: MemoryType::AbsoluteY, op_name: CPUInstByte::Three(Inst3Byte::EORop) }
    } else if opcode == 0x5D {
        Operation { cycles: 4, cycles_pgcr: 1, memory_type: MemoryType::AbsoluteX, op_name: CPUInstByte::Three(Inst3Byte::EORop) }
    } else {
        spec_sentinel_descriptor()
    }
}

/// Whether the arithmetic group assigns the given opcode slot.
pub open spec fn spec_arithmetic_owns(opcode: int) -> bool {
    opcode == 0x61 || opcode == 0x65 || opcode == 0x69 || opcode == 0x6D || opcode == 0x71 ||
        opcode == 0x75 || opcode == 0x79 || opcode == 0x7D || opcode == 0xC0 ||
        opcode == 0xC1 || opcode == 0xC4 || opcode == 0xC5 || opcode == 0xC9 ||
        opcode == 0xCC || opcode == 0xCD || opcode == 0xD1 || opcode == 0xD5 ||
        opcode == 0xD9 || opcode == 0xDD || opcode == 0xE0 || opcode == 0xE1 ||
        opcode == 0xE4 || opcode == 0xE5 || opcode == 0xE9 || opcode == 0xEC ||
        opcode == 0xED || opcode == 0xF1 || opcode == 0xF5 || opcode == 0xF9 || opcode == 0xFD
}

/// The descriptor the arithmetic group assigns to each of its slots.
pub open spec fn spec_arithmetic_descriptor(opcode: int) -> Operation {
    if opcode == 0x61 {
        Operation { cycles: 6, cycles_pgcr: 0, memory_type: MemoryType::IndirectX, op_name: CPUInstByte::Two(Inst2Byte::ADCop) }
    } else if opcode == 0x65 {
        Operation { cycles: 3, cycles_pgcr: 0, memory_type: MemoryType::ZeroPage, op_name: CPUInstByte::Two(Inst2Byte::ADCop) }
    } else if opcode == 0x69 {
        Operation { cycles: 2, cycles_pgcr: 0, memory_type: MemoryType::Immediate, op_name: CPUInstByte::Two(Inst2Byte::ADCop) }
    } else if opcode == 0x6D {
        Operation { cycles: 4, cycles_pgcr: 0, memory_type: MemoryType::Absolute, op_name: CPUInstByte::Three(Inst3Byte::ADCop) }
    } else if opcode == 0x71 {
        Operation { cycles: 5, cycles_pgcr: 1, memory_type: MemoryType::IndirectY, op_name: CPUInstByte::Two(Inst2Byte::ADCop) }
    } else if opcode == 0x75 {
        Operation { cycles: 4, cycles_pgcr: 0, memory_type: MemoryType::ZeroPageX, op_name: CPUInstByte::Two(Inst2Byte::ADCop) }
    } else if opcode == 0x79 {
        Operation { cycles: 4, cycles_pgcr: 1, memory_type: MemoryType::AbsoluteY, op_name: CPUInstByte::Three(Inst3Byte::ADCop) }
    } else if opcode == 0x7D {
        Operation { cycles: 4, cycles_pgcr: 1, memory_type: MemoryType::AbsoluteX, op_name: CPUInstByte::Three(Inst3Byte::ADCop) }
    } else if opcode == 0xC0 {
        Operation { cycles: 2, cycles_pgcr: 0, memory_type: MemoryType::Immediate, op_name: CPUInstByte::Two(Inst2Byte::CPYop) }
    } else if opcode == 0xC1 {
        Operation { cycles: 6, cycles_pgcr: 0, memory_type: MemoryType::IndirectX, op_name: CPUInstByte::Two(Inst2Byte::CMPop) }
    } else if opcode == 0xC4 {
        Operation { cycles: 3, cycles_pgcr: 0, memory_type: MemoryType::ZeroPage, op_name: CPUInstByte::Two(Inst2Byte::CPYop) }
    } else if opcode == 0xC5 {
        Operation { cycles: 3, cycles_pgcr: 0, memory_type: MemoryType::ZeroPage, op_name: CPUInstByte::Two(Inst2Byte::CMPop) }
    } else if opcode == 0xC9 {
        Operation { cycles: 2, cycles_pgcr: 0, memory_type: MemoryType::Immediate, op_name: CPUInstByte::Two(Inst2Byte::CMPop) }
    } else if opcode == 0xCC {
        Operation { cycles: 4, cycles_pgcr: 0, memory_type: MemoryType::Absolute, op_name: CPUInstByte::Three(Inst3Byte::CPYop) }
    } else if opcode == 0xCD {
        Operation { cycles: 4, cycles_pgcr: 0, memory_type: MemoryType::Absolute, op_name: CPUInstByte::Three(Inst3Byte::CMPop) }
    } else if opcode == 0xD1 {
        Operation { cycles: 5, cycles_pgcr: 1, memory_type: MemoryType::IndirectY, op_name: CPUInstByte::Two(Inst2Byte::CMPop) }
    } else if opcode == 0xD5 {
        Operation { cycles: 4, cycles_pgcr: 0, memory_type: MemoryType::ZeroPageX, op_name: CPUInstByte::Two(Inst2Byte::CMPop) }
    } else if opcode == 0xD9 {
        Operation { cycles: 4, cycles_pgcr: 1, memory_type: MemoryType::AbsoluteY, op_name: CPUInstByte::Three(Inst3Byte::CMPop) }
    } else if opcode == 0xDD {
        Operation { cycles: 4, cycles_pgcr: 1, memory_type: MemoryType::AbsoluteX, op_name: CPUInstByte::Three(Inst3Byte::CMPop) }
    } else if opcode == 0xE0 {
        Operation { cycles: 2, cycles_pgcr: 0, memory_type: MemoryType::Immediate, op_name: CPUInstByte::Two(Inst2Byte::CPXop) }
    } else if opcode == 0xE1 {
        Operation { cycles: 6, cycles_pgcr: 0, memory_type: MemoryType::IndirectX, op_name: CPUInstByte::Two(Inst2Byte::SBCop) }
    } else if opcode == 0xE4 {
        Operation { cycles: 3, cycles_pgcr: 0, memory_type: MemoryType::ZeroPage, op_name: CPUInstByte::Two(Inst2Byte::CPXop) }
    } else if opcode == 0xE5 {
        Operation { cycles: 3, cycles_pgcr: 0, memory_type: MemoryType::ZeroPage, op_name: CPUInstByte::Two(Inst2Byte::SBCop) }
    } else if opcode == 0xE9 {
        Operation { cycles: 2, cycles_pgcr: 0, memory_type: MemoryType::Immediate, op_name: CPUInstByte::Two(Inst2Byte::SBCop) }
    } else if opcode == 0xEC {
        Operation { cycles: 4, cycles_pgcr: 0, memory_type: MemoryType::Absolute, op_name: CPUInstByte::Three(Inst3Byte::CPXop) }
    } else if opcode == 0xED {
        Operation { cycles: 4, cycles_pgcr: 0, memory_type: MemoryType::Absolute, op_name: CPUInstByte::Three(Inst3Byte::SBCop) }
    } else if opcode == 0xF1 {
        Operation { cycles: 5, cycles_pgcr: 1, memory_type: MemoryType::IndirectY, op_name: CPUInstByte::Two(Inst2Byte::SBCop) }
    } else if opcode == 0xF5 {
        Operation { cycles: 4, cycles_pgcr: 0, memory_type: MemoryType::ZeroPageX, op_name: CPUInstByte::Two(Inst2Byte::SBCop) }
    } else if opcode == 0xF9 {
        Operation { cycles: 4, cycles_pgcr: 1, memory_type: MemoryType::AbsoluteY, op_name: CPUInstByte::Three(Inst3Byte::SBCop) }
    } else if opcode == 0xFD {
        Operation { cycles: 4, cycles_pgcr: 1, memory_type: MemoryType::AbsoluteX, op_name: CPUInstByte::Three(Inst3Byte::SBCop) }
    } else {
        spec_sentinel_descriptor()
    }
}

/// Whether the increment and decrement group assigns the given opcode slot.
pub open spec fn spec_increment_decrement_owns(opcode: int) -> bool {
    opcode == 0x88 || opcode == 0xC6 || opcode == 0xC8 || opcode == 0xCA || opcode == 0xCE ||
        opcode == 0xD6 || opcode == 0xDE || opcode == 0xE6 || opcode == 0xE8 ||
        opcode == 0xEE || opcode == 0xF6 || opcode == 0xFE
}

/// The descriptor the increment and decrement group assigns to each of its slots.
pub open spec fn spec_increment_decrement_descriptor(opcode: int) -> Operation {
    if opcode == 0x88 {
        Operation { cycles: 2, cycles_pgcr: 0, memory_type: MemoryType::Implied, op_name: CPUInstByte::One(Inst1Byte::DEYop) }
    } else if opcode == 0xC6 {
        Operation { cycles: 5, cycles_pgcr: 0, memory_type: MemoryType::ZeroPage, op_name: CPUInstByte::Two(Inst2Byte::DECop) }
    } else if opcode == 0xC8 {
        Operation { cycles: 2, cycles_pgcr: 0, memory_type: MemoryType::Implied, op_name: CPUInstByte::One(Inst1Byte::INYop) }
    } else if opcode == 0xCA {
        Operation { cycles: 2, cycles_pgcr: 0, memory_type: MemoryType::Implied, op_name: CPUInstByte::One(Inst1Byte::DEXop) }
    } else if opcode == 0xCE {
        Operation { cycles: 6, cycles_pgcr: 0, memory_type: MemoryType::Absolute, op_name: CPUInstByte::Three(Inst3Byte::DECop) }
    } else if opcode == 0xD6 {
        Operation { cycles: 6, cycles_pgcr: 0, memory_type: MemoryType::ZeroPageX, op_name: CPUInstByte::Two(Inst2Byte::DECop) }
    } else if opcode == 0xDE {
        Operation { cycles: 7, cycles_pgcr: 0, memory_type: MemoryType::AbsoluteX, op_name: CPUInstByte::Three(Inst3Byte::DECop) }
    } else if opcode == 0xE6 {
        Operation { cycles: 5, cycles_pgcr: 0, memory_type: MemoryType::ZeroPage, op_name: CPUInstByte::Two(Inst2Byte::INCop) }
    } else if opcode == 0xE8 {
        Operation { cycles: 2, cycles_pgcr: 0, memory_type: MemoryType::Implied, op_name: CPUInstByte::One(Inst1Byte::INXop) }
    } else if opcode == 0xEE {
        Operation { cycles: 6, cycles_pgcr: 0, memory_type: MemoryType::Absolute, op_name: CPUInstByte::Three(Inst3Byte::INCop) }
    } else if opcode == 0xF6 {
        Operation { cycles: 6, cycles_pgcr: 0, memory_type: MemoryType::ZeroPageX, op_name: CPUInstByte::Two(Inst2Byte::INCop) }
    } else if opcode == 0xFE {
        Operation { cycles: 7, cycles_pgcr: 0, memory_type: MemoryType::AbsoluteX, op_name: CPUInstByte::Three(Inst3Byte::INCop) }
    } else {
        spec_sentinel_descriptor()
    }
}

/// Whether the shift and rotate group assigns the given opcode slot.
pub open spec fn spec_shifts_owns(opcode: int) -> bool {
    opcode == 0x06 || opcode == 0x0A || opcode == 0x0E || opcode == 0x16 || opcode == 0x1E ||
        opcode == 0x26 || opcode == 0x2A || opcode == 0x2E || opcode == 0x36 ||
        opcode == 0x3E || opcode == 0x46 || opcode == 0x4A || opcode == 0x4E ||
        opcode == 0x56 || opcode == 0x5E || opcode == 0x66 || opcode == 0x6A ||
        opcode == 0x6E || opcode == 0x76 || opcode == 0x7E
}

/// The descriptor the shift and rotate group assigns to each of its slots.
pub open spec fn spec_shifts_descriptor(opcode: int) -> Operation {
    if opcode == 0x06 {
        Operation { cycles: 5, cycles_pgcr: 0, memory_type: MemoryType::ZeroPage, op_name: CPUInstByte::Two(Inst2Byte::ASLop) }
    } else if opcode == 0x0A {
        Operation { cycles: 2, cycles_pgcr: 0, memory_type: MemoryType::Accumulator, op_name: CPUInstByte::One(Inst1Byte::ASLop) }
    } else if opcode == 0x0E {
        Operation { cycles: 6, cycles_pgcr: 0, memory_type: MemoryType::Absolute, op_name: CPUInstByte::Three(Inst3Byte::ASLop) }
    } else if opcode == 0x16 {
        Operation { cycles: 6, cycles_pgcr: 0, memory_type: MemoryType::ZeroPageX, op_name: CPUInstByte::Two(Inst2Byte::ASLop) }
    } else if opcode == 0x1E {
        Operation { cycles: 7, cycles_pgcr: 0, memory_type: MemoryType::AbsoluteX, op_name: CPUInstByte::Three(Inst3Byte::ASLop) }
    } else if opcode == 0x26 {
        Operation { cycles: 5, cycles_pgcr: 0, memory_type: MemoryType::ZeroPage, op_name: CPUInstByte::Two(Inst2Byte::ROLop) }
    } else if opcode == 0x2A {
        Operation { cycles: 2, cycles_pgcr: 0, memory_type: MemoryType::Accumulator, op_name: CPUInstByte::One(Inst1Byte::ROLop) }
    } else if opcode == 0x2E {
        Operation { cycles: 6, cycles_pgcr: 0, memory_type: MemoryType::Absolute, op_name: CPUInstByte::Three(Inst3Byte::ROLop) }
    } else if opcode == 0x36 {
        Operation { cycles: 6, cycles_pgcr: 0, memory_type: MemoryType::ZeroPageX, op_name: CPUInstByte::Two(Inst2Byte::ROLop) }
    } else if opcode == 0x3E {
        Operation { cycles: 7, cycles_pgcr: 0, memory_type: MemoryType::AbsoluteX, op_name: CPUInstByte::Three(Inst3Byte::ROLop) }
    } else if opcode == 0x46 {
        Operation { cycles: 5, cycles_pgcr: 0, memory_type: MemoryType::ZeroPage, op_name: CPUInstByte::Two(Inst2Byte::LSRop) }
    } else if opcode == 0x4A {
        Operation { cycles: 2, cycles_pgcr: 0, memory_type: MemoryType::Accumulator, op_name: CPUInstByte::One(Inst1Byte::LSRop) }
    } else if opcode == 0x4E {
        Operation { cycles: 6, cycles_pgcr: 0, memory_type: MemoryType::Absolute, op_name: CPUInstByte::Three(Inst3Byte::LSRop) }
    } else if opcode == 0x56 {
        Operation { cycles: 6, cycles_pgcr: 0, memory_type: MemoryType::ZeroPageX, op_name: CPUInstByte::Two(Inst2Byte::LSRop) }
    } else if opcode == 0x5E {
        Operation { cycles: 7, cycles_pgcr: 0, memory_type: MemoryType::AbsoluteX, op_name: CPUInstByte::Three(Inst3Byte::LSRop) }
    } else if opcode == 0x66 {
        Operation { cycles: 5, cycles_pgcr: 0, memory_type: MemoryType::ZeroPage, op_name: CPUInstByte::Two(Inst2Byte::RORop) }
    } else if opcode == 0x6A {
        Operation { cycles: 2, cycles_pgcr: 0, memory_type: MemoryType::Accumulator, op_name: CPUInstByte::One(Inst1Byte::RORop) }
    } else if opcode == 0x6E {
        Operation { cycles: 6, cycles_pgcr: 0, memory_type: MemoryType::Absolute, op_name: CPUInstByte::Three(Inst3Byte::RORop) }
    } else if opcode == 0x76 {
        Operation { cycles: 6, cycles_pgcr: 0, memory_type: MemoryType::ZeroPageX, op_name: CPUInstByte::Two(Inst2Byte::RORop) }
    } else if opcode == 0x7E {
        Operation { cycles: 7, cycles_pgcr: 0, memory_type: MemoryType::AbsoluteX, op_name: CPUInstByte::Three(Inst3Byte::RORop) }
    } else {
        spec_sentinel_descriptor()
    }
}

/// Whether the jump, branch, flag-change and system group assigns the given opcode slot.
pub open spec fn spec_jumps_branches_flags_system_owns(opcode: int) -> bool {
    opcode == 0x00 || opcode == 0x10 || opcode == 0x18 || opcode == 0x20 || opcode == 0x30 ||
        opcode == 0x38 || opcode == 0x40 || opcode == 0x4C || opcode == 0x50 ||
        opcode == 0x58 || opcode == 0x60 || opcode == 0x6C || opcode == 0x70 ||
        opcode == 0x78 || opcode == 0x90 || opcode == 0xB0 || opcode == 0xB8 ||
        opcode == 0xD0 || opcode == 0xD8 || opcode == 0xEA || opcode == 0xF0 || opcode == 0xF8
}

/// The descriptor the jump, branch, flag-change and system group assigns to each of its slots.
pub open spec fn spec_jumps_branches_flags_system_descriptor(opcode: int) -> Operation {
    if opcode == 0x00 {
        Operation { cycles: 7, cycles_pgcr: 0, memory_type: MemoryType::Implied, op_name: CPUInstByte::One(Inst1Byte::BRKop) }
    } else if opcode == 0x10 {
        Operation { cycles: 2, cycles_pgcr: 0, memory_type: MemoryType::Relative, op_name: CPUInstByte::Two(Inst2Byte::BPLop) }
    } else if opcode == 0x18 {
        Operation { cycles: 2, cycles_pgcr: 0, memory_type: MemoryType::Implied, op_name: CPUInstByte::One(Inst1Byte::CLCop) }
    } else if opcode == 0x20 {
        Operation { cycles: 6, cycles_pgcr: 0, memory_type: MemoryType::Absolute, op_name: CPUInstByte::Three(Inst3Byte::JSRop) }
    } else if opcode == 0x30 {
        Operation { cycles: 2, cycles_pgcr: 0, memory_type: MemoryType::Relative, op_name: CPUInstByte::Two(Inst2Byte::BMIop) }
    } else if opcode == 0x38 {
        Operation { cycles: 2, cycles_pgcr: 0, memory_type: MemoryType::Implied, op_name: CPUInstByte::One(Inst1Byte::SECop) }
    } else if opcode == 0x40 {
        Operation { cycles: 6, cycles_pgcr: 0, memory_type: MemoryType::Implied, op_name: CPUInstByte::One(Inst1Byte::RTIop) }
    } else if opcode == 0x4C {
        Operation { cycles: 3, cycles_pgcr: 0, memory_type: MemoryType::Absolute, op_name: CPUInstByte::Three(Inst3Byte::JMPop) }
    } else if opcode == 0x50 {
        Operation { cycles: 2, cycles_pgcr: 0, memory_type: MemoryType::Relative, op_name: CPUInstByte::Two(Inst2Byte::BVCop) }
    } else if opcode == 0x58 {
        Operation { cycles: 2, cycles_pgcr: 0, memory_type: MemoryType::Implied, op_name: CPUInstByte::One(Inst1Byte::CLIop) }
    } else if opcode == 0x60 {
        Operation { cycles: 6, cycles_pgcr: 0, memory_type: MemoryType::Implied, op_name: CPUInstByte::One(Inst1Byte::RTSop) }
    } else if opcode == 0x6C {
        Operation { cycles: 5, cycles_pgcr: 0, memory_type: MemoryType::Indirect, op_name: CPUInstByte::Three(Inst3Byte::JMPop) }
    } else if opcode == 0x70 {
        Operation { cycles: 2, cycles_pgcr: 0, memory_type: MemoryType::Relative, op_name: CPUInstByte::Two(Inst2Byte::BVSop) }
    } else if opcode == 0x78 {
        Operation { cycles: 2, cycles_pgcr: 0, memory_type: MemoryType::Implied, op_name: CPUInstByte::One(Inst1Byte::SEIop) }
    } else if opcode == 0x90 {
        Operation { cycles: 2, cycles_pgcr: 0, memory_type: MemoryType::Relative, op_name: CPUInstByte::Two(Inst2Byte::BCCop) }
    } else if opcode == 0xB0 {
        Operation { cycles: 2, cycles_pgcr: 0, memory_type: MemoryType::Relative, op_name: CPUInstByte::Two(Inst2Byte::BCSop) }
    } else if opcode == 0xB8 {
        Operation { cycles: 2, cycles_pgcr: 0, memory_type: MemoryType::Implied, op_name: CPUInstByte::One(Inst1Byte::CLVop) }
    } else if opcode == 0xD0 {
        Operation { cycles: 2, cycles_pgcr: 0, memory_type: MemoryType::Relative, op_name: CPUInstByte::Two(Inst2Byte::BNEop) }
    } else if opcode == 0xD8 {
        Operation { cycles: 2, cycles_pgcr: 0, memory_type: MemoryType::Implied, op_name: CPUInstByte::One(Inst1Byte::CLDop) }
    } else if opcode == 0xEA {
        Operation { cycles: 2, cycles_pgcr: 0, memory_type: MemoryType::Implied, op_name: CPUInstByte::One(Inst1Byte::NOPop) }
    } else if opcode == 0xF0 {
        Operation { cycles: 2, cycles_pgcr: 0, memory_type: MemoryType::Relative, op_name: CPUInstByte::Two(Inst2Byte::BEQop) }
    } else if opcode == 0xF8 {
        Operation { cycles: 2, cycles_pgcr: 0, memory_type: MemoryType::Implied, op_name: CPUInstByte::One(Inst1Byte::SEDop) }
    } else {
        spec_sentinel_descriptor()
    }
}

/// Whether the unofficial combined group assigns the given opcode slot.
pub open spec fn spec_unofficial_combined_owns(opcode: int) -> bool {
    opcode == 0x0B || opcode == 0x4B || opcode == 0x6B || opcode == 0x83 || opcode == 0x87 ||
        opcode == 0x8F || opcode == 0x97 || opcode == 0xA3 || opcode == 0xA7 ||
        opcode == 0xAF || opcode == 0xB3 || opcode == 0xB7 || opcode == 0xBF || opcode == 0xCB
}

/// The descriptor the unofficial combined group assigns to each of its slots.
pub open spec fn spec_unofficial_combined_descriptor(opcode: int) -> Operation {
    if opcode == 0x0B {
        Operation { cycles: 2, cycles_pgcr: 0, memory_type: MemoryType::Immediate, op_name: CPUInstByte::Two(Inst2Byte::ANCop) }
    } else if opcode == 0x4B {
        Operation { cycles: 2, cycles_pgcr: 0, memory_type: MemoryType::Immediate, op_name: CPUInstByte::Two(Inst2Byte::ALRop) }
    } else if opcode == 0x6B {
        Operation { cycles: 2, cycles_pgcr: 0, memory_type: MemoryType::Immediate, op_name: CPUInstByte::Two(Inst2Byte::ARRop) }
    } else if opcode == 0x83 {
        Operation { cycles: 6, cycles_pgcr: 0, memory_type: MemoryType::IndirectX, op_name: CPUInstByte::Two(Inst2Byte::SAXop) }
    } else if opcode == 0x87 {
        Operation { cycles: 3, cycles_pgcr: 0, memory_type: MemoryType::ZeroPage, op_name: CPUInstByte::Two(Inst2Byte::SAXop) }
    } else if opcode == 0x8F {
        Operation { cycles: 4, cycles_pgcr: 0, memory_type: MemoryType::Absolute, op_name: CPUInstByte::Three(Inst3Byte::SAXop) }
    } else if opcode == 0x97 {
        Operation { cycles: 4, cycles_pgcr: 0, memory_type: MemoryType::ZeroPageY, op_name: CPUInstByte::Two(Inst2Byte::SAXop) }
    } else if opcode == 0xA3 {
        Operation { cycles: 6, cycles_pgcr: 0, memory_type: MemoryType::IndirectX, op_name: CPUInstByte::Two(Inst2Byte::LAXop) }
    } else if opcode == 0xA7 {
        Operation { cycles: 3, cycles_pgcr: 0, memory_type: MemoryType::ZeroPage, op_name: CPUInstByte::Two(Inst2Byte::LAXop) }
    } else if opcode == 0xAF {
        Operation { cycles: 4, cycles_pgcr: 0, memory_type: MemoryType::Absolute, op_name: CPUInstByte::Three(Inst3Byte::LAXop) }
    } else if opcode == 0xB3 {
        Operation { cycles: 5, cycles_pgcr: 0, memory_type: MemoryType::IndirectY, op_name: CPUInstByte::Two(Inst2Byte::LAXop) }
    } else if opcode == 0xB7 {
        Operation { cycles: 4, cycles_pgcr: 0, memory_type: MemoryType::ZeroPageY, op_name: CPUInstByte::Two(Inst2Byte::LAXop) }
    } else if opcode == 0xBF {
        Operation { cycles: 4, cycles_pgcr: 0, memory_type: MemoryType::AbsoluteY, op_name: CPUInstByte::Three(Inst3Byte::LAXop) }
    } else if opcode == 0xCB {
        Operation { cycles: 2, cycles_pgcr: 0, memory_type: MemoryType::Immediate, op_name: CPUInstByte::Two(Inst2Byte::AXSop) }
    } else {
        spec_sentinel_descriptor()
    }
}

/// Whether the unofficial read-modify-write group assigns the given opcode slot.
pub open spec fn spec_unofficial_rmw_owns(opcode: int) -> bool {
    opcode == 0x03 || opcode == 0x07 || opcode == 0x0F || opcode == 0x13 || opcode == 0x17 ||
        opcode == 0x1B || opcode == 0x1F || opcode == 0x23 || opcode == 0x27 ||
        opcode == 0x2F || opcode == 0x33 || opcode == 0x37 || opcode == 0x3B ||
        opcode == 0x3F || opcode == 0x43 || opcode == 0x47 || opcode == 0x4F ||
        opcode == 0x53 || opcode == 0x57 || opcode == 0x5B || opcode == 0x5F ||
        opcode == 0x63 || opcode == 0x67 || opcode == 0x6F || opcode == 0x73 ||
        opcode == 0x77 || opcode == 0x7B || opcode == 0x7F || opcode == 0xC3 ||
        opcode == 0xC7 || opcode == 0xCF || opcode == 0xD3 || opcode == 0xD7 ||
        opcode == 0xDB || opcode == 0xDF || opcode == 0xE3 || opcode == 0xE7 ||
        opcode == 0xEF || opcode == 0xF3 || opcode == 0xF7 || opcode == 0xFB || opcode == 0xFF
}

/// The descriptor the unofficial read-modify-write group assigns to each of its slots.
pub open spec fn spec_unofficial_rmw_descriptor(opcode: int) -> Operation {
    if opcode == 0x03 {
        Operation { cycles: 8, cycles_pgcr: 0, memory_type: MemoryType::IndirectX, op_name: CPUInstByte::Two(Inst2Byte::SLOop) }
    } else if opcode == 0x07 {
        Operation { cycles: 5, cycles_pgcr: 0, memory_type: MemoryType::ZeroPage, op_name: CPUInstByte::Two(Inst2Byte::SLOop) }
    } else if opcode == 0x0F {
        Operation { cycles: 6, cycles_pgcr: 0, memory_type: MemoryType::Absolute, op_name: CPUInstByte::Three(Inst3Byte::SLOop) }
    } else if opcode == 0x13 {
        Operation { cycles: 8, cycles_pgcr: 0, memory_type: MemoryType::IndirectY, op_name: CPUInstByte::Two(Inst2Byte::SLOop) }
    } else if opcode == 0x17 {
        Operation { cycles: 6, cycles_pgcr: 0, memory_type: MemoryType::ZeroPageX, op_name: CPUInstByte::Two(Inst2Byte::SLOop) }
    } else if opcode == 0x1B {
        Operation { cycles: 7, cycles_pgcr: 0, memory_type: MemoryType::AbsoluteY, op_name: CPUInstByte::Three(Inst3Byte::SLOop) }
    } else if opcode == 0x1F {
        Operation { cycles: 7, cycles_pgcr: 0, memory_type: MemoryType::AbsoluteX, op_name: CPUInstByte::Three(Inst3Byte::SLOop) }
    } else if opcode == 0x23 {
        Operation { cycles: 8, cycles_pgcr: 0, memory_type: MemoryType::IndirectX, op_name: CPUInstByte::Two(Inst2Byte::RLAop) }
    } else if opcode == 0x27 {
        Operation { cycles: 5, cycles_pgcr: 0, memory_type: MemoryType::ZeroPage, op_name: CPUInstByte::Two(Inst2Byte::RLAop) }
    } else if opcode == 0x2F {
        Operation { cycles: 6, cycles_pgcr: 0, memory_type: MemoryType::Absolute, op_name: CPUInstByte::Three(Inst3Byte::RLAop) }
    } else if opcode == 0x33 {
        Operation { cycles: 8, cycles_pgcr: 0, memory_type: MemoryType::IndirectY, op_name: CPUInstByte::Two(Inst2Byte::RLAop) }
    } else if opcode == 0x37 {
        Operation { cycles: 6, cycles_pgcr: 0, memory_type: MemoryType::ZeroPageX, op_name: CPUInstByte::Two(Inst2Byte::RLAop) }
    } else if opcode == 0x3B {
        Operation { cycles: 7, cycles_pgcr: 0, memory_type: MemoryType::AbsoluteY, op_name: CPUInstByte::Three(Inst3Byte::RLAop) }
    } else if opcode == 0x3F {
        Operation { cycles: 7, cycles_pgcr: 0, memory_type: MemoryType::AbsoluteX, op_name: CPUInstByte::Three(Inst3Byte::RLAop) }
    } else if opcode == 0x43 {
        Operation { cycles: 8, cycles_pgcr: 0, memory_type: MemoryType::IndirectX, op_name: CPUInstByte::Two(Inst2Byte::SREop) }
    } else if opcode == 0x47 {
        Operation { cycles: 5, cycles_pgcr: 0, memory_type: MemoryType::ZeroPage, op_name: CPUInstByte::Two(Inst2Byte::SREop) }
    } else if opcode == 0x4F {
        Operation { cycles: 6, cycles_pgcr: 0, memory_type: MemoryType::Absolute, op_name: CPUInstByte::Three(Inst3Byte::SREop) }
    } else if opcode == 0x53 {
        Operation { cycles: 8, cycles_pgcr: 0, memory_type: MemoryType::IndirectY, op_name: CPUInstByte::Two(Inst2Byte::SREop) }
    } else if opcode == 0x57 {
        Operation { cycles: 6, cycles_pgcr: 0, memory_type: MemoryType::ZeroPageX, op_name: CPUInstByte::Two(Inst2Byte::SREop) }
    } else if opcode == 0x5B {
        Operation { cycles: 7, cycles_pgcr: 0, memory_type: MemoryType::AbsoluteY, op_name: CPUInstByte::Three(Inst3Byte::SREop) }
    } else if opcode == 0x5F {
        Operation { cycles: 7, cycles_pgcr: 0, memory_type: MemoryType::AbsoluteX, op_name: CPUInstByte::Three(Inst3Byte::SREop) }
    } else if opcode == 0x63 {
        Operation { cycles: 8, cycles_pgcr: 0, memory_type: MemoryType::IndirectX, op_name: CPUInstByte::Two(Inst2Byte::RRAop) }
    } else if opcode == 0x67 {
        Operation { cycles: 5, cycles_pgcr: 0, memory_type: MemoryType::ZeroPage, op_name: CPUInstByte::Two(Inst2Byte::RRAop) }
    } else if opcode == 0x6F {
        Operation { cycles: 6, cycles_pgcr: 0, memory_type: MemoryType::Absolute, op_name: CPUInstByte::Three(Inst3Byte::RRAop) }
    } else if opcode == 0x73 {
        Operation { cycles: 8, cycles_pgcr: 0, memory_type: MemoryType::IndirectY, op_name: CPUInstByte::Two(Inst2Byte::RRAop) }
    } else if opcode == 0x77 {
        Operation { cycles: 6, cycles_pgcr: 0, memory_type: MemoryType::ZeroPageX, op_name: CPUInstByte::Two(Inst2Byte::RRAop) }
    } else if opcode == 0x7B {
        Operation { cycles: 7, cycles_pgcr: 0, memory_type: MemoryType::AbsoluteY, op_name: CPUInstByte::Three(Inst3Byte::RRAop) }
    } else if opcode == 0x7F {
        Operation { cycles: 7, cycles_pgcr: 0, memory_type: MemoryType::AbsoluteX, op_name: CPUInstByte::Three(Inst3Byte::RRAop) }
    } else if opcode == 0xC3 {
        Operation { cycles: 8, cycles_pgcr: 0, memory_type: MemoryType::IndirectX, op_name: CPUInstByte::Two(Inst2Byte::DCPop) }
    } else if opcode == 0xC7 {
        Operation { cycles: 5, cycles_pgcr: 0, memory_type: MemoryType::ZeroPage, op_name: CPUInstByte::Two(Inst2Byte::DCPop) }
    } else if opcode == 0xCF {
        Operation { cycles: 6, cycles_pgcr: 0, memory_type: MemoryType::Absolute, op_name: CPUInstByte::Three(Inst3Byte::DCPop) }
    } else if opcode == 0xD3 {
        Operation { cycles: 8, cycles_pgcr: 0, memory_type: MemoryType::IndirectY, op_name: CPUInstByte::Two(Inst2Byte::DCPop) }
    } else if opcode == 0xD7 {
        Operation { cycles: 6, cycles_pgcr: 0, memory_type: MemoryType::ZeroPageX, op_name: CPUInstByte::Two(Inst2Byte::DCPop) }
    } else if opcode == 0xDB {
        Operation { cycles: 7, cycles_pgcr: 0, memory_type: MemoryType::AbsoluteY, op_name: CPUInstByte::Three(Inst3Byte::DCPop) }
    } else if opcode == 0xDF {
        Operation { cycles: 7, cycles_pgcr: 0, memory_type: MemoryType::AbsoluteX, op_name: CPUInstByte::Three(Inst3Byte::DCPop) }
    } else if opcode == 0xE3 {
        Operation { cycles: 8, cycles_pgcr: 0, memory_type: MemoryType::IndirectX, op_name: CPUInstByte::Two(Inst2Byte::ISCop) }
    } else if opcode == 0xE7 {
        Operation { cycles: 5, cycles_pgcr: 0, memory_type: MemoryType::ZeroPage, op_name: CPUInstByte::Two(Inst2Byte::ISCop) }
    } else if opcode == 0xEF {
        Operation { cycles: 6, cycles_pgcr: 0, memory_type: MemoryType::Absolute, op_name: CPUInstByte::Three(Inst3Byte::ISCop) }
    } else if opcode == 0xF3 {
        Operation { cycles: 8, cycles_pgcr: 0, memory_type: MemoryType::IndirectY, op_name: CPUInstByte::Two(Inst2Byte::ISCop) }
    } else if opcode == 0xF7 {
        Operation { cycles: 6, cycles_pgcr: 0, memory_type: MemoryType::ZeroPageX, op_name: CPUInstByte::Two(Inst2Byte::ISCop) }
    } else if opcode == 0xFB {
        Operation { cycles: 7, cycles_pgcr: 0, memory_type: MemoryType::AbsoluteY, op_name: CPUInstByte::Three(Inst3Byte::ISCop) }
    } else if opcode == 0xFF {
        Operation { cycles: 7, cycles_pgcr: 0, memory_type: MemoryType::AbsoluteX, op_name: CPUInstByte::Three(Inst3Byte::ISCop) }
    } else {
        spec_sentinel_descriptor()
    }
}

/// Whether the duplicate-encoding and STP group assigns the given opcode slot.
pub open spec fn spec_duplicates_and_stp_owns(opcode: int) -> bool {
    opcode == 0x02 || opcode == 0x04 || opcode == 0x0C || opcode == 0x12 || opcode == 0x14 ||
        opcode == 0x1A || opcode == 0x1C || opcode == 0x22 || opcode == 0x32 ||
        opcode == 0x34 || opcode == 0x3A || opcode == 0x3C || opcode == 0x42 ||
        opcode == 0x44 || opcode == 0x52 || opcode == 0x54 || opcode == 0x5A ||
        opcode == 0x5C || opcode == 0x62 || opcode == 0x64 || opcode == 0x72 ||
        opcode == 0x74 || opcode == 0x7A || opcode == 0x7C || opcode == 0x80 ||
        opcode == 0x82 || opcode == 0x89 || opcode == 0x92 || opcode == 0x9C ||
        opcode == 0x9E || opcode == 0xB2 || opcode == 0xC2 || opcode == 0xD2 ||
        opcode == 0xD4 || opcode == 0xDA || opcode == 0xDC || opcode == 0xE2 ||
        opcode == 0xEB || opcode == 0xF2 || opcode == 0xF4 || opcode == 0xFA || opcode == 0xFC
}

/// The descriptor the duplicate-encoding and STP group assigns to each of its slots.
pub open spec fn spec_duplicates_and_stp_descriptor(opcode: int) -> Operation {
    if opcode == 0x02 {
        Operation { cycles: 0, cycles_pgcr: 0, memory_type: MemoryType::Implied, op_name: CPUInstByte::One(Inst1Byte::STPop) }
    } else if opcode == 0x04 {
        Operation { cycles: 3, cycles_pgcr: 0, memory_type: MemoryType::ZeroPage, op_name: CPUInstByte::Two(Inst2Byte::NOPop) }
    } else if opcode == 0x0C {
        Operation { cycles: 4, cycles_pgcr: 0, memory_type: MemoryType::Absolute, op_name: CPUInstByte::Three(Inst3Byte::NOPop) }
    } else if opcode == 0x12 {
        Operation { cycles: 0, cycles_pgcr: 0, memory_type: MemoryType::Implied, op_name: CPUInstByte::One(Inst1Byte::STPop) }
    } else if opcode == 0x14 {
        Operation { cycles: 4, cycles_pgcr: 0, memory_type: MemoryType::ZeroPageX, op_name: CPUInstByte::Two(Inst2Byte::NOPop) }
    } else if opcode == 0x1A {
        Operation { cycles: 2, cycles_pgcr: 0, memory_type: MemoryType::Implied, op_name: CPUInstByte::One(Inst1Byte::NOPop) }
    } else if opcode == 0x1C {
        Operation { cycles: 4, cycles_pgcr: 0, memory_type: MemoryType::AbsoluteX, op_name: CPUInstByte::Three(Inst3Byte::NOPop) }
    } else if opcode == 0x22 {
        Operation { cycles: 0, cycles_pgcr: 0, memory_type: MemoryType::Implied, op_name: CPUInstByte::One(Inst1Byte::STPop) }
    } else if opcode == 0x32 {
        Operation { cycles: 0, cycles_pgcr: 0, memory_type: MemoryType::Implied, op_name: CPUInstByte::One(Inst1Byte::STPop) }
    } else if opcode == 0x34 {
        Operation { cycles: 4, cycles_pgcr: 0, memory_type: MemoryType::ZeroPageX, op_name: CPUInstByte::Two(Inst2Byte::NOPop) }
    } else if opcode == 0x3A {
        Operation { cycles: 2, cycles_pgcr: 0, memory_type: MemoryType::Implied, op_name: CPUInstByte::One(Inst1Byte::NOPop) }
    } else if opcode == 0x3C {
        Operation { cycles: 4, cycles_pgcr: 0, memory_type: MemoryType::AbsoluteX, op_name: CPUInstByte::Three(Inst3Byte::NOPop) }
    } else if opcode == 0x42 {
        Operation { cycles: 0, cycles_pgcr: 0, memory_type: MemoryType::Implied, op_name: CPUInstByte::One(Inst1Byte::STPop) }
    } else if opcode == 0x44 {
        Operation { cycles: 3, cycles_pgcr: 0, memory_type: MemoryType::ZeroPage, op_name: CPUInstByte::Two(Inst2Byte::NOPop) }
    } else if opcode == 0x52 {
        Operation { cycles: 0, cycles_pgcr: 0, memory_type: MemoryType::Implied, op_name: CPUInstByte::One(Inst1Byte::STPop) }
    } else if opcode == 0x54 {
        Operation { cycles: 4, cycles_pgcr: 0, memory_type: MemoryType::ZeroPageX, op_name: CPUInstByte::Two(Inst2Byte::NOPop) }
    } else if opcode == 0x5A {
        Operation { cycles: 2, cycles_pgcr: 0, memory_type: MemoryType::Implied, op_name: CPUInstByte::One(Inst1Byte::NOPop) }
    } else if opcode == 0x5C {
        Operation { cycles: 4, cycles_pgcr: 0, memory_type: MemoryType::AbsoluteX, op_name: CPUInstByte::Three(Inst3Byte::NOPop) }
    } else if opcode == 0x62 {
        Operation { cycles: 0, cycles_pgcr: 0, memory_type: MemoryType::Implied, op_name: CPUInstByte::One(Inst1Byte::STPop) }
    } else if opcode == 0x64 {
        Operation { cycles: 3, cycles_pgcr: 0, memory_type: MemoryType::ZeroPage, op_name: CPUInstByte::Two(Inst2Byte::NOPop) }
    } else if opcode == 0x72 {
        Operation { cycles: 0, cycles_pgcr: 0, memory_type: MemoryType::Implied, op_name: CPUInstByte::One(Inst1Byte::STPop) }
    } else if opcode == 0x74 {
        Operation { cycles: 4, cycles_pgcr: 0, memory_type: MemoryType::ZeroPageX, op_name: CPUInstByte::Two(Inst2Byte::NOPop) }
    } else if opcode == 0x7A {
        Operation { cycles: 2, cycles_pgcr: 0, memory_type: MemoryType::Implied, op_name: CPUInstByte::One(Inst1Byte::NOPop) }
    } else if opcode == 0x7C {
        Operation { cycles: 4, cycles_pgcr: 0, memory_type: MemoryType::AbsoluteX, op_name: CPUInstByte::Three(Inst3Byte::NOPop) }
    } else if opcode == 0x80 {
        Operation { cycles: 2, cycles_pgcr: 0, memory_type: MemoryType::Immediate, op_name: CPUInstByte::Two(Inst2Byte::NOPop) }
    } else if opcode == 0x82 {
        Operation { cycles: 2, cycles_pgcr: 0, memory_type: MemoryType::Immediate, op_name: CPUInstByte::Two(Inst2Byte::NOPop) }
    } else if opcode == 0x89 {
        Operation { cycles: 2, cycles_pgcr: 0, memory_type: MemoryType::Immediate, op_name: CPUInstByte::Two(Inst2Byte::NOPop) }
    } else if opcode == 0x92 {
        Operation { cycles: 0, cycles_pgcr: 0, memory_type: MemoryType::Implied, op_name: CPUInstByte::One(Inst1Byte::STPop) }
    } else if opcode == 0x9C {
        Operation { cycles: 5, cycles_pgcr: 0, memory_type: MemoryType::AbsoluteX, op_name: CPUInstByte::Three(Inst3Byte::SHYop) }
    } else if opcode == 0x9E {
        Operation { cycles: 5, cycles_pgcr: 0, memory_type: MemoryType::AbsoluteY, op_name: CPUInstByte::Three(Inst3Byte::SHXop) }
    } else if opcode == 0xB2 {
        Operation { cycles: 0, cycles_pgcr: 0, memory_type: MemoryType::Implied, op_name: CPUInstByte::One(Inst1Byte::STPop) }
    } else if opcode == 0xC2 {
        Operation { cycles: 2, cycles_pgcr: 0, memory_type: MemoryType::Immediate, op_name: CPUInstByte::Two(Inst2Byte::NOPop) }
    } else if opcode == 0xD2 {
        Operation { cycles: 0, cycles_pgcr: 0, memory_type: MemoryType::Implied, op_name: CPUInstByte::One(Inst1Byte::STPop) }
    } else if opcode == 0xD4 {
        Operation { cycles: 4, cycles_pgcr: 0, memory_type: MemoryType::ZeroPageX, op_name: CPUInstByte::Two(Inst2Byte::NOPop) }
    } else if opcode == 0xDA {
        Operation { cycles: 2, cycles_pgcr: 0, memory_type: MemoryType::Implied, op_name: CPUInstByte::One(Inst1Byte::NOPop) }
    } else if opcode == 0xDC {
        Operation { cycles: 4, cycles_pgcr: 0, memory_type: MemoryType::AbsoluteX, op_name: CPUInstByte::Three(Inst3Byte::NOPop) }
    } else if opcode == 0xE2 {
        Operation { cycles: 2, cycles_pgcr: 0, memory_type: MemoryType::Immediate, op_name: CPUInstByte::Two(Inst2Byte::NOPop) }
    } else if opcode == 0xEB {
        Operation { cycles: 2, cycles_pgcr: 0, memory_type: MemoryType::Immediate, op_name: CPUInstByte::Two(Inst2Byte::SBCop) }
    } else if opcode == 0xF2 {
        Operation { cycles: 0, cycles_pgcr: 0, memory_type: MemoryType::Implied, op_name: CPUInstByte::One(Inst1Byte::STPop) }
    } else if opcode == 0xF4 {
        Operation { cycles: 4, cycles_pgcr: 0, memory_type: MemoryType::ZeroPageX, op_name: CPUInstByte::Two(Inst2Byte::NOPop) }
    } else if opcode == 0xFA {
        Operation { cycles: 2, cycles_pgcr: 0, memory_type: MemoryType::Implied, op_name: CPUInstByte::One(Inst1Byte::NOPop) }
    } else if opcode == 0xFC {
        Operation { cycles: 4, cycles_pgcr: 0, memory_type: MemoryType::AbsoluteX, op_name: CPUInstByte::Three(Inst3Byte::NOPop) }
    } else {
        spec_sentinel_descriptor()
    }
}

/// The 6502 instruction assignment, slot by slot: the descriptor that the
/// built table holds for each of the 256 opcode bytes, with the invalid
/// sentinel in every unassigned slot.
pub open spec fn spec_descriptor(opcode: int) -> Operation {
    if spec_duplicates_and_stp_owns(opcode) {
        spec_duplicates_and_stp_descriptor(opcode)
    } else if spec_unofficial_rmw_owns(opcode) {
        spec_unofficial_rmw_descriptor(opcode)
    } else if spec_unofficial_combined_owns(opcode) {
        spec_unofficial_combined_descriptor(opcode)
    } else if spec_jumps_branches_flags_system_owns(opcode) {
        spec_jumps_branches_flags_system_descriptor(opcode)
    } else if spec_shifts_owns(opcode) {
        spec_shifts_descriptor(opcode)
    } else if spec_increment_decrement_owns(opcode) {
        spec_increment_decrement_descriptor(opcode)
    } else if spec_arithmetic_owns(opcode) {
        spec_arithmetic_descriptor(opcode)
    } else if spec_logical_owns(opcode) {
        spec_logical_descriptor(opcode)
    } else if spec_transfers_and_stack_owns(opcode) {
        spec_transfers_and_stack_descriptor(opcode)
    } else if spec_load_store_owns(opcode) {
        spec_load_store_descriptor(opcode)
    } else {
        spec_sentinel_descriptor()
    }
}

/// The number of non-sentinel descriptors among the first `upto` slots of a
/// table.
pub open spec fn spec_non_sentinel_count(table: Seq<Operation>, upto: int) -> int
    decreases upto,
{
    if upto <= 0 {
        0
    } else {
        spec_non_sentinel_count(table, upto - 1) + (if table[upto - 1].spec_is_sentinel() {
            0int
        } else {
            1int
        })
    }
}

/// The number of non-sentinel descriptors among the first `upto` slots of the
/// slot-by-slot assignment itself.
pub open spec fn spec_descriptor_count(upto: int) -> int
    decreases upto,
{
    if upto <= 0 {
        0
    } else {
        spec_descriptor_count(upto - 1) + (if spec_descriptor(upto - 1).spec_is_sentinel() {
            0int
        } else {
            1int
        })
    }
}

/// A table that matches the slot-by-slot assignment pointwise has the same
/// non-sentinel count.
proof fn lemma_counts_match(table: Seq<Operation>, upto: int)
    requires
        0 <= upto <= 256,
        forall|k: int| 0 <= k < 256 ==> table[k] == spec_descriptor(k),
    ensures
        spec_non_sentinel_count(table, upto) == spec_descriptor_count(upto),
    decreases upto,
{
    if upto > 0 {
        lemma_counts_match(table, upto - 1);
    }
}

/// Exactly ASSIGNED_OPCODE_COUNT of the 256 slots are assigned (that is,
/// non-sentinel), evaluated in chunks over the slot-by-slot assignment.
#[verifier::rlimit(100)]
#[verifier::spinoff_prover]
pub proof fn lemma_descriptor_count_value()
    ensures
        spec_descriptor_count(256) == ASSIGNED_OPCODE_COUNT,
{
    assert(spec_descriptor_count(32) == 32) by {
        reveal_with_fuel(spec_descriptor_count, 33);
    };
    assert(spec_descriptor_count(64) == 63) by {
        reveal_with_fuel(spec_descriptor_count, 33);
    };
    assert(spec_descriptor_count(96) == 95) by {
        reveal_with_fuel(spec_descriptor_count, 33);
    };
    assert(spec_descriptor_count(128) == 127) by {
        reveal_with_fuel(spec_descriptor_count, 33);
    };
    assert(spec_descriptor_count(160) == 155) by {
        reveal_with_fuel(spec_descriptor_count, 33);
    };
    assert(spec_descriptor_count(192) == 185) by {
        reveal_with_fuel(spec_descriptor_count, 33);
    };
    assert(spec_descriptor_count(224) == 217) by {
        reveal_with_fuel(spec_descriptor_count, 33);
    };
    assert(spec_descriptor_count(256) == 249) by {
        reveal_with_fuel(spec_descriptor_count, 33);
    };
}

// The table construction below is split into a few helper passes purely to
// keep each function small; `init_all_operations` strings them together and
// is the only public entry point.

fn mark_page_cross(all_operations: &mut Vec<Operation>, opcode: usize, cycles_pgcr: u8)
    requires
        old(all_operations)@.len() == 256,
        opcode < 256,
    ensures
        final(all_operations)@ == old(all_operations)@.update(
            opcode as int,
            (Operation { cycles_pgcr, ..old(all_operations)@[opcode as int] }),
        ),
{
    let mut op = all_operations[opcode];
    op.set_cycles_page_crossed(cycles_pgcr);
    all_operations[opcode] = op;
}

/// Builds the full 256-entry instruction table and the count of assigned
/// slots. The table is built once at construction time and only queried, never
/// mutated, afterwards.
pub fn init_all_operations() -> (r: (Vec<Operation>, usize))
    ensures
        r.0@.len() == 256,
        r.1 == ASSIGNED_OPCODE_COUNT,
        forall|k: int| 0 <= k < 256 ==> r.0@[k] == spec_descriptor(k),
        r.1 == spec_non_sentinel_count(r.0@, 256),
{
    let mut all_operations: Vec<Operation> = Vec::new();
    let mut filled: usize = 0;
    while filled < 256
        invariant
            all_operations@.len() == filled,
            filled <= 256,
            forall|k: int|
                0 <= k < filled ==> (#[trigger] all_operations@[k]) == (Operation {
                    cycles: 0,
                    cycles_pgcr: 0,
                    memory_type: MemoryType::Implied,
                    op_name: CPUInstByte::NoOp,
                }),
        decreases 256 - filled,
    {
        all_operations.push(Operation {
            cycles: 0,
            cycles_pgcr: 0,
            memory_type: MemoryType::Implied,
            op_name: CPUInstByte::NoOp,
        });
        filled += 1;
    }
    let mut oper_counter: usize = 0;
    oper_counter += fill_load_store(&mut all_operations);
    oper_counter += fill_transfers_and_stack(&mut all_operations);
    oper_counter += fill_logical(&mut all_operations);
    oper_counter += fill_arithmetic(&mut all_operations);
    oper_counter += fill_increment_decrement(&mut all_operations);
    oper_counter += fill_shifts(&mut all_operations);
    oper_counter += fill_jumps_branches_flags_system(&mut all_operations);
    oper_counter += fill_unofficial_combined(&mut all_operations);
    oper_counter += fill_unofficial_rmw(&mut all_operations);
    oper_counter += fill_duplicates_and_stp(&mut all_operations);

    proof {
        assert forall|k: int| 0 <= k < 256 implies all_operations@[k] == spec_descriptor(k) by {
        }
        lemma_counts_match(all_operations@, 256);
        lemma_descriptor_count_value();
    }

    (all_operations, oper_counter)
}

fn fill_load_store(all_operations: &mut Vec<Operation>) -> (n: usize)
    requires
        old(all_operations)@.len() == 256,
    ensures
        final(all_operations)@.len() == 256,
        n == 31,
        forall|k: int|
            0 <= k < 256 ==> final(all_operations)@[k] == (if spec_load_store_owns(k) {
                spec_load_store_descriptor(k)
            } else {
                old(all_operations)@[k]
            }),
{
    let mut oper_counter: usize = 0;
    // Load & Store operations: LDA, LDX, LDY, STA, STX, STY

    // LDA operations
    all_operations[0xA9] = Operation::new(2, MemoryType::Immediate, CPUInstByte::Two(Inst2Byte::LDAop));
    all_operations[0xA5] = Operation::new(3, MemoryType::ZeroPage, CPUInstByte::Two(Inst2Byte::LDAop));
    all_operations[0xB5] = Operation::new(4, MemoryType::ZeroPageX, CPUInstByte::Two(Inst2Byte::LDAop));
    all_operations[0xAD] = Operation::new(4, MemoryType::Absolute, CPUInstByte::Three(Inst3Byte::LDAop));
    all_operations[0xBD] = Operation::new(4, MemoryType::AbsoluteX, CPUInstByte::Three(Inst3Byte::LDAop));
    all_operations[0xB9] = Operation::new(4, MemoryType::AbsoluteY, CPUInstByte::Three(Inst3Byte::LDAop));
    all_operations[0xA1] = Operation::new(6, MemoryType::IndirectX, CPUInstByte::Two(Inst2Byte::LDAop));
    all_operations[0xB1] = Operation::new(5, MemoryType::IndirectY, CPUInstByte::Two(Inst2Byte::LDAop));

    mark_page_cross(all_operations, 0xBD, 1);
    mark_page_cross(all_operations, 0xB9, 1);
    mark_page_cross(all_operations, 0xB1, 1);
    oper_counter += 8;

    // LDX operations
    all_operations[0xA2] = Operation::new(2, MemoryType::Immediate, CPUInstByte::Two(Inst2Byte::LDXop));
    all_operations[0xA6] = Operation::new(3, MemoryType::ZeroPage, CPUInstByte::Two(Inst2Byte::LDXop));
    all_operations[0xB6] = Operation::new(4, MemoryType::ZeroPageY, CPUInstByte::Two(Inst2Byte::LDXop));
    all_operations[0xAE] = Operation::new(4, MemoryType::Absolute, CPUInstByte::Three(Inst3Byte::LDXop));
    all_operations[0xBE] = Operation::new(4, MemoryType::AbsoluteY, CPUInstByte::Three(Inst3Byte::LDXop));

    mark_page_cross(all_operations, 0xBE, 1);
    oper_counter += 5;

    // LDY operations
    all_operations[0xA0] = Operation::new(2, MemoryType::Immediate, CPUInstByte::Two(Inst2Byte::LDYop));
    all_operations[0xA4] = Operation::new(3, MemoryType::ZeroPage, CPUInstByte::Two(Inst2Byte::LDYop));
    all_operations[0xB4] = Operation::new(4, MemoryType::ZeroPageX, CPUInstByte::Two(Inst2Byte::LDYop));
    all_operations[0xAC] = Operation::new(4, MemoryType::Absolute, CPUInstByte::Three(Inst3Byte::LDYop));
    all_operations[0xBC] = Operation::new(4, MemoryType::AbsoluteX, CPUInstByte::Three(Inst3Byte::LDYop));

    mark_page_cross(all_operations, 0xBC, 1);
    oper_counter += 5;

    // STA operations
    all_operations[0x85] = Operation::new(3, MemoryType::ZeroPage, CPUInstByte::Two(Inst2Byte::STAop));
    all_operations[0x95] = Operation::new(4, MemoryType::ZeroPageX, CPUInstByte::Two(Inst2Byte::STAop));
    all_operations[0x8D] = Operation::new(4, MemoryType::Absolute, CPUInstByte::Three(Inst3Byte::STAop));
    all_operations[0x9D] = Operation::new(5, MemoryType::AbsoluteX, CPUInstByte::Three(Inst3Byte::STAop));
    all_operations[0x99] = Operation::new(5, MemoryType::AbsoluteY, CPUInstByte::Three(Inst3Byte::STAop));
    all_operations[0x81] = Operation::new(6, MemoryType::IndirectX, CPUInstByte::Two(Inst2Byte::STAop));
    all_operations[0x91] = Operation::new(6, MemoryType::IndirectY, CPUInstByte::Two(Inst2Byte::STAop));

    oper_counter += 7;

    // STX operations
    all_operations[0x86] = Operation::new(3, MemoryType::ZeroPage, CPUInstByte::Two(Inst2Byte::STXop));
    all_operations[0x96] = Operation::new(4, MemoryType::ZeroPageY, CPUInstByte::Two(Inst2Byte::STXop));
    all_operations[0x8E] = Operation::new(4, MemoryType::Absolute, CPUInstByte::Three(Inst3Byte::STXop));

    oper_counter += 3;

    // STY operations
    all_operations[0x84] = Operation::new(3, MemoryType::ZeroPage, CPUInstByte::Two(Inst2Byte::STYop));
    all_operations[0x94] = Operation::new(4, MemoryType::ZeroPageX, CPUInstByte::Two(Inst2Byte::STYop));
    all_operations[0x8C] = Operation::new(4, MemoryType::Absolute, CPUInstByte::Three(Inst3Byte::STYop));

    oper_counter += 3;

    oper_counter
}

fn fill_transfers_and_stack(all_operations: &mut Vec<Operation>) -> (n: usize)
    requires
        old(all_operations)@.len() == 256,
    ensures
        final(all_operations)@.len() == 256,
        n == 10,
        forall|k: int|
            0 <= k < 256 ==> final(all_operations)@[k] == (if spec_transfers_and_stack_owns(k) {
                spec_transfers_and_stack_descriptor(k)
            } else {
                old(all_operations)@[k]
            }),
{
    let mut oper_counter: usize = 0;
    // Register transfer operations: TAX, TAY, TXA, TYA
    all_operations[0xAA] = Operation::new(2, MemoryType::Implied, CPUInstByte::One(Inst1Byte::TAXop));
    all_operations[0xA8] = Operation::new(2, MemoryType::Implied, CPUInstByte::One(Inst1Byte::TAYop));
    all_operations[0x8A] = Operation::new(2, MemoryType::Implied, CPUInstByte::One(Inst1Byte::TXAop));
    all_operations[0x98] = Operation::new(2, MemoryType::Implied, CPUInstByte::One(Inst1Byte::TYAop));

    oper_counter += 4;

    // Stack operations: TSX, TXS, PHA, PHP, PLA, PLP
    all_operations[0xBA] = Operation::new(2, MemoryType::Implied, CPUInstByte::One(Inst1Byte::TSXop));
    all_operations[0x9A] = Operation::new(2, MemoryType::Implied, CPUInstByte::One(Inst1Byte::TXSop));
    oper_counter += 2;

    all_operations[0x48] = Operation::new(3, MemoryType::Implied, CPUInstByte::One(Inst1Byte::PHAop));
    all_operations[0x08] = Operation::new(3, MemoryType::Implied, CPUInstByte::One(Inst1Byte::PHPop));

    oper_counter += 2;

    all_operations[0x68] = Operation::new(4, MemoryType::Implied, CPUInstByte::One(Inst1Byte::PLAop));
    all_operations[0x28] = Operation::new(4, MemoryType::Implied, CPUInstByte::One(Inst1Byte::PLPop));

    oper_counter += 2;

    oper_counter
}

fn fill_logical(all_operations: &mut Vec<Operation>) -> (n: usize)
    requires
        old(all_operations)@.len() == 256,
    ensures
        final(all_operations)@.len() == 256,
        n == 26,
        forall|k: int|
            0 <= k < 256 ==> final(all_operations)@[k] == (if spec_logical_owns(k) {
                spec_logical_descriptor(k)
            } else {
                old(all_operations)@[k]
            }),
{
    let mut oper_counter: usize = 0;
    // Logical operations: AND, EOR, ORA, BIT

    // AND operations
    all_operations[0x29] = Operation::new(2, MemoryType::Immediate, CPUInstByte::Two(Inst2Byte::ANDop));
    all_operations[0x25] = Operation::new(3, MemoryType::ZeroPage, CPUInstByte::Two(Inst2Byte::ANDop));
    all_operations[0x35] = Operation::new(4, MemoryType::ZeroPageX, CPUInstByte::Two(Inst2Byte::ANDop));
    all_operations[0x2D] = Operation::new(4, MemoryType::Absolute, CPUInstByte::Three(Inst3Byte::ANDop));
    all_operations[0x3D] = Operation::new(4, MemoryType::AbsoluteX, CPUInstByte::Three(Inst3Byte::ANDop));
    all_operations[0x39] = Operation::new(4, MemoryType::AbsoluteY, CPUInstByte::Three(Inst3Byte::ANDop));
    all_operations[0x21] = Operation::new(6, MemoryType::IndirectX, CPUInstByte::Two(Inst2Byte::ANDop));
    all_operations[0x31] = Operation::new(5, MemoryType::IndirectY, CPUInstByte::Two(Inst2Byte::ANDop));

    mark_page_cross(all_operations, 0x3D, 1);
    mark_page_cross(all_operations, 0x39, 1);
    mark_page_cross(all_operations, 0x31, 1);

    oper_counter += 8;

    // EOR operations
    all_operations[0x49] = Operation::new(2, MemoryType::Immediate, CPUInstByte::Two(Inst2Byte::EORop));
    all_operations[0x45] = Operation::new(3, MemoryType::ZeroPage, CPUInstByte::Two(Inst2Byte::EORop));
    all_operations[0x55] = Operation::new(4, MemoryType::ZeroPageX, CPUInstByte::Two(Inst2Byte::EORop));
    all_operations[0x4D] = Operation::new(4, MemoryType::Absolute, CPUInstByte::Three(Inst3Byte::EORop));
    all_operations[0x5D] = Operation::new(4, MemoryType::AbsoluteX, CPUInstByte::Three(Inst3Byte::EORop));
    all_operations[0x59] = Operation::new(4, MemoryType::AbsoluteY, CPUInstByte::Three(Inst3Byte::EORop));
    all_operations[0x41] = Operation::new(6, MemoryType::IndirectX, CPUInstByte::Two(Inst2Byte::EORop));
    all_operations[0x51] = Operation::new(5, MemoryType::IndirectY, CPUInstByte::Two(Inst2Byte::EORop));

    mark_page_cross(all_operations, 0x5D, 1);
    mark_page_cross(all_operations, 0x59, 1);
    mark_page_cross(all_operations, 0x51, 1);

    oper_counter += 8;

    // ORA operations
    all_operations[0x09] = Operation::new(2, MemoryType::Immediate, CPUInstByte::Two(Inst2Byte::ORAop));
    all_operations[0x05] = Operation::new(3, MemoryType::ZeroPage, CPUInstByte::Two(Inst2Byte::ORAop));
    all_operations[0x15] = Operation::new(4, MemoryType::ZeroPageX, CPUInstByte::Two(Inst2Byte::ORAop));
    all_operations[0x0D] = Operation::new(4, MemoryType::Absolute, CPUInstByte::Three(Inst3Byte::ORAop));
    all_operations[0x1D] = Operation::new(4, MemoryType::AbsoluteX, CPUInstByte::Three(Inst3Byte::ORAop));
    all_operations[0x19] = Operation::new(4, MemoryType::AbsoluteY, CPUInstByte::Three(Inst3Byte::ORAop));
    all_operations[0x01] = Operation::new(6, MemoryType::IndirectX, CPUInstByte::Two(Inst2Byte::ORAop));
    all_operations[0x11] = Operation::new(5, MemoryType::IndirectY, CPUInstByte::Two(Inst2Byte::ORAop));

    mark_page_cross(all_operations, 0x1D, 1);
    mark_page_cross(all_operations, 0x19, 1);
    mark_page_cross(all_operations, 0x11, 1);

    oper_counter += 8;

    // BIT operations
    all_operations[0x24] = Operation::new(3, MemoryType::ZeroPage, CPUInstByte::Two(Inst2Byte::BITop));
    all_operations[0x2C] = Operation::new(4, MemoryType::Absolute, CPUInstByte::Three(Inst3Byte::BITop));

    oper_counter += 2;

    oper_counter
}

fn fill_arithmetic(all_operations: &mut Vec<Operation>) -> (n: usize)
    requires
        old(all_operations)@.len() == 256,
    ensures
        final(all_operations)@.len() == 256,
        n == 30,
        forall|k: int|
            0 <= k < 256 ==> final(all_operations)@[k] == (if spec_arithmetic_owns(k) {
                spec_arithmetic_descriptor(k)
            } else {
                old(all_operations)@[k]
            }),
{
    let mut oper_counter: usize = 0;
    // Arithmetic operations: ADC, SBC, CMP, CPX, CPY

    // ADC operations
    all_operations[0x69] = Operation::new(2, MemoryType::Immediate, CPUInstByte::Two(Inst2Byte::ADCop));
    all_operations[0x65] = Operation::new(3, MemoryType::ZeroPage, CPUInstByte::Two(Inst2Byte::ADCop));
    all_operations[0x75] = Operation::new(4, MemoryType::ZeroPageX, CPUInstByte::Two(Inst2Byte::ADCop));
    all_operations[0x6D] = Operation::new(4, MemoryType::Absolute, CPUInstByte::Three(Inst3Byte::ADCop));
    all_operations[0x7D] = Operation::new(4, MemoryType::AbsoluteX, CPUInstByte::Three(Inst3Byte::ADCop));
    all_operations[0x79] = Operation::new(4, MemoryType::AbsoluteY, CPUInstByte::Three(Inst3Byte::ADCop));
    all_operations[0x61] = Operation::new(6, MemoryType::IndirectX, CPUInstByte::Two(Inst2Byte::ADCop));
    all_operations[0x71] = Operation::new(5, MemoryType::IndirectY, CPUInstByte::Two(Inst2Byte::ADCop));

    mark_page_cross(all_operations, 0x7D, 1);
    mark_page_cross(all_operations, 0x79, 1);
    mark_page_cross(all_operations, 0x71, 1);

    oper_counter += 8;

    // SBC operations
    all_operations[0xE9] = Operation::new(2, MemoryType::Immediate, CPUInstByte::Two(Inst2Byte::SBCop));
    all_operations[0xE5] = Operation::new(3, MemoryType::ZeroPage, CPUInstByte::Two(Inst2Byte::SBCop));
    all_operations[0xF5] = Operation::new(4, MemoryType::ZeroPageX, CPUInstByte::Two(Inst2Byte::SBCop));
    all_operations[0xED] = Operation::new(4, MemoryType::Absolute, CPUInstByte::Three(Inst3Byte::SBCop));
    all_operations[0xFD] = Operation::new(4, MemoryType::AbsoluteX, CPUInstByte::Three(Inst3Byte::SBCop));
    all_operations[0xF9] = Operation::new(4, MemoryType::AbsoluteY, CPUInstByte::Three(Inst3Byte::SBCop));
    all_operations[0xE1] = Operation::new(6, MemoryType::IndirectX, CPUInstByte::Two(Inst2Byte::SBCop));
    all_operations[0xF1] = Operation::new(5, MemoryType::IndirectY, CPUInstByte::Two(Inst2Byte::SBCop));

    mark_page_cross(all_operations, 0xFD, 1);
    mark_page_cross(all_operations, 0xF9, 1);
    mark_page_cross(all_operations, 0xF1, 1);

    oper_counter += 8;

    // CMP operations
    all_operations[0xC9] = Operation::new(2, MemoryType::Immediate, CPUInstByte::Two(Inst2Byte::CMPop));
    all_operations[0xC5] = Operation::new(3, MemoryType::ZeroPage, CPUInstByte::Two(Inst2Byte::CMPop));
    all_operations[0xD5] = Operation::new(4, MemoryType::ZeroPageX, CPUInstByte::Two(Inst2Byte::CMPop));
    all_operations[0xCD] = Operation::new(4, MemoryType::Absolute, CPUInstByte::Three(Inst3Byte::CMPop));
    all_operations[0xDD] = Operation::new(4, MemoryType::AbsoluteX, CPUInstByte::Three(Inst3Byte::CMPop));
    all_operations[0xD9] = Operation::new(4, MemoryType::AbsoluteY, CPUInstByte::Three(Inst3Byte::CMPop));
    all_operations[0xC1] = Operation::new(6, MemoryType::IndirectX, CPUInstByte::Two(Inst2Byte::CMPop));
    all_operations[0xD1] = Operation::new(5, MemoryType::IndirectY, CPUInstByte::Two(Inst2Byte::CMPop));

    mark_page_cross(all_operations, 0xDD, 1);
    mark_page_cross(all_operations, 0xD9, 1);
    mark_page_cross(all_operations, 0xD1, 1);

    oper_counter += 8;

    // CPX operations
    all_operations[0xE0] = Operation::new(2, MemoryType::Immediate, CPUInstByte::Two(Inst2Byte::CPXop));
    all_operations[0xE4] = Operation::new(3, MemoryType::ZeroPage, CPUInstByte::Two(Inst2Byte::CPXop));
    all_operations[0xEC] = Operation::new(4, MemoryType::Absolute, CPUInstByte::Three(Inst3Byte::CPXop));

    oper_counter += 3;

    // CPY operations
    all_operations[0xC0] = Operation::new(2, MemoryType::Immediate, CPUInstByte::Two(Inst2Byte::CPYop));
    all_operations[0xC4] = Operation::new(3, MemoryType::ZeroPage, CPUInstByte::Two(Inst2Byte::CPYop));
    all_operations[0xCC] = Operation::new(4, MemoryType::Absolute, CPUInstByte::Three(Inst3Byte::CPYop));

    oper_counter += 3;

    oper_counter
}

fn fill_increment_decrement(all_operations: &mut Vec<Operation>) -> (n: usize)
    requires
        old(all_operations)@.len() == 256,
    ensures
        final(all_operations)@.len() == 256,
        n == 12,
        forall|k: int|
            0 <= k < 256 ==> final(all_operations)@[k] == (if spec_increment_decrement_owns(k) {
                spec_increment_decrement_descriptor(k)
            } else {
                old(all_operations)@[k]
            }),
{
    let mut oper_counter: usize = 0;
    // Increments and decrements: INC, INX, INY, DEC, DEX, DEY
    all_operations[0xE6] = Operation::new(5, MemoryType::ZeroPage, CPUInstByte::Two(Inst2Byte::INCop));
    all_operations[0xF6] = Operation::new(6, MemoryType::ZeroPageX, CPUInstByte::Two(Inst2Byte::INCop));
    all_operations[0xEE] = Operation::new(6, MemoryType::Absolute, CPUInstByte::Three(Inst3Byte::INCop));
    all_operations[0xFE] = Operation::new(7, MemoryType::AbsoluteX, CPUInstByte::Three(Inst3Byte::INCop));

    oper_counter += 4;

    all_operations[0xE8] = Operation::new(2, MemoryType::Implied, CPUInstByte::One(Inst1Byte::INXop));
    all_operations[0xC8] = Operation::new(2, MemoryType::Implied, CPUInstByte::One(Inst1Byte::INYop));

    oper_counter += 2;

    all_operations[0xC6] = Operation::new(5, MemoryType::ZeroPage, CPUInstByte::Two(Inst2Byte::DECop));
    all_operations[0xD6] = Operation::new(6, MemoryType::ZeroPageX, CPUInstByte::Two(Inst2Byte::DECop));
    all_operations[0xCE] = Operation::new(6, MemoryType::Absolute, CPUInstByte::Three(Inst3Byte::DECop));
    all_operations[0xDE] = Operation::new(7, MemoryType::AbsoluteX, CPUInstByte::Three(Inst3Byte::DECop));

    oper_counter += 4;

    all_operations[0xCA] = Operation::new(2, MemoryType::Implied, CPUInstByte::One(Inst1Byte::DEXop));
    all_operations[0x88] = Operation::new(2, MemoryType::Implied, CPUInstByte::One(Inst1Byte::DEYop));

    oper_counter += 2;

    oper_counter
}

fn fill_shifts(all_operations: &mut Vec<Operation>) -> (n: usize)
    requires
        old(all_operations)@.len() == 256,
    ensures
        final(all_operations)@.len() == 256,
        n == 20,
        forall|k: int|
            0 <= k < 256 ==> final(all_operations)@[k] == (if spec_shifts_owns(k) {
                spec_shifts_descriptor(k)
            } else {
                old(all_operations)@[k]
            }),
{
    let mut oper_counter: usize = 0;
    // Shifts: ASL, LSR, ROL, ROR
    all_operations[0x0A] = Operation::new(2, MemoryType::Accumulator, CPUInstByte::One(Inst1Byte::ASLop));
    all_operations[0x06] = Operation::new(5, MemoryType::ZeroPage, CPUInstByte::Two(Inst2Byte::ASLop));
    all_operations[0x16] = Operation::new(6, MemoryType::ZeroPageX, CPUInstByte::Two(Inst2Byte::ASLop));
    all_operations[0x0E] = Operation::new(6, MemoryType::Absolute, CPUInstByte::Three(Inst3Byte::ASLop));
    all_operations[0x1E] = Operation::new(7, MemoryType::AbsoluteX, CPUInstByte::Three(Inst3Byte::ASLop));

    oper_counter += 5;

    all_operations[0x4A] = Operation::new(2, MemoryType::Accumulator, CPUInstByte::One(Inst1Byte::LSRop));
    all_operations[0x46] = Operation::new(5, MemoryType::ZeroPage, CPUInstByte::Two(Inst2Byte::LSRop));
    all_operations[0x56] = Operation::new(6, MemoryType::ZeroPageX, CPUInstByte::Two(Inst2Byte::LSRop));
    all_operations[0x4E] = Operation::new(6, MemoryType::Absolute, CPUInstByte::Three(Inst3Byte::LSRop));
    all_operations[0x5E] = Operation::new(7, MemoryType::AbsoluteX, CPUInstByte::Three(Inst3Byte::LSRop));

    oper_counter += 5;

    all_operations[0x2A] = Operation::new(2, MemoryType::Accumulator, CPUInstByte::One(Inst1Byte::ROLop));
    all_operations[0x26] = Operation::new(5, MemoryType::ZeroPage, CPUInstByte::Two(Inst2Byte::ROLop));
    all_operations[0x36] = Operation::new(6, MemoryType::ZeroPageX, CPUInstByte::Two(Inst2Byte::ROLop));
    all_operations[0x2E] = Operation::new(6, MemoryType::Absolute, CPUInstByte::Three(Inst3Byte::ROLop));
    all_operations[0x3E] = Operation::new(7, MemoryType::AbsoluteX, CPUInstByte::Three(Inst3Byte::ROLop));

    oper_counter += 5;

    all_operations[0x6A] = Operation::new(2, MemoryType::Accumulator, CPUInstByte::One(Inst1Byte::RORop));
    all_operations[0x66] = Operation::new(5, MemoryType::ZeroPage, CPUInstByte::Two(Inst2Byte::RORop));
    all_operations[0x76] = Operation::new(6, MemoryType::ZeroPageX, CPUInstByte::Two(Inst2Byte::RORop));
    all_operations[0x6E] = Operation::new(6, MemoryType::Absolute, CPUInstByte::Three(Inst3Byte::RORop));
    all_operations[0x7E] = Operation::new(7, MemoryType::AbsoluteX, CPUInstByte::Three(Inst3Byte::RORop));

    oper_counter += 5;

    oper_counter
}

fn fill_jumps_branches_flags_system(all_operations: &mut Vec<Operation>) -> (n: usize)
    requires
        old(all_operations)@.len() == 256,
    ensures
        final(all_operations)@.len() == 256,
        n == 22,
        forall|k: int|
            0 <= k < 256 ==> final(all_operations)@[k] == (if spec_jumps_branches_flags_system_owns(k) {
                spec_jumps_branches_flags_system_descriptor(k)
            } else {
                old(all_operations)@[k]
            }),
{
    let mut oper_counter: usize = 0;
    // Jumps and calls: JMP, JSR, RTS
    all_operations[0x4C] = Operation::new(3, MemoryType::Absolute, CPUInstByte::Three(Inst3Byte::JMPop));
    all_operations[0x6C] = Operation::new(5, MemoryType::Indirect, CPUInstByte::Three(Inst3Byte::JMPop));

    oper_counter += 2;

    all_operations[0x20] = Operation::new(6, MemoryType::Absolute, CPUInstByte::Three(Inst3Byte::JSRop));
    all_operations[0x60] = Operation::new(6, MemoryType::Implied, CPUInstByte::One(Inst1Byte::RTSop));

    oper_counter += 2;

    // Branches: BCC, BCS, BEQ, BMI, BNE, BPL, BVC, BVS
    all_operations[0x90] = Operation::new(2, MemoryType::Relative, CPUInstByte::Two(Inst2Byte::BCCop));
    all_operations[0xB0] = Operation::new(2, MemoryType::Relative, CPUInstByte::Two(Inst2Byte::BCSop));
    all_operations[0xF0] = Operation::new(2, MemoryType::Relative, CPUInstByte::Two(Inst2Byte::BEQop));
    all_operations[0x30] = Operation::new(2, MemoryType::Relative, CPUInstByte::Two(Inst2Byte::BMIop));
    all_operations[0xD0] = Operation::new(2, MemoryType::Relative, CPUInstByte::Two(Inst2Byte::BNEop));
    all_operations[0x10] = Operation::new(2, MemoryType::Relative, CPUInstByte::Two(Inst2Byte::BPLop));
    all_operations[0x50] = Operation::new(2, MemoryType::Relative, CPUInstByte::Two(Inst2Byte::BVCop));
    all_operations[0x70] = Operation::new(2, MemoryType::Relative, CPUInstByte::Two(Inst2Byte::BVSop));

    oper_counter += 8;

    // Status flag changes: CLC, CLD, CLI, CLV, SEC, SED, SEI
    all_operations[0x18] = Operation::new(2, MemoryType::Implied, CPUInstByte::One(Inst1Byte::CLCop));
    all_operations[0xD8] = Operation::new(2, MemoryType::Implied, CPUInstByte::One(Inst1Byte::CLDop));
    all_operations[0x58] = Operation::new(2, MemoryType::Implied, CPUInstByte::One(Inst1Byte::CLIop));
    all_operations[0xB8] = Operation::new(2, MemoryType::Implied, CPUInstByte::One(Inst1Byte::CLVop));
    all_operations[0x38] = Operation::new(2, MemoryType::Implied, CPUInstByte::One(Inst1Byte::SECop));
    all_operations[0xF8] = Operation::new(2, MemoryType::Implied, CPUInstByte::One(Inst1Byte::SEDop));
    all_operations[0x78] = Operation::new(2, MemoryType::Implied, CPUInstByte::One(Inst1Byte::SEIop));

    oper_counter += 7;

    // System functions: BRK, NOP, RTI
    all_operations[0x00] = Operation::new(7, MemoryType::Implied, CPUInstByte::One(Inst1Byte::BRKop));
    all_operations[0xEA] = Operation::new(2, MemoryType::Implied, CPUInstByte::One(Inst1Byte::NOPop));
    all_operations[0x40] = Operation::new(6, MemoryType::Implied, CPUInstByte::One(Inst1Byte::RTIop));

    oper_counter += 3;

    oper_counter
}

fn fill_unofficial_combined(all_operations: &mut Vec<Operation>) -> (n: usize)
    requires
        old(all_operations)@.len() == 256,
    ensures
        final(all_operations)@.len() == 256,
        n == 14,
        forall|k: int|
            0 <= k < 256 ==> final(all_operations)@[k] == (if spec_unofficial_combined_owns(k) {
                spec_unofficial_combined_descriptor(k)
            } else {
                old(all_operations)@[k]
            }),
{
    let mut oper_counter: usize = 0;
    // Unofficial combined operations: ALR, ANC, ARR, AXS
    all_operations[0x4B] = Operation::new(2, MemoryType::Immediate, CPUInstByte::Two(Inst2Byte::ALRop));
    all_operations[0x0B] = Operation::new(2, MemoryType::Immediate, CPUInstByte::Two(Inst2Byte::ANCop));
    all_operations[0x6B] = Operation::new(2, MemoryType::Immediate, CPUInstByte::Two(Inst2Byte::ARRop));
    all_operations[0xCB] = Operation::new(2, MemoryType::Immediate, CPUInstByte::Two(Inst2Byte::AXSop));

    oper_counter += 4;

    // LAX operations
    all_operations[0xA7] = Operation::new(3, MemoryType::ZeroPage, CPUInstByte::Two(Inst2Byte::LAXop));
    all_operations[0xB7] = Operation::new(4, MemoryType::ZeroPageY, CPUInstByte::Two(Inst2Byte::LAXop));
    all_operations[0xAF] = Operation::new(4, MemoryType::Absolute, CPUInstByte::Three(Inst3Byte::LAXop));
    all_operations[0xBF] = Operation::new(4, MemoryType::AbsoluteY, CPUInstByte::Three(Inst3Byte::LAXop));
    all_operations[0xA3] = Operation::new(6, MemoryType::IndirectX, CPUInstByte::Two(Inst2Byte::LAXop));
    all_operations[0xB3] = Operation::new(5, MemoryType::IndirectY, CPUInstByte::Two(Inst2Byte::LAXop));

    oper_counter += 6;

    // SAX operations
    all_operations[0x87] = Operation::new(3, MemoryType::ZeroPage, CPUInstByte::Two(Inst2Byte::SAXop));
    all_operations[0x97] = Operation::new(4, MemoryType::ZeroPageY, CPUInstByte::Two(Inst2Byte::SAXop));
    all_operations[0x83] = Operation::new(6, MemoryType::IndirectX, CPUInstByte::Two(Inst2Byte::SAXop));
    all_operations[0x8F] = Operation::new(4, MemoryType::Absolute, CPUInstByte::Three(Inst3Byte::SAXop));

    oper_counter += 4;

    oper_counter
}

fn fill_unofficial_rmw(all_operations: &mut Vec<Operation>) -> (n: usize)
    requires
        old(all_operations)@.len() == 256,
    ensures
        final(all_operations)@.len() == 256,
        n == 42,
        forall|k: int|
            0 <= k < 256 ==> final(all_operations)@[k] == (if spec_unofficial_rmw_owns(k) {
                spec_unofficial_rmw_descriptor(k)
            } else {
                old(all_operations)@[k]
            }),
{
    let mut oper_counter: usize = 0;
    // Unofficial read-modify-write operations: DCP, ISC, RLA, RRA, SLO, SRE
    all_operations[0xC7] = Operation::new(5, MemoryType::ZeroPage, CPUInstByte::Two(Inst2Byte::DCPop));
    all_operations[0xD7] = Operation::new(6, MemoryType::ZeroPageX, CPUInstByte::Two(Inst2Byte::DCPop));
    all_operations[0xCF] = Operation::new(6, MemoryType::Absolute, CPUInstByte::Three(Inst3Byte::DCPop));
    all_operations[0xDF] = Operation::new(7, MemoryType::AbsoluteX, CPUInstByte::Three(Inst3Byte::DCPop));
    all_operations[0xDB] = Operation::new(7, MemoryType::AbsoluteY, CPUInstByte::Three(Inst3Byte::DCPop));
    all_operations[0xC3] = Operation::new(8, MemoryType::IndirectX, CPUInstByte::Two(Inst2Byte::DCPop));
    all_operations[0xD3] = Operation::new(8, MemoryType::IndirectY, CPUInstByte::Two(Inst2Byte::DCPop));

    oper_counter += 7;

    all_operations[0xE7] = Operation::new(5, MemoryType::ZeroPage, CPUInstByte::Two(Inst2Byte::ISCop));
    all_operations[0xF7] = Operation::new(6, MemoryType::ZeroPageX, CPUInstByte::Two(Inst2Byte::ISCop));
    all_operations[0xEF] = Operation::new(6, MemoryType::Absolute, CPUInstByte::Three(Inst3Byte::ISCop));
    all_operations[0xFF] = Operation::new(7, MemoryType::AbsoluteX, CPUInstByte::Three(Inst3Byte::ISCop));
    all_operations[0xFB] = Operation::new(7, MemoryType::AbsoluteY, CPUInstByte::Three(Inst3Byte::ISCop));
    all_operations[0xE3] = Operation::new(8, MemoryType::IndirectX, CPUInstByte::Two(Inst2Byte::ISCop));
    all_operations[0xF3] = Operation::new(8, MemoryType::IndirectY, CPUInstByte::Two(Inst2Byte::ISCop));

    oper_counter += 7;

    all_operations[0x27] = Operation::new(5, MemoryType::ZeroPage, CPUInstByte::Two(Inst2Byte::RLAop));
    all_operations[0x37] = Operation::new(6, MemoryType::ZeroPageX, CPUInstByte::Two(Inst2Byte::RLAop));
    all_operations[0x2F] = Operation::new(6, MemoryType::Absolute, CPUInstByte::Three(Inst3Byte::RLAop));
    all_operations[0x3F] = Operation::new(7, MemoryType::AbsoluteX, CPUInstByte::Three(Inst3Byte::RLAop));
    all_operations[0x3B] = Operation::new(7, MemoryType::AbsoluteY, CPUInstByte::Three(Inst3Byte::RLAop));
    all_operations[0x23] = Operation::new(8, MemoryType::IndirectX, CPUInstByte::Two(Inst2Byte::RLAop));
    all_operations[0x33] = Operation::new(8, MemoryType::IndirectY, CPUInstByte::Two(Inst2Byte::RLAop));

    oper_counter += 7;

    all_operations[0x67] = Operation::new(5, MemoryType::ZeroPage, CPUInstByte::Two(Inst2Byte::RRAop));
    all_operations[0x77] = Operation::new(6, MemoryType::ZeroPageX, CPUInstByte::Two(Inst2Byte::RRAop));
    all_operations[0x6F] = Operation::new(6, MemoryType::Absolute, CPUInstByte::Three(Inst3Byte::RRAop));
    all_operations[0x7F] = Operation::new(7, MemoryType::AbsoluteX, CPUInstByte::Three(Inst3Byte::RRAop));
    all_operations[0x7B] = Operation::new(7, MemoryType::AbsoluteY, CPUInstByte::Three(Inst3Byte::RRAop));
    all_operations[0x63] = Operation::new(8, MemoryType::IndirectX, CPUInstByte::Two(Inst2Byte::RRAop));
    all_operations[0x73] = Operation::new(8, MemoryType::IndirectY, CPUInstByte::Two(Inst2Byte::RRAop));

    oper_counter += 7;

    all_operations[0x07] = Operation::new(5, MemoryType::ZeroPage, CPUInstByte::Two(Inst2Byte::SLOop));
    all_operations[0x17] = Operation::new(6, MemoryType::ZeroPageX, CPUInstByte::Two(Inst2Byte::SLOop));
    all_operations[0x0F] = Operation::new(6, MemoryType::Absolute, CPUInstByte::Three(Inst3Byte::SLOop));
    all_operations[0x1F] = Operation::new(7, MemoryType::AbsoluteX, CPUInstByte::Three(Inst3Byte::SLOop));
    all_operations[0x1B] = Operation::new(7, MemoryType::AbsoluteY, CPUInstByte::Three(Inst3Byte::SLOop));
    all_operations[0x03] = Operation::new(8, MemoryType::IndirectX, CPUInstByte::Two(Inst2Byte::SLOop));
    all_operations[0x13] = Operation::new(8, MemoryType::IndirectY, CPUInstByte::Two(Inst2Byte::SLOop));

    oper_counter += 7;

    all_operations[0x47] = Operation::new(5, MemoryType::ZeroPage, CPUInstByte::Two(Inst2Byte::SREop));
    all_operations[0x57] = Operation::new(6, MemoryType::ZeroPageX, CPUInstByte::Two(Inst2Byte::SREop));
    all_operations[0x4F] = Operation::new(6, MemoryType::Absolute, CPUInstByte::Three(Inst3Byte::SREop));
    all_operations[0x5F] = Operation::new(7, MemoryType::AbsoluteX, CPUInstByte::Three(Inst3Byte::SREop));
    all_operations[0x5B] = Operation::new(7, MemoryType::AbsoluteY, CPUInstByte::Three(Inst3Byte::SREop));
    all_operations[0x43] = Operation::new(8, MemoryType::IndirectX, CPUInstByte::Two(Inst2Byte::SREop));
    all_operations[0x53] = Operation::new(8, MemoryType::IndirectY, CPUInstByte::Two(Inst2Byte::SREop));

    oper_counter += 7;

    oper_counter
}

fn fill_duplicates_and_stp(all_operations: &mut Vec<Operation>) -> (n: usize)
    requires
        old(all_operations)@.len() == 256,
        old(all_operations)@[0xEA] == spec_jumps_branches_flags_system_descriptor(0xEA),
    ensures
        final(all_operations)@.len() == 256,
        n == 42,
        forall|k: int|
            0 <= k < 256 ==> final(all_operations)@[k] == (if spec_duplicates_and_stp_owns(k) {
                spec_duplicates_and_stp_descriptor(k)
            } else {
                old(all_operations)@[k]
            }),
{
    let mut oper_counter: usize = 0;
    // Duplicate SBC encoding
    all_operations[0xEB] = Operation::new(2, MemoryType::Immediate, CPUInstByte::Two(Inst2Byte::SBCop));
    oper_counter += 1;

    // SHX and SHY with their hardwired addressing modes
    all_operations[0x9E] = Operation::new(5, MemoryType::AbsoluteY, CPUInstByte::Three(Inst3Byte::SHXop));
    all_operations[0x9C] = Operation::new(5, MemoryType::AbsoluteX, CPUInstByte::Three(Inst3Byte::SHYop));
    oper_counter += 2;

    // Duplicate NOP encodings, implied mode
    let nop_implied = all_operations[0xEA];
    all_operations[0x1A] = nop_implied;
    all_operations[0x3A] = nop_implied;
    all_operations[0x5A] = nop_implied;
    all_operations[0x7A] = nop_implied;
    all_operations[0xDA] = nop_implied;
    all_operations[0xFA] = nop_implied;
    oper_counter += 6;

    // Duplicate NOP encodings, immediate mode
    all_operations[0x80] = Operation::new(2, MemoryType::Immediate, CPUInstByte::Two(Inst2Byte::NOPop));
    all_operations[0x82] = Operation::new(2, MemoryType::Immediate, CPUInstByte::Two(Inst2Byte::NOPop));
    all_operations[0x89] = Operation::new(2, MemoryType::Immediate, CPUInstByte::Two(Inst2Byte::NOPop));
    all_operations[0xC2] = Operation::new(2, MemoryType::Immediate, CPUInstByte::Two(Inst2Byte::NOPop));
    all_operations[0xE2] = Operation::new(2, MemoryType::Immediate, CPUInstByte::Two(Inst2Byte::NOPop));
    oper_counter += 5;

    // Duplicate NOP encodings, absolute modes
    all_operations[0x0C] = Operation::new(4, MemoryType::Absolute, CPUInstByte::Three(Inst3Byte::NOPop));
    all_operations[0x1C] = Operation::new(4, MemoryType::AbsoluteX, CPUInstByte::Three(Inst3Byte::NOPop));
    let nop_absolute_x = all_operations[0x1C];
    all_operations[0x3C] = nop_absolute_x;
    all_operations[0x5C] = nop_absolute_x;
    all_operations[0x7C] = nop_absolute_x;
    all_operations[0xDC] = nop_absolute_x;
    all_operations[0xFC] = nop_absolute_x;
    oper_counter += 7;

    // Duplicate NOP encodings, zero-page mode
    all_operations[0x04] = Operation::new(3, MemoryType::ZeroPage, CPUInstByte::Two(Inst2Byte::NOPop));
    let nop_zero_page = all_operations[0x04];
    all_operations[0x44] = nop_zero_page;
    all_operations[0x64] = nop_zero_page;
    oper_counter += 3;

    // Duplicate NOP encodings, zero-page-X mode
    all_operations[0x14] = Operation::new(4, MemoryType::ZeroPageX, CPUInstByte::Two(Inst2Byte::NOPop));
    let nop_zero_page_x = all_operations[0x14];
    all_operations[0x34] = nop_zero_page_x;
    all_operations[0x54] = nop_zero_page_x;
    all_operations[0x74] = nop_zero_page_x;
    all_operations[0xD4] = nop_zero_page_x;
    all_operations[0xF4] = nop_zero_page_x;
    oper_counter += 6;

    // STP family: every one of these encodings halts the engine
    all_operations[0x02] = Operation::new(0, MemoryType::Implied, CPUInstByte::One(Inst1Byte::STPop));
    let stp_implied = all_operations[0x02];
    all_operations[0x12] = stp_implied;
    all_operations[0x22] = stp_implied;
    all_operations[0x32] = stp_implied;
    all_operations[0x42] = stp_implied;
    all_operations[0x52] = stp_implied;
    all_operations[0x62] = stp_implied;
    all_operations[0x72] = stp_implied;
    all_operations[0x92] = stp_implied;
    all_operations[0xB2] = stp_implied;
    all_operations[0xD2] = stp_implied;
    all_operations[0xF2] = stp_implied;

    oper_counter += 12;

    oper_counter
}


/// The engine state after dispatching a one-byte instruction's handler.
#[verifier::opaque]
pub open spec fn spec_execute_inst_1_byte(cpu: Cpu, bus: Bus, now_inst: Inst1Byte) -> (Cpu, Bus) {
    match now_inst {
        Inst1Byte::TAXop => (spec_op_tax(cpu), bus),
        Inst1Byte::TAYop => (spec_op_tay(cpu), bus),
        Inst1Byte::TXAop => (spec_op_txa(cpu), bus),
        Inst1Byte::TYAop => (spec_op_tya(cpu), bus),
        Inst1Byte::TSXop => (spec_op_tsx(cpu), bus),
        Inst1Byte::TXSop => (spec_op_txs(cpu), bus),
        Inst1Byte::PHAop => spec_op_pha(cpu, bus),
        Inst1Byte::PHPop => spec_op_php(cpu, bus),
        Inst1Byte::PLAop => (spec_op_pla(cpu, bus), bus),
        Inst1Byte::PLPop => (spec_op_plp(cpu, bus), bus),
        Inst1Byte::INXop => (spec_op_inx(cpu), bus),
        Inst1Byte::INYop => (spec_op_iny(cpu), bus),
        Inst1Byte::DEXop => (spec_op_dex(cpu), bus),
        Inst1Byte::DEYop => (spec_op_dey(cpu), bus),
        Inst1Byte::ASLop => (spec_op_asl_acc(cpu), bus),
        Inst1Byte::LSRop => (spec_op_lsr_acc(cpu), bus),
        Inst1Byte::ROLop => (spec_op_rol_acc(cpu), bus),
        Inst1Byte::RORop => (spec_op_ror_acc(cpu), bus),
        Inst1Byte::RTSop => (spec_op_rts(cpu, bus), bus),
        Inst1Byte::CLCop => (spec_op_flag_change(cpu, CARRY_FLAG, false), bus),
        Inst1Byte::CLDop => (spec_op_flag_change(cpu, DECIMAL_FLAG, false), bus),
        Inst1Byte::CLIop => (spec_op_flag_change(cpu, INTERRUPT_FLAG, false), bus),
        Inst1Byte::CLVop => (spec_op_flag_change(cpu, OVERFLOW_FLAG, false), bus),
        Inst1Byte::SECop => (spec_op_flag_change(cpu, CARRY_FLAG, true), bus),
        Inst1Byte::SEDop => (spec_op_flag_change(cpu, DECIMAL_FLAG, true), bus),
        Inst1Byte::SEIop => (spec_op_flag_change(cpu, INTERRUPT_FLAG, true), bus),
        Inst1Byte::BRKop => spec_op_brk(cpu, bus),
        Inst1Byte::NOPop => (cpu, bus),
        Inst1Byte::RTIop => (spec_op_rti(cpu, bus), bus),
        Inst1Byte::STPop => (spec_op_stp(cpu), bus),
    }
}

/// The engine state after dispatching a two-byte instruction's handler on
/// its resolved address.
#[verifier::opaque]
pub open spec fn spec_execute_inst_2_byte(cpu: Cpu, bus: Bus, now_inst: Inst2Byte, data_ref: u16) -> (Cpu, Bus) {
    match now_inst {
        Inst2Byte::LDAop => spec_op_lda(cpu, bus, data_ref),
        Inst2Byte::LDXop => spec_op_ldx(cpu, bus, data_ref),
        Inst2Byte::LDYop => spec_op_ldy(cpu, bus, data_ref),
        Inst2Byte::STAop => spec_op_sta(cpu, bus, data_ref),
        Inst2Byte::STXop => spec_op_stx(cpu, bus, data_ref),
        Inst2Byte::STYop => spec_op_sty(cpu, bus, data_ref),
        Inst2Byte::ANDop => spec_op_and(cpu, bus, data_ref),
        Inst2Byte::EORop => spec_op_eor(cpu, bus, data_ref),
        Inst2Byte::ORAop => spec_op_ora(cpu, bus, data_ref),
        Inst2Byte::BITop => spec_op_bit(cpu, bus, data_ref),
        Inst2Byte::ADCop => spec_op_adc(cpu, bus, data_ref),
        Inst2Byte::SBCop => spec_op_sbc(cpu, bus, data_ref),
        Inst2Byte::CMPop => spec_op_cmp(cpu, bus, data_ref),
        Inst2Byte::CPXop => spec_op_cpx(cpu, bus, data_ref),
        Inst2Byte::CPYop => spec_op_cpy(cpu, bus, data_ref),
        Inst2Byte::INCop => spec_op_inc(cpu, bus, data_ref),
        Inst2Byte::DECop => spec_op_dec(cpu, bus, data_ref),
        Inst2Byte::ASLop => spec_op_asl(cpu, bus, data_ref),
        Inst2Byte::LSRop => spec_op_lsr(cpu, bus, data_ref),
        Inst2Byte::ROLop => spec_op_rol(cpu, bus, data_ref),
        Inst2Byte::RORop => spec_op_ror(cpu, bus, data_ref),
        Inst2Byte::BCCop => spec_op_branch(cpu, bus, data_ref, CARRY_FLAG, false),
        Inst2Byte::BCSop => spec_op_branch(cpu, bus, data_ref, CARRY_FLAG, true),
        Inst2Byte::BEQop => spec_op_branch(cpu, bus, data_ref, ZERO_FLAG, true),
        Inst2Byte::BMIop => spec_op_branch(cpu, bus, data_ref, NEGATIVE_FLAG, true),
        Inst2Byte::BNEop => spec_op_branch(cpu, bus, data_ref, ZERO_FLAG, false),
        Inst2Byte::BPLop => spec_op_branch(cpu, bus, data_ref, NEGATIVE_FLAG, false),
        Inst2Byte::BVCop => spec_op_branch(cpu, bus, data_ref, OVERFLOW_FLAG, false),
        Inst2Byte::BVSop => spec_op_branch(cpu, bus, data_ref, OVERFLOW_FLAG, true),
        Inst2Byte::ALRop => spec_op_alr(cpu, bus, data_ref),
        Inst2Byte::ANCop => spec_op_anc(cpu, bus, data_ref),
        Inst2Byte::ARRop => spec_op_arr(cpu, bus, data_ref),
        Inst2Byte::AXSop => spec_op_axs(cpu, bus, data_ref),
        Inst2Byte::LAXop => spec_op_lax(cpu, bus, data_ref),
        Inst2Byte::SAXop => spec_op_sax(cpu, bus, data_ref),
        Inst2Byte::DCPop => spec_op_dcp(cpu, bus, data_ref),
        Inst2Byte::ISCop => spec_op_isc(cpu, bus, data_ref),
        Inst2Byte::RLAop => spec_op_rla(cpu, bus, data_ref),
        Inst2Byte::RRAop => spec_op_rra(cpu, bus, data_ref),
        Inst2Byte::SLOop => spec_op_slo(cpu, bus, data_ref),
        Inst2Byte::SREop => spec_op_sre(cpu, bus, data_ref),
        Inst2Byte::NOPop => (cpu, bus),
    }
}

/// The engine state after dispatching a three-byte instruction's handler on
/// its resolved address.
#[verifier::opaque]
pub open spec fn spec_execute_inst_3_byte(cpu: Cpu, bus: Bus, now_inst: Inst3Byte, target_memory: u16) -> (Cpu, Bus) {
    match now_inst {
        Inst3Byte::LDAop => spec_op_lda(cpu, bus, target_memory),
        Inst3Byte::LDXop => spec_op_ldx(cpu, bus, target_memory),
        Inst3Byte::LDYop => spec_op_ldy(cpu, bus, target_memory),
        Inst3Byte::STAop => spec_op_sta(cpu, bus, target_memory),
        Inst3Byte::STXop => spec_op_stx(cpu, bus, target_memory),
        Inst3Byte::STYop => spec_op_sty(cpu, bus, target_memory),
        Inst3Byte::ANDop => spec_op_and(cpu, bus, target_memory),
        Inst3Byte::EORop => spec_op_eor(cpu, bus, target_memory),
        Inst3Byte::ORAop => spec_op_ora(cpu, bus, target_memory),
        Inst3Byte::BITop => spec_op_bit(cpu, bus, target_memory),
        Inst3Byte::ADCop => spec_op_adc(cpu, bus, target_memory),
        Inst3Byte::SBCop => spec_op_sbc(cpu, bus, target_memory),
        Inst3Byte::CMPop => spec_op_cmp(cpu, bus, target_memory),
        Inst3Byte::CPXop => spec_op_cpx(cpu, bus, target_memory),
        Inst3Byte::CPYop => spec_op_cpy(cpu, bus, target_memory),
        Inst3Byte::INCop => spec_op_inc(cpu, bus, target_memory),
        Inst3Byte::DECop => spec_op_dec(cpu, bus, target_memory),
        Inst3Byte::ASLop => spec_op_asl(cpu, bus, target_memory),
        Inst3Byte::LSRop => spec_op_lsr(cpu, bus, target_memory),
        Inst3Byte::ROLop => spec_op_rol(cpu, bus, target_memory),
        Inst3Byte::RORop => spec_op_ror(cpu, bus, target_memory),
        Inst3Byte::JMPop => (spec_op_jmp(cpu, target_memory), bus),
        Inst3Byte::JSRop => spec_op_jsr(cpu, bus, target_memory),
        Inst3Byte::LAXop => spec_op_lax(cpu, bus, target_memory),
        Inst3Byte::SAXop => spec_op_sax(cpu, bus, target_memory),
        Inst3Byte::DCPop => spec_op_dcp(cpu, bus, target_memory),
        Inst3Byte::ISCop => spec_op_isc(cpu, bus, target_memory),
        Inst3Byte::RLAop => spec_op_rla(cpu, bus, target_memory),
        Inst3Byte::RRAop => spec_op_rra(cpu, bus, target_memory),
        Inst3Byte::SLOop => spec_op_slo(cpu, bus, target_memory),
        Inst3Byte::SREop => spec_op_sre(cpu, bus, target_memory),
        Inst3Byte::SHXop => spec_op_shx(cpu, bus, target_memory),
        Inst3Byte::SHYop => spec_op_shy(cpu, bus, target_memory),
        Inst3Byte::NOPop => (cpu, bus),
    }
}

impl Cpu {
    /// Dispatches a one-byte instruction to its handler.
    pub fn execute_inst_1_byte(&mut self, now_inst: Inst1Byte, bus: &mut Bus)
        requires
            now_inst is BRKop ==> old(bus).cart_ready(),
        ensures
            (*final(self), *final(bus)) == spec_execute_inst_1_byte(*old(self), *old(bus), now_inst),
            final(self).instruction_set == old(self).instruction_set,
            final(bus).mapper == old(bus).mapper,
    {
        proof {
            reveal(spec_execute_inst_1_byte);
        }
        match now_inst {
            Inst1Byte::TAXop => self.op_tax(),
            Inst1Byte::TAYop => self.op_tay(),
            Inst1Byte::TXAop => self.op_txa(),
            Inst1Byte::TYAop => self.op_tya(),
            Inst1Byte::TSXop => self.op_tsx(),
            Inst1Byte::TXSop => self.op_txs(),
            Inst1Byte::PHAop => self.op_pha(bus),
            Inst1Byte::PHPop => self.op_php(bus),
            Inst1Byte::PLAop => self.op_pla(bus),
            Inst1Byte::PLPop => self.op_plp(bus),
            Inst1Byte::INXop => self.op_inx(),
            Inst1Byte::INYop => self.op_iny(),
            Inst1Byte::DEXop => self.op_dex(),
            Inst1Byte::DEYop => self.op_dey(),
            Inst1Byte::ASLop => self.op_asl_acc(),
            Inst1Byte::LSRop => self.op_lsr_acc(),
            Inst1Byte::ROLop => self.op_rol_acc(),
            Inst1Byte::RORop => self.op_ror_acc(),
            Inst1Byte::RTSop => self.op_rts(bus),
            Inst1Byte::CLCop => self.op_clc(),
            Inst1Byte::CLDop => self.op_cld(),
            Inst1Byte::CLIop => self.op_cli(),
            Inst1Byte::CLVop => self.op_clv(),
            Inst1Byte::SECop => self.op_sec(),
            Inst1Byte::SEDop => self.op_sed(),
            Inst1Byte::SEIop => self.op_sei(),
            Inst1Byte::BRKop => self.op_brk(bus),
            Inst1Byte::NOPop => self.op_nop(),
            Inst1Byte::RTIop => self.op_rti(bus),
            Inst1Byte::STPop => self.op_stp(),
        }
    }

    /// Dispatches a two-byte instruction to its handler on the resolved
    /// address.
    pub fn execute_inst_2_byte(&mut self, bus: &mut Bus, now_inst: Inst2Byte, data_ref: u16)
        requires
            data_ref >= SRAM_START ==> old(bus).cart_ready(),
        ensures
            (*final(self), *final(bus)) == spec_execute_inst_2_byte(*old(self), *old(bus), now_inst, data_ref),
            final(self).instruction_set == old(self).instruction_set,
            final(bus).mapper == old(bus).mapper,
    {
        proof {
            reveal(spec_execute_inst_2_byte);
        }
        match now_inst {
            Inst2Byte::LDAop => self.op_lda(bus, data_ref),
            Inst2Byte::LDXop => self.op_ldx(bus, data_ref),
            Inst2Byte::LDYop => self.op_ldy(bus, data_ref),
            Inst2Byte::STAop => self.op_sta(bus, data_ref),
            Inst2Byte::STXop => self.op_stx(bus, data_ref),
            Inst2Byte::STYop => self.op_sty(bus, data_ref),
            Inst2Byte::ANDop => self.op_and(bus, data_ref),
            Inst2Byte::EORop => self.op_eor(bus, data_ref),
            Inst2Byte::ORAop => self.op_ora(bus, data_ref),
            Inst2Byte::BITop => self.op_bit(bus, data_ref),
            Inst2Byte::ADCop => self.op_adc(bus, data_ref),
            Inst2Byte::SBCop => self.op_sbc(bus, data_ref),
            Inst2Byte::CMPop => self.op_cmp(bus, data_ref),
            Inst2Byte::CPXop => self.op_cpx(bus, data_ref),
            Inst2Byte::CPYop => self.op_cpy(bus, data_ref),
            Inst2Byte::INCop => self.op_inc(bus, data_ref),
            Inst2Byte::DECop => self.op_dec(bus, data_ref),
            Inst2Byte::ASLop => self.op_asl(bus, data_ref),
            Inst2Byte::LSRop => self.op_lsr(bus, data_ref),
            Inst2Byte::ROLop => self.op_rol(bus, data_ref),
            Inst2Byte::RORop => self.op_ror(bus, data_ref),
            Inst2Byte::BCCop => self.op_bcc(bus, data_ref),
            Inst2Byte::BCSop => self.op_bcs(bus, data_ref),
            Inst2Byte::BEQop => self.op_beq(bus, data_ref),
            Inst2Byte::BMIop => self.op_bmi(bus, data_ref),
            Inst2Byte::BNEop => self.op_bne(bus, data_ref),
            Inst2Byte::BPLop => self.op_bpl(bus, data_ref),
            Inst2Byte::BVCop => self.op_bvc(bus, data_ref),
            Inst2Byte::BVSop => self.op_bvs(bus, data_ref),
            Inst2Byte::ALRop => self.op_alr(bus, data_ref),
            Inst2Byte::ANCop => self.op_anc(bus, data_ref),
            Inst2Byte::ARRop => self.op_arr(bus, data_ref),
            Inst2Byte::AXSop => self.op_axs(bus, data_ref),
            Inst2Byte::LAXop => self.op_lax(bus, data_ref),
            Inst2Byte::SAXop => self.op_sax(bus, data_ref),
            Inst2Byte::DCPop => self.op_dcp(bus, data_ref),
            Inst2Byte::ISCop => self.op_isc(bus, data_ref),
            Inst2Byte::RLAop => self.op_rla(bus, data_ref),
            Inst2Byte::RRAop => self.op_rra(bus, data_ref),
            Inst2Byte::SLOop => self.op_slo(bus, data_ref),
            Inst2Byte::SREop => self.op_sre(bus, data_ref),
            Inst2Byte::NOPop => self.op_nop(),
        }
    }

    /// Dispatches a three-byte instruction to its handler on the resolved
    /// address.
    pub fn execute_inst_3_byte(&mut self, bus: &mut Bus, now_inst: Inst3Byte, target_memory: u16)
        requires
            target_memory >= SRAM_START ==> old(bus).cart_ready(),
        ensures
            (*final(self), *final(bus)) == spec_execute_inst_3_byte(*old(self), *old(bus), now_inst, target_memory),
            final(self).instruction_set == old(self).instruction_set,
            final(bus).mapper == old(bus).mapper,
    {
        proof {
            reveal(spec_execute_inst_3_byte);
        }
        match now_inst {
            Inst3Byte::LDAop => self.op_lda(bus, target_memory),
            Inst3Byte::LDXop => self.op_ldx(bus, target_memory),
            Inst3Byte::LDYop => self.op_ldy(bus, target_memory),
            Inst3Byte::STAop => self.op_sta(bus, target_memory),
            Inst3Byte::STXop => self.op_stx(bus, target_memory),
            Inst3Byte::STYop => self.op_sty(bus, target_memory),
            Inst3Byte::ANDop => self.op_and(bus, target_memory),
            Inst3Byte::EORop => self.op_eor(bus, target_memory),
            Inst3Byte::ORAop => self.op_ora(bus, target_memory),
            Inst3Byte::BITop => self.op_bit(bus, target_memory),
            Inst3Byte::ADCop => self.op_adc(bus, target_memory),
            Inst3Byte::SBCop => self.op_sbc(bus, target_memory),
            Inst3Byte::CMPop => self.op_cmp(bus, target_memory),
            Inst3Byte::CPXop => self.op_cpx(bus, target_memory),
            Inst3Byte::CPYop => self.op_cpy(bus, target_memory),
            Inst3Byte::INCop => self.op_inc(bus, target_memory),
            Inst3Byte::DECop => self.op_dec(bus, target_memory),
            Inst3Byte::ASLop => self.op_asl(bus, target_memory),
            Inst3Byte::LSRop => self.op_lsr(bus, target_memory),
            Inst3Byte::ROLop => self.op_rol(bus, target_memory),
            Inst3Byte::RORop => self.op_ror(bus, target_memory),
            Inst3Byte::JMPop => self.op_jmp(target_memory),
            Inst3Byte::JSRop => self.op_jsr(bus, target_memory),
            Inst3Byte::LAXop => self.op_lax(bus, target_memory),
            Inst3Byte::SAXop => self.op_sax(bus, target_memory),
            Inst3Byte::DCPop => self.op_dcp(bus, target_memory),
            Inst3Byte::ISCop => self.op_isc(bus, target_memory),
            Inst3Byte::RLAop => self.op_rla(bus, target_memory),
            Inst3Byte::RRAop => self.op_rra(bus, target_memory),
            Inst3Byte::SLOop => self.op_slo(bus, target_memory),
            Inst3Byte::SREop => self.op_sre(bus, target_memory),
            Inst3Byte::SHXop => self.op_shx(bus, target_memory),
            Inst3Byte::SHYop => self.op_shy(bus, target_memory),
            Inst3Byte::NOPop => self.op_nop(),
        }
    }
}

} // verus!
