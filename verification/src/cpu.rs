//! Execution engine: CPU registers, status flags, and the fetch-decode-execute
//! step that drives the operation catalog through the bus.

use vstd::prelude::*;

use crate::bus::Bus;
use crate::cpu::instructions::{
    CPUInstByte, Operation, spec_execute_inst_1_byte, spec_execute_inst_2_byte,
    spec_execute_inst_3_byte,
};
use crate::memory::{MemoryType, SRAM_START, lemma_u8_pair_to_u16};

pub mod instructions;
pub mod shared_ops;
pub mod load_store;
pub mod register_transfer;
pub mod stack_operations;
pub mod logical;
pub mod arithmetic;
pub mod increment_decrement;
pub mod shifts;
pub mod jumps_calls;
pub mod branches;
pub mod status_flag_changes;
pub mod system_functions;
pub mod unofficial_combined;
pub mod unofficial_rmw;
pub mod unofficial_other;

verus! {

// Bit positions of the status flags within the 8-bit status register.
pub const CARRY_FLAG: usize = 0;
pub const ZERO_FLAG: usize = 1;
pub const INTERRUPT_FLAG: usize = 2;
pub const DECIMAL_FLAG: usize = 3;
pub const BREAK_FLAG: usize = 4;
pub const UNUSED_FLAG: usize = 5;
pub const OVERFLOW_FLAG: usize = 6;
pub const NEGATIVE_FLAG: usize = 7;

/// Whether the engine is still willing to execute instructions. `Stopped` is
/// terminal and entered only through the STP/JAM opcode family.
#[derive(Debug, Clone, Copy, PartialEq, Eq, Structural)]
pub enum CpuState {
    Running,
    Stopped,
}

/// The CPU: 8-bit registers A/X/Y, the status bitfield, the 8-bit stack
/// pointer into the fixed stack page, the 16-bit program counter, the
/// immutable 256-entry instruction table, and the engine state.
#[derive(Debug, Clone)]
pub struct Cpu {
    pub reg_a: u8,
    pub reg_x: u8,
    pub reg_y: u8,
    pub cpu_status: u8,
    pub stack_pointer: u8,
    pub program_counter: u16,
    pub instruction_set: Vec<Operation>,
    pub state: CpuState,
    pub exec_cycles: usize,
}

impl Cpu {
    /// The instruction table is complete: one descriptor for each of the 256
    /// opcode slots.
    pub open spec fn wf(&self) -> bool {
        self.instruction_set@.len() == 256
    }
}

impl Default for Cpu {
    /// Power-on state: registers cleared, interrupt-disable and the always-one
    /// status bit set, stack pointer at 0xFD, and the full instruction table.
    fn default() -> (cpu: Cpu)
        ensures
            cpu.wf(),
            cpu.reg_a == 0u8,
            cpu.reg_x == 0u8,
            cpu.reg_y == 0u8,
            cpu.cpu_status == 0b0010_0100u8,
            cpu.stack_pointer == 0xFDu8,
            cpu.program_counter == 0xFFFFu16,
            cpu.state is Running,
            cpu.exec_cycles == 0,
            forall|k: int| 0 <= k < 256 ==> cpu.instruction_set@[k] == instructions::spec_descriptor(k),
    {
        let (instruction_set, _count) = instructions::init_all_operations();
        Cpu {
            reg_a: 0,
            reg_x: 0,
            reg_y: 0,
            cpu_status: 0b0010_0100,
            stack_pointer: 0xFD,
            program_counter: 0xFFFF,
            instruction_set,
            state: CpuState::Running,
            exec_cycles: 0,
        }
    }
}

impl Cpu {
    /// Sets the program counter directly.
    pub fn set_pc(&mut self, exec_pc: u16)
        ensures
            *final(self) == (Cpu { program_counter: exec_pc, ..*old(self) }),
    {
        self.program_counter = exec_pc;
    }

    /// Sets the stack pointer directly.
    pub fn init_sp(&mut self, new_stack_pointer: u8)
        ensures
            *final(self) == (Cpu { stack_pointer: new_stack_pointer, ..*old(self) }),
    {
        self.stack_pointer = new_stack_pointer;
    }

    /// A mutable borrow of the stack pointer, for callers that drive the
    /// stack helpers directly.
    pub fn stack_pointer_mut(&mut self) -> (r: &mut u8)
        ensures
            *r == old(self).stack_pointer,
            *final(self) == (Cpu { stack_pointer: *final(r), ..*old(self) }),
    {
        &mut self.stack_pointer
    }

    pub fn get_registers_state(&self) -> (r: (u8, u8, u8))
        ensures
            r == (self.reg_a, self.reg_x, self.reg_y),
    {
        (self.reg_a, self.reg_x, self.reg_y)
    }

    pub fn get_cpu_status(&self) -> (r: u8)
        ensures
            r == self.cpu_status,
    {
        self.cpu_status
    }

    pub fn get_stack_pointer(&self) -> (r: u8)
        ensures
            r == self.stack_pointer,
    {
        self.stack_pointer
    }

    pub fn get_program_counter(&self) -> (r: u16)
        ensures
            r == self.program_counter,
    {
        self.program_counter
    }
}

/// The value of a little-endian 16-bit read at `addr`: low byte first, then
/// the high byte at `addr + 1` (with 16-bit wraparound), each read applying
/// its bus side effects in order.
pub open spec fn spec_read16_value(bus: Bus, addr: u16) -> u16 {
    let lo = bus.spec_cpu_read_value(addr);
    let bus1 = bus.spec_cpu_read_state(addr);
    let hi = bus1.spec_cpu_read_value(addr.wrapping_add(1));
    (lo + hi * 256) as u16
}

/// The bus state after a little-endian 16-bit read at `addr`.
pub open spec fn spec_read16_state(bus: Bus, addr: u16) -> Bus {
    bus.spec_cpu_read_state(addr).spec_cpu_read_state(addr.wrapping_add(1))
}

/// The value of a 16-bit read honoring the zero-page wraparound quirk: a read
/// at 0x00FF takes its high byte from 0x0000, not 0x0100.
pub open spec fn spec_read16_zp_wrap_value(bus: Bus, addr: u16) -> u16 {
    if addr == 0x00FF {
        (bus.spec_cpu_read_value(0x00FF) + bus.spec_cpu_read_value(0x0000) * 256) as u16
    } else {
        spec_read16_value(bus, addr)
    }
}

/// The value of a 16-bit read honoring the indirect-jump page bug: when the
/// pointer's low byte is 0xFF, the high byte comes from the start of the same
/// page, not the next page.
pub open spec fn spec_read16_jmp_bug_value(bus: Bus, addr: u16) -> u16 {
    if addr & 0x00FF == 0x00FF {
        let hi = bus.spec_cpu_read_value(addr & 0xFF00);
        let bus1 = bus.spec_cpu_read_state(addr & 0xFF00);
        let lo = bus1.spec_cpu_read_value(addr);
        (lo + hi * 256) as u16
    } else {
        spec_read16_value(bus, addr)
    }
}

/// The bus state after a 16-bit read honoring the indirect-jump page bug.
pub open spec fn spec_read16_jmp_bug_state(bus: Bus, addr: u16) -> Bus {
    if addr & 0x00FF == 0x00FF {
        bus.spec_cpu_read_state(addr & 0xFF00).spec_cpu_read_state(addr)
    } else {
        spec_read16_state(bus, addr)
    }
}

impl Cpu {
    #[inline(always)]
    pub fn read_8bit(&mut self, bus: &mut Bus, data_ref: u16) -> (r: u8)
        requires
            data_ref >= SRAM_START ==> old(bus).cart_ready(),
        ensures
            r == old(bus).spec_cpu_read_value(data_ref),
            *final(bus) == old(bus).spec_cpu_read_state(data_ref),
            *final(self) == *old(self),
    {
        bus.read_8bit_cpu(data_ref)
    }

    #[inline(always)]
    pub fn write_8bit(&mut self, bus: &mut Bus, data_ref: u16, data_value: u8)
        requires
            data_ref >= SRAM_START ==> old(bus).cart_ready(),
        ensures
            *final(bus) == old(bus).spec_cpu_write(data_ref, data_value),
            *final(self) == *old(self),
    {
        bus.write_8bit_cpu(data_ref, data_value);
    }

    /// Little-endian 16-bit read: low byte at the address, high byte at the
    /// next address with 16-bit wraparound.
    pub fn read_16bit(&mut self, bus: &mut Bus, requested_address: u16) -> (r: u16)
        requires
            requested_address + 1 >= SRAM_START ==> old(bus).cart_ready(),
        ensures
            r == spec_read16_value(*old(bus), requested_address),
            *final(bus) == spec_read16_state(*old(bus), requested_address),
            *final(self) == *old(self),
    {
        let requested_byte = self.read_8bit(bus, requested_address);
        let next_byte = self.read_8bit(bus, requested_address.wrapping_add(1));

        proof {
            lemma_u8_pair_to_u16(next_byte, requested_byte);
        }
        ((next_byte as u16) << 8) + (requested_byte as u16)
    }

    /// 16-bit read with the zero-page wraparound quirk: reading at 0x00FF
    /// takes the high byte from 0x0000, not 0x0100.
    pub fn read_16bit_zp_wrap(&mut self, bus: &mut Bus, requested_address: u16) -> (r: u16)
        requires
            requested_address != 0x00FF && requested_address + 1 >= SRAM_START ==> old(
                bus,
            ).cart_ready(),
        ensures
            r == spec_read16_zp_wrap_value(*old(bus), requested_address),
            requested_address == 0x00FF ==> *final(bus) == *old(bus),
            requested_address != 0x00FF ==> *final(bus) == spec_read16_state(
                *old(bus),
                requested_address,
            ),
            *final(self) == *old(self),
    {
        if requested_address == 0x00FF {
            let first_byte = self.read_8bit(bus, 0x0000) as u16;
            let second_byte = self.read_8bit(bus, 0x00FF) as u16;
            proof {
                lemma_u8_pair_to_u16(
                    old(bus).spec_cpu_read_value(0x0000),
                    old(bus).spec_cpu_read_value(0x00FF),
                );
            }
            return (first_byte << 8) + second_byte;
        }

        self.read_16bit(bus, requested_address)
    }

    /// 16-bit read with the indirect-jump page bug: when the pointer's low
    /// byte is 0xFF, the high byte of the target comes from the start of the
    /// same page.
    pub fn read_16bit_jmp_bug(&mut self, bus: &mut Bus, requested_address: u16) -> (r: u16)
        requires
            requested_address >= SRAM_START ==> old(bus).cart_ready(),
            (requested_address & 0xFF00) >= SRAM_START ==> old(bus).cart_ready(),
            requested_address + 1 >= SRAM_START ==> old(bus).cart_ready(),
        ensures
            r == spec_read16_jmp_bug_value(*old(bus), requested_address),
            *final(bus) == spec_read16_jmp_bug_state(*old(bus), requested_address),
            *final(self) == *old(self),
    {
        if requested_address & 0x00FF == 0x00FF {
            let page_start = requested_address & 0xFF00;
            proof {
                lemma_page_mask_le(requested_address);
            }
            let first_byte = self.read_8bit(bus, page_start) as u16;
            let second_byte = self.read_8bit(bus, requested_address) as u16;
            proof {
                lemma_u8_pair_to_u16(
                    old(bus).spec_cpu_read_value(requested_address & 0xFF00),
                    old(bus).spec_cpu_read_state(requested_address & 0xFF00).spec_cpu_read_value(
                        requested_address,
                    ),
                );
            }
            return (first_byte << 8) + second_byte;
        }

        self.read_16bit(bus, requested_address)
    }
}

/// Masking an address down to its page start never increases it.
proof fn lemma_page_mask_le(addr: u16)
    by (bit_vector)
    ensures
        (addr & 0xFF00) <= addr,
{
}

/// The effective address that a one-operand-byte addressing mode resolves to,
/// given the operand byte and the register snapshot.
pub open spec fn spec_conv_1byte_address(cpu: Cpu, bus: Bus, mt: MemoryType, value: u8) -> u16 {
    match mt {
        MemoryType::Immediate => cpu.program_counter,
        MemoryType::ZeroPage => value as u16,
        MemoryType::ZeroPageX => value.wrapping_add(cpu.reg_x) as u16,
        MemoryType::ZeroPageY => value.wrapping_add(cpu.reg_y) as u16,
        MemoryType::Relative => cpu.program_counter,
        MemoryType::IndirectX => spec_read16_zp_wrap_value(
            bus,
            value.wrapping_add(cpu.reg_x) as u16,
        ),
        MemoryType::IndirectY => spec_read16_zp_wrap_value(bus, value as u16).wrapping_add(
            cpu.reg_y as u16,
        ),
        _ => 0u16,
    }
}

/// The effective address that a two-operand-byte addressing mode resolves to.
pub open spec fn spec_conv_2byte_address(cpu: Cpu, bus: Bus, mt: MemoryType, value: u16) -> u16 {
    match mt {
        MemoryType::Absolute => value,
        MemoryType::Indirect => spec_read16_jmp_bug_value(bus, value),
        MemoryType::AbsoluteX => value.wrapping_add(cpu.reg_x as u16),
        MemoryType::AbsoluteY => value.wrapping_add(cpu.reg_y as u16),
        _ => 0u16,
    }
}

/// The bus state after a two-operand-byte addressing mode resolves (only the
/// indirect mode reads through the bus).
pub open spec fn spec_conv_2byte_state(bus: Bus, mt: MemoryType, value: u16) -> Bus {
    match mt {
        MemoryType::Indirect => spec_read16_jmp_bug_state(bus, value),
        _ => bus,
    }
}

impl Cpu {
    /// Resolves a one-operand-byte addressing mode to an effective address.
    /// Zero-page indexing wraps at 8 bits; the indirect modes honor the
    /// zero-page wraparound quirk; for immediate and relative modes the
    /// "address" is the current program counter. A mode that carries no
    /// one-byte operand resolves to 0.
    pub fn conv_1byte_address(&mut self, mt: MemoryType, value: u8, bus: &mut Bus) -> (r: u16)
        ensures
            r == spec_conv_1byte_address(*old(self), *old(bus), mt, value),
            *final(bus) == *old(bus),
            *final(self) == *old(self),
    {
        match mt {
            MemoryType::Immediate => self.program_counter,
            MemoryType::ZeroPage => value as u16,
            MemoryType::ZeroPageX => {
                let value = value.wrapping_add(self.reg_x);
                value as u16
            },
            MemoryType::ZeroPageY => {
                let value = value.wrapping_add(self.reg_y);
                value as u16
            },
            MemoryType::Relative => self.program_counter,
            MemoryType::IndirectX => {
                let value = value.wrapping_add(self.reg_x);
                self.read_16bit_zp_wrap(bus, value as u16)
            },
            MemoryType::IndirectY => {
                let value_data = self.read_16bit_zp_wrap(bus, value as u16);
                value_data.wrapping_add(self.reg_y as u16)
            },
            _ => 0,
        }
    }

    /// Resolves a two-operand-byte addressing mode to an effective address.
    /// Absolute indexing wraps at 16 bits; the indirect mode (JMP only)
    /// honors the page bug. A mode that carries no two-byte operand resolves
    /// to 0.
    pub fn conv_2byte_address(&mut self, mt: MemoryType, value: u16, bus: &mut Bus) -> (r: u16)
        requires
            mt is Indirect ==> {
                &&& (value >= SRAM_START ==> old(bus).cart_ready())
                &&& ((value & 0xFF00) >= SRAM_START ==> old(bus).cart_ready())
                &&& (value + 1 >= SRAM_START ==> old(bus).cart_ready())
            },
        ensures
            r == spec_conv_2byte_address(*old(self), *old(bus), mt, value),
            *final(bus) == spec_conv_2byte_state(*old(bus), mt, value),
            *final(self) == *old(self),
    {
        match mt {
            MemoryType::Absolute => value,
            MemoryType::Indirect => self.read_16bit_jmp_bug(bus, value),
            MemoryType::AbsoluteX => value.wrapping_add(self.reg_x as u16),
            MemoryType::AbsoluteY => value.wrapping_add(self.reg_y as u16),
            _ => 0,
        }
    }
}

impl Cpu {
    /// Loads the program counter from the reset vector at 0xFFFC.
    pub fn init_pc(&mut self, bus: &mut Bus)
        requires
            old(bus).cart_ready(),
        ensures
            *final(self) == (Cpu {
                program_counter: spec_read16_value(*old(bus), 0xFFFC),
                ..*old(self)
            }),
            *final(bus) == spec_read16_state(*old(bus), 0xFFFC),
    {
        let exec_pc = self.read_16bit(bus, 0xFFFC);
        self.program_counter = exec_pc;
    }
}

/// Why a step did not complete normally: the opcode decoded to the invalid
/// sentinel (recoverable by caller policy), or the engine was deliberately
/// halted by the STP opcode family.
#[derive(Debug, Clone, Copy, PartialEq, Eq, Structural)]
pub enum CpuStepError {
    IllegalOpcode,
    Stopped,
}

/// Whether to recover from a step error by resetting the program counter
/// (the caller-selected policy baked into `run_cpu`).
pub const RESET_ON_CPU_EXEC_ERR: bool = true;

/// The bookkeeping a completed step performs: the instruction's base cycle
/// cost is added, with wraparound, to the engine's and the bus's cycle
/// counters (the bus counter feeds the stubbed audio/IO register reads).
pub open spec fn spec_count_cycles(cpu: Cpu, bus: Bus, cycles: u8) -> (Cpu, Bus) {
    (
        Cpu { exec_cycles: cpu.exec_cycles.wrapping_add(cycles as usize), ..cpu },
        Bus { cpu_cycles_num: bus.cpu_cycles_num.wrapping_add(cycles as usize), ..bus },
    )
}

/// One full fetch-decode-execute step: its result, the CPU after it, and the
/// bus after it. The Stopped state is terminal: a stopped engine reports the
/// halt and touches nothing. Otherwise the opcode is fetched at the program
/// counter and looked up in the instruction table; the sentinel yields a
/// decode error with no further effect; otherwise the program counter
/// advances past the opcode and operand bytes, the addressing mode resolves,
/// the operation's handler runs, and the cycle counters advance. A one-byte
/// instruction that leaves the engine stopped reports the halt instead of a
/// cycle count.
pub open spec fn spec_step(cpu: Cpu, bus: Bus) -> (Result<u8, CpuStepError>, Cpu, Bus) {
    if cpu.state is Stopped {
        (Err(CpuStepError::Stopped), cpu, bus)
    } else {
        let opcode = bus.spec_cpu_read_value(cpu.program_counter);
        let bus1 = bus.spec_cpu_read_state(cpu.program_counter);
        let inst = cpu.instruction_set@[opcode as int];
        match inst.op_name {
            CPUInstByte::One(inst_entry) => {
                let cpu1 = Cpu { program_counter: cpu.program_counter.wrapping_add(1), ..cpu };
                let (cpu2, bus2) = spec_execute_inst_1_byte(cpu1, bus1, inst_entry);
                if cpu2.state is Stopped {
                    (Err(CpuStepError::Stopped), cpu2, bus2)
                } else {
                    let (cpu3, bus3) = spec_count_cycles(cpu2, bus2, inst.cycles);
                    (Ok(inst.cycles), cpu3, bus3)
                }
            },
            CPUInstByte::Two(inst_entry) => {
                let cpu1 = Cpu { program_counter: cpu.program_counter.wrapping_add(1), ..cpu };
                let operand = bus1.spec_cpu_read_value(cpu1.program_counter);
                let bus2 = bus1.spec_cpu_read_state(cpu1.program_counter);
                let target = spec_conv_1byte_address(cpu1, bus2, inst.memory_type, operand);
                let cpu2 = Cpu { program_counter: cpu1.program_counter.wrapping_add(1), ..cpu1 };
                let (cpu3, bus3) = spec_execute_inst_2_byte(cpu2, bus2, inst_entry, target);
                let (cpu4, bus4) = spec_count_cycles(cpu3, bus3, inst.cycles);
                (Ok(inst.cycles), cpu4, bus4)
            },
            CPUInstByte::Three(inst_entry) => {
                let cpu1 = Cpu { program_counter: cpu.program_counter.wrapping_add(1), ..cpu };
                let operand = spec_read16_value(bus1, cpu1.program_counter);
                let bus2 = spec_read16_state(bus1, cpu1.program_counter);
                let target = spec_conv_2byte_address(cpu1, bus2, inst.memory_type, operand);
                let bus3 = spec_conv_2byte_state(bus2, inst.memory_type, operand);
                let cpu2 = Cpu { program_counter: cpu1.program_counter.wrapping_add(2), ..cpu1 };
                let (cpu3, bus4) = spec_execute_inst_3_byte(cpu2, bus3, inst_entry, target);
                let (cpu4, bus5) = spec_count_cycles(cpu3, bus4, inst.cycles);
                (Ok(inst.cycles), cpu4, bus5)
            },
            CPUInstByte::NoOp => (Err(CpuStepError::IllegalOpcode), cpu, bus1),
        }
    }
}

/// The iteration bound that one `run_cpu` call attempts.
pub const RUN_CPU_MAX_OPERATIONS: usize = 100_000_000;

/// The engine and bus after `steps` attempted steps of the driver loop: each
/// step is `spec_step`; on a failed step, the reset policy either sets the
/// program counter to the conformance entry point and carries on, or ends
/// the run where it stands.
pub open spec fn spec_run(cpu: Cpu, bus: Bus, steps: nat) -> (Cpu, Bus)
    decreases steps,
{
    if steps == 0 {
        (cpu, bus)
    } else {
        let (r, cpu1, bus1) = spec_step(cpu, bus);
        if r is Ok {
            spec_run(cpu1, bus1, (steps - 1) as nat)
        } else if RESET_ON_CPU_EXEC_ERR {
            spec_run(Cpu { program_counter: 0xC000, ..cpu1 }, bus1, (steps - 1) as nat)
        } else {
            (cpu1, bus1)
        }
    }
}

impl Cpu {
    /// Executes one instruction: fetch, decode, resolve the operand address,
    /// dispatch to the operation's handler, and return the base cycle count;
    /// an opcode that decodes to the sentinel returns a decode error without
    /// further mutation, and the STP family reports the halt distinctly.
    ///
    /// Cycle policy: the returned count is the descriptor's base cost alone.
    /// The page-cross bonus is carried in the descriptor for callers that
    /// account for it, but this engine does not add it, nor a branch-taken
    /// bonus.
    pub fn execute_cpu_iteration(&mut self, bus: &mut Bus) -> (r: Result<u8, CpuStepError>)
        requires
            old(self).wf(),
            old(bus).cart_ready(),
        ensures
            ({
                let (res, cpu_post, bus_post) = spec_step(*old(self), *old(bus));
                &&& r == res
                &&& *final(self) == cpu_post
                &&& *final(bus) == bus_post
            }),
            final(self).instruction_set == old(self).instruction_set,
            final(bus).mapper == old(bus).mapper,
    {
        if matches!(self.state, CpuState::Stopped) {
            // Stopped is terminal: nothing executes any more.
            return Err(CpuStepError::Stopped);
        }
        let pc = self.program_counter;
        let now_command = self.read_8bit(bus, pc);
        let now_inst = self.instruction_set[now_command as usize];

        match now_inst.op_name() {
            CPUInstByte::One(inst_entry) => {
                self.program_counter = self.program_counter.wrapping_add(1);
                self.execute_inst_1_byte(inst_entry, bus);

                if matches!(self.state, CpuState::Stopped) {
                    return Err(CpuStepError::Stopped);
                }
            },
            CPUInstByte::Two(inst_entry) => {
                self.program_counter = self.program_counter.wrapping_add(1);
                let operand_pc = self.program_counter;
                let next_data_byte = self.read_8bit(bus, operand_pc);
                let target_byte = self.conv_1byte_address(now_inst.memory_type(), next_data_byte, bus);
                self.program_counter = self.program_counter.wrapping_add(1);
                self.execute_inst_2_byte(bus, inst_entry, target_byte);
            },
            CPUInstByte::Three(inst_entry) => {
                self.program_counter = self.program_counter.wrapping_add(1);
                let operand_pc = self.program_counter;
                let next_value = self.read_16bit(bus, operand_pc);
                let target_address = self.conv_2byte_address(now_inst.memory_type(), next_value, bus);
                self.program_counter = self.program_counter.wrapping_add(2);
                self.execute_inst_3_byte(bus, inst_entry, target_address);
            },
            CPUInstByte::NoOp => {
                return Err(CpuStepError::IllegalOpcode);
            },
        }

        let cycles = now_inst.cycles();
        self.exec_cycles = self.exec_cycles.wrapping_add(cycles as usize);
        bus.cpu_cycles_num = bus.cpu_cycles_num.wrapping_add(cycles as usize);
        Ok(cycles)
    }
}

/// Like `spec_step`, but for the trace-capable variant, which additionally
/// fetches the raw operand bytes for logging before executing; for a
/// three-byte instruction those two extra reads happen first, each with its
/// bus side effects.
pub open spec fn spec_step_info(cpu: Cpu, bus: Bus) -> (Result<Operation, CpuStepError>, Cpu, Bus) {
    if cpu.state is Stopped {
        (Err(CpuStepError::Stopped), cpu, bus)
    } else {
        let opcode = bus.spec_cpu_read_value(cpu.program_counter);
        let bus1 = bus.spec_cpu_read_state(cpu.program_counter);
        let inst = cpu.instruction_set@[opcode as int];
        match inst.op_name {
            CPUInstByte::One(inst_entry) => {
                let cpu1 = Cpu { program_counter: cpu.program_counter.wrapping_add(1), ..cpu };
                let (cpu2, bus2) = spec_execute_inst_1_byte(cpu1, bus1, inst_entry);
                if cpu2.state is Stopped {
                    (Err(CpuStepError::Stopped), cpu2, bus2)
                } else {
                    let (cpu3, bus3) = spec_count_cycles(cpu2, bus2, inst.cycles);
                    (Ok(inst), cpu3, bus3)
                }
            },
            CPUInstByte::Two(inst_entry) => {
                let cpu1 = Cpu { program_counter: cpu.program_counter.wrapping_add(1), ..cpu };
                let operand = bus1.spec_cpu_read_value(cpu1.program_counter);
                let bus2 = bus1.spec_cpu_read_state(cpu1.program_counter);
                let target = spec_conv_1byte_address(cpu1, bus2, inst.memory_type, operand);
                let cpu2 = Cpu { program_counter: cpu1.program_counter.wrapping_add(1), ..cpu1 };
                let (cpu3, bus3) = spec_execute_inst_2_byte(cpu2, bus2, inst_entry, target);
                let (cpu4, bus4) = spec_count_cycles(cpu3, bus3, inst.cycles);
                (Ok(inst), cpu4, bus4)
            },
            CPUInstByte::Three(inst_entry) => {
                let bus2 = bus1.spec_cpu_read_state(cpu.program_counter.wrapping_add(1));
                let bus3 = bus2.spec_cpu_read_state(cpu.program_counter.wrapping_add(2));
                let cpu1 = Cpu { program_counter: cpu.program_counter.wrapping_add(1), ..cpu };
                let operand = spec_read16_value(bus3, cpu1.program_counter);
                let bus4 = spec_read16_state(bus3, cpu1.program_counter);
                let target = spec_conv_2byte_address(cpu1, bus4, inst.memory_type, operand);
                let bus5 = spec_conv_2byte_state(bus4, inst.memory_type, operand);
                let cpu2 = Cpu { program_counter: cpu1.program_counter.wrapping_add(2), ..cpu1 };
                let (cpu3, bus6) = spec_execute_inst_3_byte(cpu2, bus5, inst_entry, target);
                let (cpu4, bus7) = spec_count_cycles(cpu3, bus6, inst.cycles);
                (Ok(inst), cpu4, bus7)
            },
            CPUInstByte::NoOp => (Err(CpuStepError::IllegalOpcode), cpu, bus1),
        }
    }
}

/// The raw byte sequence the trace-capable step fetches: the opcode and the
/// instruction's operand bytes, in fetch order.
pub open spec fn spec_step_info_bytes(cpu: Cpu, bus: Bus) -> Seq<u8> {
    let opcode = bus.spec_cpu_read_value(cpu.program_counter);
    let bus1 = bus.spec_cpu_read_state(cpu.program_counter);
    let inst = cpu.instruction_set@[opcode as int];
    match inst.op_name {
        CPUInstByte::One(_) => seq![opcode],
        CPUInstByte::Two(_) => seq![
            opcode,
            bus1.spec_cpu_read_value(cpu.program_counter.wrapping_add(1)),
        ],
        CPUInstByte::Three(_) => {
            let first = bus1.spec_cpu_read_value(cpu.program_counter.wrapping_add(1));
            let bus2 = bus1.spec_cpu_read_state(cpu.program_counter.wrapping_add(1));
            let second = bus2.spec_cpu_read_value(cpu.program_counter.wrapping_add(2));
            seq![opcode, first, second]
        },
        CPUInstByte::NoOp => seq![opcode],
    }
}

impl Cpu {
    /// The trace-capable step: besides executing exactly one instruction, it
    /// returns the descriptor and the raw bytes it fetched, for an external
    /// log consumer.
    pub fn execute_cpu_iteration_info(&mut self, bus: &mut Bus) -> (r: Result<
        (Operation, Vec<u8>),
        CpuStepError,
    >)
        requires
            old(self).wf(),
            old(bus).cart_ready(),
        ensures
            ({
                let (res, cpu_post, bus_post) = spec_step_info(*old(self), *old(bus));
                &&& *final(self) == cpu_post
                &&& *final(bus) == bus_post
                &&& (res matches Ok(inst) ==> r matches Ok(p) && p.0 == inst && p.1@
                    == spec_step_info_bytes(*old(self), *old(bus)))
                &&& (res matches Err(e) ==> r == Err::<(Operation, Vec<u8>), CpuStepError>(e))
            }),
            final(self).instruction_set == old(self).instruction_set,
            final(bus).mapper == old(bus).mapper,
    {
        if matches!(self.state, CpuState::Stopped) {
            // Stopped is terminal: nothing executes any more.
            return Err(CpuStepError::Stopped);
        }
        let pc = self.program_counter;
        let now_command = self.read_8bit(bus, pc);
        let now_inst = self.instruction_set[now_command as usize];
        let mut fetched_bytes: Vec<u8> = Vec::new();
        fetched_bytes.push(now_command);

        match now_inst.op_name() {
            CPUInstByte::One(inst_entry) => {
                self.program_counter = self.program_counter.wrapping_add(1);
                self.execute_inst_1_byte(inst_entry, bus);

                if matches!(self.state, CpuState::Stopped) {
                    return Err(CpuStepError::Stopped);
                }
            },
            CPUInstByte::Two(inst_entry) => {
                self.program_counter = self.program_counter.wrapping_add(1);
                let operand_pc = self.program_counter;
                let next_data_byte = self.read_8bit(bus, operand_pc);
                fetched_bytes.push(next_data_byte);
                let target_byte = self.conv_1byte_address(now_inst.memory_type(), next_data_byte, bus);
                self.program_counter = self.program_counter.wrapping_add(1);
                self.execute_inst_2_byte(bus, inst_entry, target_byte);
            },
            CPUInstByte::Three(inst_entry) => {
                let first_pc = self.program_counter.wrapping_add(1);
                let second_pc = self.program_counter.wrapping_add(2);
                let first_byte = self.read_8bit(bus, first_pc);
                fetched_bytes.push(first_byte);
                let second_byte = self.read_8bit(bus, second_pc);
                fetched_bytes.push(second_byte);
                self.program_counter = self.program_counter.wrapping_add(1);
                let operand_pc = self.program_counter;
                let next_value = self.read_16bit(bus, operand_pc);
                let target_address = self.conv_2byte_address(now_inst.memory_type(), next_value, bus);
                self.program_counter = self.program_counter.wrapping_add(2);
                self.execute_inst_3_byte(bus, inst_entry, target_address);
            },
            CPUInstByte::NoOp => {
                return Err(CpuStepError::IllegalOpcode);
            },
        }
        let cycles = now_inst.cycles();
        self.exec_cycles = self.exec_cycles.wrapping_add(cycles as usize);
        bus.cpu_cycles_num = bus.cpu_cycles_num.wrapping_add(cycles as usize);
        proof {
            assert(fetched_bytes@ =~= spec_step_info_bytes(*old(self), *old(bus)));
        }

        Ok((now_inst, fetched_bytes))
    }
}

impl Cpu {
    /// Drives the engine for a bounded number of attempted steps. A step that
    /// fails (decode error or halt) resets the program counter to the
    /// conformance entry point when the reset policy is selected, and stops
    /// the run otherwise; every attempted step counts against the bound.
    pub fn run_cpu(&mut self, bus: &mut Bus)
        requires
            old(self).wf(),
            old(bus).cart_ready(),
        ensures
            ({
                let (cpu_post, bus_post) = spec_run(
                    *old(self),
                    *old(bus),
                    RUN_CPU_MAX_OPERATIONS as nat,
                );
                &&& *final(self) == cpu_post
                &&& *final(bus) == bus_post
            }),
            final(self).wf(),
            final(bus).cart_ready(),
            final(self).instruction_set == old(self).instruction_set,
            final(bus).mapper == old(bus).mapper,
    {
        let max_number_of_operations: usize = RUN_CPU_MAX_OPERATIONS;
        let mut now_oper: usize = 0;

        while now_oper < max_number_of_operations
            invariant_except_break
                self.wf(),
                bus.cart_ready(),
                max_number_of_operations == RUN_CPU_MAX_OPERATIONS,
                now_oper <= max_number_of_operations,
                self.instruction_set == old(self).instruction_set,
                bus.mapper == old(bus).mapper,
                spec_run(*old(self), *old(bus), max_number_of_operations as nat) == spec_run(
                    *self,
                    *bus,
                    (max_number_of_operations - now_oper) as nat,
                ),
            ensures
                self.wf(),
                bus.cart_ready(),
                self.instruction_set == old(self).instruction_set,
                bus.mapper == old(bus).mapper,
                spec_run(*old(self), *old(bus), max_number_of_operations as nat) == (
                    *self,
                    *bus,
                ),
            decreases max_number_of_operations - now_oper,
        {
            match self.execute_cpu_iteration(bus) {
                Ok(_) => {},
                Err(_) => {
                    if RESET_ON_CPU_EXEC_ERR {
                        self.set_pc(0xC000);
                    } else {
                        break ;
                    }
                },
            }
            now_oper += 1;
        }
    }
}

} // verus!
