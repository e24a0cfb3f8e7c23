//! Memory model: the physical RAM page, video RAM, palette table, cartridge
//! buffers, the CPU-visible address-region boundaries, and the stack
//! discipline on the fixed 256-byte stack page.

use vstd::prelude::*;

verus! {

// CPU-visible address regions (16-bit address space), highest first:
// cartridge space 0x6000..=0xFFFF, expansion ROM, audio/IO registers,
// graphics registers and their mirrors, RAM and its mirrors.
pub const RAM_START: u16 = 0x0000;
pub const RAM_END: u16 = 0x07FF;
pub const RAM_SIZE: usize = 0x0800;

pub const RAM_MIRRORS_START: u16 = 0x0800;
pub const RAM_MIRRORS_END: u16 = 0x1FFF;

pub const PPU_REGS_START: u16 = 0x2000;
pub const PPU_REGS_END: u16 = 0x2007;

pub const PPU_REGS_MIRRORS_START: u16 = 0x2008;
pub const PPU_REGS_MIRRORS_END: u16 = 0x3FFF;

pub const APU_REGS_START: u16 = 0x4000;
pub const APU_IO_FUNC_END: u16 = 0x401F;

pub const EXPANSION_ROM_START: u16 = 0x4020;
pub const EXPANSION_ROM_END: u16 = 0x5FFF;

pub const SRAM_START: u16 = 0x6000;
pub const SRAM_END: u16 = 0x7FFF;

pub const PRG_ROM_START: u16 = 0x8000;
pub const PRG_ROM_END: u16 = 0xFFFF;

// The stack lives in the fixed page 0x0100..=0x01FF of RAM.
pub const STACK_PAGE: usize = 0x0100;

// The cartridge program buffer: the 8 KB RAM window followed by up to 32 KB
// of program ROM. The character buffer holds up to 8 KB of character ROM.
pub const PRG_BUFFER_SIZE: usize = 0xA000;
pub const CHR_BUFFER_SIZE: usize = 0x2000;

// Graphics-internal address regions (14-bit address space).
pub const PPU_PATTERN_TABLES_START: u16 = 0x0000;
pub const PPU_PATTERN_TABLES_END: u16 = 0x1FFF;

pub const PPU_NAME_TABLES_START: u16 = 0x2000;
pub const PPU_NAME_TABLES_END: u16 = 0x2FFF;
pub const VRAM_SIZE: usize = 0x1000;

pub const PPU_UNUSED_SPACE_START: u16 = 0x3000;
pub const PPU_UNUSED_SPACE_END: u16 = 0x3EFF;

pub const PPU_PALETTES_START: u16 = 0x3F00;
pub const PPU_PALETTES_END: u16 = 0x3F1F;
pub const PALETTES_SIZE: usize = 0x20;

/// Addressing-mode tag: the rule by which an instruction's operand bytes are
/// turned into an effective memory location (or into no location at all for
/// `Implied`/`Accumulator`).
#[derive(Debug, Clone, Copy, PartialEq, Eq, Structural)]
pub enum MemoryType {
    Implied,
    Accumulator,
    Immediate,
    ZeroPage,
    ZeroPageX,
    ZeroPageY,
    Relative,
    Absolute,
    AbsoluteX,
    AbsoluteY,
    Indirect,
    IndirectX,
    IndirectY,
}

/// Storage owned by the bus: the 2 KB RAM page (with the stack page inside
/// it), the cartridge program/character buffers, the graphics name-table RAM
/// and the palette table.
#[derive(Debug, Clone, Copy)]
pub struct Memory {
    pub prg_data: [u8; PRG_BUFFER_SIZE],
    pub chr_data: [u8; CHR_BUFFER_SIZE],
    pub ram: [u8; RAM_SIZE],
    pub vram: [u8; VRAM_SIZE],
    pub palettes_table: [u8; PALETTES_SIZE],
}

impl Default for Memory {
    /// Fresh memory: all backing stores zeroed, no cartridge data.
    fn default() -> (m: Memory)
        ensures
            forall|i: int| 0 <= i < PRG_BUFFER_SIZE ==> m.prg_data@[i] == 0u8,
            forall|i: int| 0 <= i < CHR_BUFFER_SIZE ==> m.chr_data@[i] == 0u8,
            forall|i: int| 0 <= i < RAM_SIZE ==> m.ram@[i] == 0u8,
            forall|i: int| 0 <= i < VRAM_SIZE ==> m.vram@[i] == 0u8,
            forall|i: int| 0 <= i < PALETTES_SIZE ==> m.palettes_table@[i] == 0u8,
    {
        Memory {
            prg_data: [0u8; PRG_BUFFER_SIZE],
            chr_data: [0u8; CHR_BUFFER_SIZE],
            ram: [0u8; RAM_SIZE],
            vram: [0u8; VRAM_SIZE],
            palettes_table: [0u8; PALETTES_SIZE],
        }
    }
}

impl Memory {
    pub fn set_prg_data(&mut self, prg_data: [u8; PRG_BUFFER_SIZE])
        ensures
            *final(self) == (Memory { prg_data, ..*old(self) }),
    {
        self.prg_data = prg_data;
    }

    pub fn set_chr_data(&mut self, chr_data: [u8; CHR_BUFFER_SIZE])
        ensures
            *final(self) == (Memory { chr_data, ..*old(self) }),
    {
        self.chr_data = chr_data;
    }
}

impl Memory {
    pub fn prg_data(&self) -> (r: &[u8; PRG_BUFFER_SIZE])
        ensures
            r == &self.prg_data,
    {
        &self.prg_data
    }

    pub fn chr_data(&self) -> (r: &[u8; CHR_BUFFER_SIZE])
        ensures
            r == &self.chr_data,
    {
        &self.chr_data
    }

    pub fn ram(&self) -> (r: &[u8; RAM_SIZE])
        ensures
            r == &self.ram,
    {
        &self.ram
    }

    pub fn vram(&self) -> (r: &[u8; VRAM_SIZE])
        ensures
            r == &self.vram,
    {
        &self.vram
    }

    pub fn palettes_table(&self) -> (r: &[u8; PALETTES_SIZE])
        ensures
            r == &self.palettes_table,
    {
        &self.palettes_table
    }

    pub fn prg_data_mut(&mut self) -> (r: &mut [u8; PRG_BUFFER_SIZE])
        ensures
            *r == old(self).prg_data,
            *final(self) == (Memory { prg_data: *final(r), ..*old(self) }),
    {
        &mut self.prg_data
    }

    pub fn chr_data_mut(&mut self) -> (r: &mut [u8; CHR_BUFFER_SIZE])
        ensures
            *r == old(self).chr_data,
            *final(self) == (Memory { chr_data: *final(r), ..*old(self) }),
    {
        &mut self.chr_data
    }

    pub fn ram_mut(&mut self) -> (r: &mut [u8; RAM_SIZE])
        ensures
            *r == old(self).ram,
            *final(self) == (Memory { ram: *final(r), ..*old(self) }),
    {
        &mut self.ram
    }
}

impl Memory {
    /// Copies the given bytes to the start of the program-ROM half of the
    /// cartridge buffer, which begins right after the 8 KB RAM window.
    pub fn write_prg_rom(&mut self, prg_rom: &[u8])
        requires
            prg_rom@.len() <= PRG_BUFFER_SIZE - 0x2000,
        ensures
            final(self).prg_data@ == old(self).prg_data@.subrange(0, 0x2000) + prg_rom@ + old(
                self,
            ).prg_data@.skip(0x2000 + prg_rom@.len() as int),
            *final(self) == (Memory { prg_data: final(self).prg_data, ..*old(self) }),
    {
        let n = prg_rom.len();
        let mut i: usize = 0;
        while i < n
            invariant
                n == prg_rom@.len(),
                n <= PRG_BUFFER_SIZE - 0x2000,
                i <= n,
                self.prg_data@.len() == PRG_BUFFER_SIZE,
                forall|j: int| 0 <= j < 0x2000 ==> self.prg_data@[j] == old(self).prg_data@[j],
                forall|j: int| 0 <= j < i ==> self.prg_data@[0x2000 + j] == prg_rom@[j],
                forall|j: int|
                    0x2000 + i <= j < PRG_BUFFER_SIZE ==> self.prg_data@[j] == old(
                        self,
                    ).prg_data@[j],
                *self == (Memory { prg_data: self.prg_data, ..*old(self) }),
            decreases n - i,
        {
            self.prg_data[0x2000 + i] = *vstd::slice::slice_index_get(prg_rom, i);
            i += 1;
        }
        proof {
            assert(self.prg_data@ =~= old(self).prg_data@.subrange(0, 0x2000) + prg_rom@ + old(
                self,
            ).prg_data@.skip(0x2000 + prg_rom@.len() as int));
        }
    }
}

/// The stack slot (index into RAM) that an 8-bit stack pointer addresses.
pub open spec fn spec_stack_slot(stack_pointer: u8) -> int {
    STACK_PAGE + stack_pointer
}

impl Memory {
    /// Pushes one byte: writes at the current stack pointer, then decrements
    /// the pointer with 8-bit wraparound.
    pub fn stack_push_8bit(&mut self, value: u8, stack_pointer: &mut u8)
        ensures
            *final(self) == (Memory {
                ram: vstd::array::spec_array_update(
                    old(self).ram,
                    spec_stack_slot(*old(stack_pointer)),
                    value,
                ),
                ..*old(self)
            }),
            *final(stack_pointer) == (*old(stack_pointer)).wrapping_sub(1),
    {
        self.ram[STACK_PAGE + (*stack_pointer as usize)] = value;
        *stack_pointer = stack_pointer.wrapping_sub(1);
    }

    /// Pulls one byte: increments the pointer with 8-bit wraparound, then
    /// reads at the new pointer.
    pub fn stack_pull_8bit(&self, stack_pointer: &mut u8) -> (r: u8)
        ensures
            *final(stack_pointer) == (*old(stack_pointer)).wrapping_add(1),
            r == self.ram@[spec_stack_slot((*old(stack_pointer)).wrapping_add(1))],
    {
        *stack_pointer = stack_pointer.wrapping_add(1);
        self.ram[STACK_PAGE + (*stack_pointer as usize)]
    }

    /// Pushes a 16-bit value: high byte at the current pointer, low byte one
    /// slot below, pointer decremented by two with wraparound.
    pub fn stack_push_16bit(&mut self, value: u16, stack_pointer: &mut u8)
        ensures
            *final(self) == (Memory {
                ram: vstd::array::spec_array_update(
                    vstd::array::spec_array_update(
                        old(self).ram,
                        spec_stack_slot(*old(stack_pointer)),
                        (value / 256) as u8,
                    ),
                    spec_stack_slot((*old(stack_pointer)).wrapping_sub(1)),
                    (value % 256) as u8,
                ),
                ..*old(self)
            }),
            *final(stack_pointer) == (*old(stack_pointer)).wrapping_sub(2),
    {
        proof {
            lemma_u16_bytes(value);
        }
        let first_addr = STACK_PAGE + (*stack_pointer as usize);
        self.ram[first_addr] = (value >> 8) as u8;

        let second_addr = STACK_PAGE + (stack_pointer.wrapping_sub(1) as usize);
        self.ram[second_addr] = value as u8;

        *stack_pointer = stack_pointer.wrapping_sub(2);
    }

    /// Pulls a 16-bit value: low byte at pointer+1, high byte at pointer+2,
    /// pointer incremented by two with wraparound.
    pub fn stack_pull_16bit(&self, stack_pointer: &mut u8) -> (r: u16)
        ensures
            *final(stack_pointer) == (*old(stack_pointer)).wrapping_add(2),
            r == self.ram@[spec_stack_slot((*old(stack_pointer)).wrapping_add(1))]
                + self.ram@[spec_stack_slot((*old(stack_pointer)).wrapping_add(2))] * 256,
    {
        let first_addr = STACK_PAGE + (stack_pointer.wrapping_add(1) as usize);
        *stack_pointer = stack_pointer.wrapping_add(2);
        let second_addr = STACK_PAGE + (*stack_pointer as usize);

        let lo = self.ram[first_addr];
        let hi = self.ram[second_addr];
        proof {
            lemma_u8_pair_to_u16(hi, lo);
        }
        (lo as u16) + ((hi as u16) << 8)
    }

    /// The 256-byte stack page as a slice, lowest address first.
    pub fn stack_as_slice(&self) -> (r: &[u8])
        ensures
            r@ == self.ram@.subrange(STACK_PAGE as int, STACK_PAGE + 0x100),
    {
        vstd::slice::slice_subrange(self.ram.as_slice(), STACK_PAGE, STACK_PAGE + 0x100)
    }
}

/// An 8-bit stack-pointer offset brought back into 0..=255; defined for
/// offsets within one wraparound of the range.
pub open spec fn spec_wrap_index(x: int) -> int {
    if x < 0 {
        x + 256
    } else if x >= 256 {
        x - 256
    } else {
        x
    }
}

/// The RAM and stack pointer after pushing a sequence of bytes one at a time.
pub open spec fn spec_push_seq(ram: [u8; RAM_SIZE], stack_pointer: u8, values: Seq<u8>) -> (
    [u8; RAM_SIZE],
    u8,
)
    decreases values.len(),
{
    if values.len() == 0 {
        (ram, stack_pointer)
    } else {
        spec_push_seq(
            vstd::array::spec_array_update(ram, spec_stack_slot(stack_pointer), values[0]),
            stack_pointer.wrapping_sub(1),
            values.skip(1),
        )
    }
}

/// The byte the k-th pull (counting from zero) returns, given the RAM and
/// the stack pointer the pushes left behind.
pub open spec fn spec_pull_value(ram: [u8; RAM_SIZE], stack_pointer: u8, k: int) -> u8 {
    ram@[STACK_PAGE + spec_wrap_index(stack_pointer + k + 1)]
}

/// What a run of pushes leaves behind: the pointer has moved down by the
/// number of pushed bytes (with wraparound), each pushed byte sits in its
/// slot, and every other RAM cell is untouched.
proof fn lemma_stack_push_seq(ram: [u8; RAM_SIZE], stack_pointer: u8, values: Seq<u8>)
    requires
        values.len() <= 256,
    ensures
        ({
            let (pushed_ram, pushed_sp) = spec_push_seq(ram, stack_pointer, values);
            &&& pushed_sp as int == spec_wrap_index(stack_pointer - values.len())
            &&& (forall|j: int|
                0 <= j < values.len() ==> pushed_ram@[STACK_PAGE + spec_wrap_index(
                    stack_pointer - j,
                )] == values[j])
            &&& (forall|i: int|
                0 <= i < RAM_SIZE && (forall|j: int|
                    0 <= j < values.len() ==> i != STACK_PAGE + #[trigger] spec_wrap_index(
                        stack_pointer - j,
                    )) ==> #[trigger] pushed_ram@[i] == ram@[i])
        }),
    decreases values.len(),
{
    broadcast use vstd::array::group_array_axioms;

    if values.len() == 0 {
    } else {
        let ram1 = vstd::array::spec_array_update(
            ram,
            spec_stack_slot(stack_pointer),
            values[0],
        );
        let sp1 = stack_pointer.wrapping_sub(1);
        lemma_stack_push_seq(ram1, sp1, values.skip(1));
        let (pushed_ram, pushed_sp) = spec_push_seq(ram, stack_pointer, values);
        assert(sp1 as int == spec_wrap_index(stack_pointer - 1));
        assert forall|j2: int| 0 <= j2 <= 255 implies #[trigger] spec_wrap_index(sp1 - j2)
            == spec_wrap_index(stack_pointer - (j2 + 1)) by {
        }
        assert forall|j: int| 0 <= j < values.len() implies pushed_ram@[STACK_PAGE
            + spec_wrap_index(stack_pointer - j)] == values[j] by {
            if j == 0 {
                assert(forall|j2: int|
                    0 <= j2 < values.skip(1).len() ==> STACK_PAGE + spec_wrap_index(
                        stack_pointer as int,
                    ) != STACK_PAGE + #[trigger] spec_wrap_index(sp1 - j2));
            } else {
                assert(spec_wrap_index(sp1 - (j - 1)) == spec_wrap_index(stack_pointer - j));
                assert(values.skip(1)[j - 1] == values[j]);
            }
        }
        assert forall|i: int|
            0 <= i < RAM_SIZE && (forall|j: int|
                0 <= j < values.len() ==> i != STACK_PAGE + #[trigger] spec_wrap_index(
                    stack_pointer - j,
                )) implies #[trigger] pushed_ram@[i] == ram@[i] by {
            assert(i != STACK_PAGE + spec_wrap_index(stack_pointer - 0));
            assert(forall|j2: int|
                0 <= j2 < values.skip(1).len() ==> i != STACK_PAGE + #[trigger] spec_wrap_index(
                    sp1 - j2,
                ));
            assert(pushed_ram@[i] == ram1@[i]);
        }
    }
}

/// Stack discipline: pushing a run of bytes (at most the page size) and then
/// pulling the same number of times yields them in reverse order, and the
/// stack pointer returns to its starting value.
pub proof fn lemma_stack_discipline(ram: [u8; RAM_SIZE], stack_pointer: u8, values: Seq<u8>)
    requires
        values.len() <= 256,
    ensures
        ({
            let (pushed_ram, pushed_sp) = spec_push_seq(ram, stack_pointer, values);
            &&& (forall|k: int|
                0 <= k < values.len() ==> spec_pull_value(pushed_ram, pushed_sp, k) == values[
                    values.len() - 1 - k
                ])
            &&& spec_wrap_index(pushed_sp + values.len()) == stack_pointer
        }),
{
    lemma_stack_push_seq(ram, stack_pointer, values);
    let (pushed_ram, pushed_sp) = spec_push_seq(ram, stack_pointer, values);
    assert forall|k: int| 0 <= k < values.len() implies spec_pull_value(pushed_ram, pushed_sp, k)
        == values[values.len() - 1 - k] by {
        let j = values.len() - 1 - k;
        assert(spec_wrap_index(pushed_sp + k + 1) == spec_wrap_index(stack_pointer - j));
    }
}

/// How a 16-bit value splits into its high and low bytes.
pub proof fn lemma_u16_bytes(v: u16)
    by (bit_vector)
    ensures
        v >> 8 == v / 256,
        (v as u8) == v % 256,
        v == (v / 256) * 256 + v % 256,
        v / 256 < 256,
{
}

/// How two bytes assemble into a 16-bit value.
pub proof fn lemma_u8_pair_to_u16(hi: u8, lo: u8)
    by (bit_vector)
    ensures
        ((hi as u16) << 8) == (hi as u16) * 256,
        (lo as u16) + ((hi as u16) << 8) == lo + hi * 256,
        lo + hi * 256 <= 0xFFFF,
{
}

} // verus!
