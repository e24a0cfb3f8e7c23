//! Cartridge mapper abstraction: a capability set {read, write, read from
//! character ROM} that the bus delegates every cartridge-space access to.
//! Adding a mapper means adding a variant and its handler set, not touching
//! the bus.

use vstd::prelude::*;

use crate::memory::{CHR_BUFFER_SIZE, Memory, PRG_BUFFER_SIZE};
use no_mapper::NoMapper;
use nrom::NROM;

pub mod no_mapper;
pub mod nrom;

verus! {

/// The capability set every mapper variant provides. The spec members say,
/// per variant, when the mapper is usable and what each access returns or
/// changes.
pub trait MapperRW: Sized {
    /// Whether this mapper may be used at all: the placeholder variant never
    /// is, a real mapper is once its banking geometry is the constructed one.
    spec fn mapper_ready(&self) -> bool;

    /// The byte a CPU-space read returns.
    spec fn spec_read(&self, req_addr: usize, prg_data: [u8; PRG_BUFFER_SIZE]) -> u8;

    /// The program buffer after a CPU-space write.
    spec fn spec_write(&self, req_addr: usize, value: u8, prg_data: [u8; PRG_BUFFER_SIZE]) -> [u8; PRG_BUFFER_SIZE];

    /// The byte a graphics-space read returns from character ROM.
    spec fn spec_read_ppu(&self, data_ref: usize, chr_data: [u8; CHR_BUFFER_SIZE]) -> u8;

    /// Reads a byte from cartridge space (0x4020..=0xFFFF).
    fn mapper_read(&self, req_addr: usize, prg_data: &[u8; PRG_BUFFER_SIZE]) -> (r: u8)
        requires
            0x4020 <= req_addr <= 0xFFFF,
            self.mapper_ready(),
        ensures
            r == self.spec_read(req_addr, *prg_data),
    ;

    /// Writes a byte into cartridge space; writes outside the RAM window are
    /// ignored.
    fn mapper_write(&self, req_addr: usize, value: u8, prg_data: &mut [u8; PRG_BUFFER_SIZE])
        requires
            0x4020 <= req_addr <= 0xFFFF,
            self.mapper_ready(),
        ensures
            *final(prg_data) == self.spec_write(req_addr, value, *old(prg_data)),
    ;

    /// Reads a byte from the graphics pattern tables (0x0000..=0x1FFF)
    /// against character ROM.
    fn mapper_read_ppu(&self, data_ref: usize, chr_data: &[u8; CHR_BUFFER_SIZE]) -> (r: u8)
        requires
            data_ref <= 0x1FFF,
            self.mapper_ready(),
        ensures
            r == self.spec_read_ppu(data_ref, *chr_data),
    ;
}

/// The mapper variants this design knows.
#[derive(Debug, Clone, Copy, PartialEq, Eq, Structural)]
pub enum Mappers {
    NoMapper(NoMapper),
    NROM(NROM),
}

impl Default for Mappers {
    /// The construction-time placeholder; it answers no access.
    fn default() -> (r: Self)
        ensures
            r == Mappers::NoMapper(NoMapper {  }),
    {
        Mappers::NoMapper(NoMapper {  })
    }
}

impl MapperRW for Mappers {
    open spec fn mapper_ready(&self) -> bool {
        match self {
            Mappers::NoMapper(m) => m.mapper_ready(),
            Mappers::NROM(m) => m.mapper_ready(),
        }
    }

    open spec fn spec_read(&self, req_addr: usize, prg_data: [u8; PRG_BUFFER_SIZE]) -> u8 {
        match self {
            Mappers::NoMapper(m) => m.spec_read(req_addr, prg_data),
            Mappers::NROM(m) => m.spec_read(req_addr, prg_data),
        }
    }

    open spec fn spec_write(&self, req_addr: usize, value: u8, prg_data: [u8; PRG_BUFFER_SIZE]) -> [u8; PRG_BUFFER_SIZE] {
        match self {
            Mappers::NoMapper(m) => m.spec_write(req_addr, value, prg_data),
            Mappers::NROM(m) => m.spec_write(req_addr, value, prg_data),
        }
    }

    open spec fn spec_read_ppu(&self, data_ref: usize, chr_data: [u8; CHR_BUFFER_SIZE]) -> u8 {
        match self {
            Mappers::NoMapper(m) => m.spec_read_ppu(data_ref, chr_data),
            Mappers::NROM(m) => m.spec_read_ppu(data_ref, chr_data),
        }
    }

    fn mapper_read(&self, req_addr: usize, prg_data: &[u8; PRG_BUFFER_SIZE]) -> (r: u8) {
        match self {
            Mappers::NoMapper(m) => m.mapper_read(req_addr, prg_data),
            Mappers::NROM(m) => m.mapper_read(req_addr, prg_data),
        }
    }

    fn mapper_write(&self, req_addr: usize, value: u8, prg_data: &mut [u8; PRG_BUFFER_SIZE]) {
        match self {
            Mappers::NoMapper(m) => m.mapper_write(req_addr, value, prg_data),
            Mappers::NROM(m) => m.mapper_write(req_addr, value, prg_data),
        }
    }

    fn mapper_read_ppu(&self, data_ref: usize, chr_data: &[u8; CHR_BUFFER_SIZE]) -> (r: u8) {
        match self {
            Mappers::NoMapper(m) => m.mapper_read_ppu(data_ref, chr_data),
            Mappers::NROM(m) => m.mapper_read_ppu(data_ref, chr_data),
        }
    }
}

/// Construction error kinds for mapper/cartridge setup.
#[derive(Debug, Clone, Copy, PartialEq, Eq, Structural)]
pub enum MappersError {
    IncorrectSizePRGROM,
    IncorrectSizeCHRROM,
}

/// Zeroes the RAM-window half of the cartridge program buffer.
pub fn fill_ram(prg_data: &mut [u8; PRG_BUFFER_SIZE], num: usize)
    requires
        num <= PRG_BUFFER_SIZE,
    ensures
        forall|i: int| 0 <= i < num ==> final(prg_data)@[i] == 0u8,
        forall|i: int| num <= i < PRG_BUFFER_SIZE ==> final(prg_data)@[i] == old(prg_data)@[i],
{
    let mut i: usize = 0;
    while i < num
        invariant
            i <= num,
            num <= PRG_BUFFER_SIZE,
            forall|j: int| 0 <= j < i ==> prg_data@[j] == 0u8,
            forall|j: int| i <= j < PRG_BUFFER_SIZE ==> prg_data@[j] == old(prg_data)@[j],
        decreases num - i,
    {
        prg_data[i] = 0;
        i += 1;
    }
}

/// Builds the mapper named by the cartridge's mapper-type code and installs
/// the cartridge buffers into memory. Only the fixed-mapping scheme (type
/// code 0) is modelled.
pub fn create_mapper(mapper_type: u8, mem_module: &mut Memory, prg_rom: &[u8], chr_rom: &[u8]) -> (r:
    Result<Mappers, MappersError>)
    requires
        mapper_type == 0,
    ensures
        r is Ok <==> (prg_rom@.len() == 0x4000 || prg_rom@.len() == 0x8000) && (chr_rom@.len() == 0
            || chr_rom@.len() == 0x2000),
        r matches Ok(m) ==> {
            &&& m == Mappers::NROM(
                NROM {
                    prg_rom_start: 0x2000,
                    prg_rom_mirror: prg_rom@.len() == 0x4000,
                },
            )
            &&& m.mapper_ready()
            &&& final(mem_module).prg_data@ == Seq::new(0x2000nat, |i: int| 0u8) + prg_rom@
                + Seq::new((PRG_BUFFER_SIZE - 0x2000 - prg_rom@.len()) as nat, |i: int| 0u8)
            &&& (forall|i: int|
                0 <= i < chr_rom@.len() ==> final(mem_module).chr_data@[i] == chr_rom@[i])
            &&& (forall|i: int|
                chr_rom@.len() <= i < CHR_BUFFER_SIZE ==> final(mem_module).chr_data@[i] == 0u8)
            &&& final(mem_module).ram == old(mem_module).ram
            &&& final(mem_module).vram == old(mem_module).vram
            &&& final(mem_module).palettes_table == old(mem_module).palettes_table
        },
        r matches Err(e) ==> *final(mem_module) == *old(mem_module) && ((e
            == MappersError::IncorrectSizePRGROM) <==> (prg_rom@.len() != 0x4000 && prg_rom@.len()
            != 0x8000)),
{
    NROM::init(mem_module, prg_rom, chr_rom)
}

} // verus!
