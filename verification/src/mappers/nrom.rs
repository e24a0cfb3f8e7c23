//! The fixed-mapping cartridge scheme: an 8 KB RAM window at 0x6000..=0x7FFF
//! followed by a 16 KB or 32 KB program ROM at 0x8000..=0xFFFF; a 16 KB image
//! is mirrored across both halves of the ROM window. Writes below the RAM
//! window and writes into ROM are ignored.

use vstd::prelude::*;

use crate::common::DataSizes;
use crate::mappers::{MapperRW, Mappers, MappersError, fill_ram};
use crate::memory::{CHR_BUFFER_SIZE, Memory, PRG_BUFFER_SIZE};

verus! {

pub const PRG_RAM_CAPACITY: usize = 0x2000;
pub const PRG_RAM_HW_START: usize = 0x6000;
pub const PRG_ROM_HW_START: usize = 0x8000;

/// Banking geometry of the fixed-mapping scheme, immutable after
/// construction: where the ROM starts inside the program buffer, and whether
/// a 16 KB image is mirrored across the 32 KB window.
#[derive(Debug, Clone, Copy, PartialEq, Eq, Structural)]
pub struct NROM {
    pub prg_rom_start: usize,
    pub prg_rom_mirror: bool,
}

impl NROM {
    /// Validates the ROM sizes, installs the cartridge buffers (the zeroed
    /// RAM window followed by the program ROM, and the character ROM), and
    /// returns the mapper. The program ROM must be exactly 16 KB or 32 KB and
    /// the character ROM empty or exactly 8 KB.
    pub fn init(mem_module: &mut Memory, prg_rom: &[u8], chr_rom: &[u8]) -> (r: Result<
        Mappers,
        MappersError,
    >)
        ensures
            r is Ok <==> (prg_rom@.len() == 0x4000 || prg_rom@.len() == 0x8000) && (chr_rom@.len()
                == 0 || chr_rom@.len() == 0x2000),
            r matches Ok(m) ==> {
                &&& m == Mappers::NROM(
                    NROM {
                        prg_rom_start: PRG_RAM_CAPACITY,
                        prg_rom_mirror: prg_rom@.len() == 0x4000,
                    },
                )
                &&& m.mapper_ready()
                &&& final(mem_module).prg_data@ == Seq::new(PRG_RAM_CAPACITY as nat, |i: int| 0u8)
                    + prg_rom@ + Seq::new(
                    (PRG_BUFFER_SIZE - PRG_RAM_CAPACITY - prg_rom@.len()) as nat,
                    |i: int| 0u8,
                )
                &&& (forall|i: int|
                    0 <= i < chr_rom@.len() ==> final(mem_module).chr_data@[i] == chr_rom@[i])
                &&& (forall|i: int|
                    chr_rom@.len() <= i < CHR_BUFFER_SIZE ==> final(mem_module).chr_data@[i]
                        == 0u8)
                &&& final(mem_module).ram == old(mem_module).ram
                &&& final(mem_module).vram == old(mem_module).vram
                &&& final(mem_module).palettes_table == old(mem_module).palettes_table
            },
            r matches Err(e) ==> *final(mem_module) == *old(mem_module) && ((e
                == MappersError::IncorrectSizePRGROM) <==> (prg_rom@.len() != 0x4000
                && prg_rom@.len() != 0x8000)),
    {
        let prg_len = prg_rom.len();
        if !(prg_len == DataSizes::Size16K.to_bytes() || prg_len == DataSizes::Size32K.to_bytes()) {
            return Err(MappersError::IncorrectSizePRGROM);
        }
        let chr_len = chr_rom.len();
        if !(chr_len == 0 || chr_len == DataSizes::Size8K.to_bytes()) {
            return Err(MappersError::IncorrectSizeCHRROM);
        }
        let prg_rom_mirror = prg_len == DataSizes::Size16K.to_bytes();

        let mut prg_data: [u8; PRG_BUFFER_SIZE] = [0u8; PRG_BUFFER_SIZE];
        fill_ram(&mut prg_data, PRG_RAM_CAPACITY);
        let mut i: usize = 0;
        while i < prg_len
            invariant
                prg_len == prg_rom@.len(),
                prg_len <= 0x8000,
                i <= prg_len,
                forall|j: int| 0 <= j < PRG_RAM_CAPACITY ==> prg_data@[j] == 0u8,
                forall|j: int| 0 <= j < i ==> prg_data@[PRG_RAM_CAPACITY + j] == prg_rom@[j],
                forall|j: int|
                    PRG_RAM_CAPACITY + i <= j < PRG_BUFFER_SIZE ==> prg_data@[j] == 0u8,
            decreases prg_len - i,
        {
            prg_data[PRG_RAM_CAPACITY + i] = *vstd::slice::slice_index_get(prg_rom, i);
            i += 1;
        }
        proof {
            assert(prg_data@ =~= Seq::new(PRG_RAM_CAPACITY as nat, |k: int| 0u8) + prg_rom@
                + Seq::new((PRG_BUFFER_SIZE - PRG_RAM_CAPACITY - prg_rom@.len()) as nat, |k: int| 0u8));
        }
        mem_module.set_prg_data(prg_data);

        let mut chr_data: [u8; CHR_BUFFER_SIZE] = [0u8; CHR_BUFFER_SIZE];
        let mut i: usize = 0;
        while i < chr_len
            invariant
                chr_len == chr_rom@.len(),
                chr_len <= CHR_BUFFER_SIZE,
                i <= chr_len,
                forall|j: int| 0 <= j < i ==> chr_data@[j] == chr_rom@[j],
                forall|j: int| i <= j < CHR_BUFFER_SIZE ==> chr_data@[j] == 0u8,
            decreases chr_len - i,
        {
            chr_data[i] = *vstd::slice::slice_index_get(chr_rom, i);
            i += 1;
        }
        mem_module.set_chr_data(chr_data);

        Ok(Mappers::NROM(NROM { prg_rom_start: PRG_RAM_CAPACITY, prg_rom_mirror }))
    }
}

/// ROM mirroring law: with a 16 KB image, every read in the upper half of the
/// 32 KB cartridge ROM window returns the byte at the same offset in the
/// lower half.
pub proof fn lemma_nrom_prg_mirroring(
    mapper: NROM,
    prg_data: [u8; PRG_BUFFER_SIZE],
    offset: usize,
)
    requires
        mapper.prg_rom_mirror,
        offset < 0x4000,
    ensures
        mapper.spec_read((0xC000 + offset) as usize, prg_data) == mapper.spec_read(
            (0x8000 + offset) as usize,
            prg_data,
        ),
{
}

impl MapperRW for NROM {
    open spec fn mapper_ready(&self) -> bool {
        self.prg_rom_start == PRG_RAM_CAPACITY
    }

    open spec fn spec_read(&self, req_addr: usize, prg_data: [u8; PRG_BUFFER_SIZE]) -> u8 {
        if req_addr >= PRG_ROM_HW_START {
            let shifted = req_addr - PRG_ROM_HW_START;
            let banked = if self.prg_rom_mirror && shifted >= 0x4000 {
                shifted - 0x4000
            } else {
                shifted
            };
            prg_data@[self.prg_rom_start + banked]
        } else if req_addr >= PRG_RAM_HW_START {
            prg_data@[req_addr - PRG_RAM_HW_START]
        } else {
            0u8
        }
    }

    open spec fn spec_write(&self, req_addr: usize, value: u8, prg_data: [u8; PRG_BUFFER_SIZE]) -> [u8; PRG_BUFFER_SIZE] {
        if PRG_RAM_HW_START <= req_addr < PRG_RAM_HW_START + PRG_RAM_CAPACITY {
            vstd::array::spec_array_update(prg_data, req_addr - PRG_RAM_HW_START, value)
        } else {
            prg_data
        }
    }

    open spec fn spec_read_ppu(&self, data_ref: usize, chr_data: [u8; CHR_BUFFER_SIZE]) -> u8 {
        chr_data@[data_ref as int]
    }

    fn mapper_read(&self, req_addr: usize, prg_data: &[u8; PRG_BUFFER_SIZE]) -> (r: u8) {
        if req_addr >= PRG_RAM_HW_START + PRG_RAM_CAPACITY {
            let mut shifted_ref = req_addr - (PRG_RAM_HW_START + PRG_RAM_CAPACITY);
            if self.prg_rom_mirror && shifted_ref >= 0x4000 {
                shifted_ref -= 0x4000;
            }
            prg_data[self.prg_rom_start + shifted_ref]
        } else if req_addr >= PRG_RAM_HW_START {
            prg_data[req_addr - PRG_RAM_HW_START]
        } else {
            // No expansion hardware is modelled below the RAM window.
            0
        }
    }

    fn mapper_write(&self, req_addr: usize, value: u8, prg_data: &mut [u8; PRG_BUFFER_SIZE]) {
        if req_addr < PRG_RAM_HW_START {
            // Writes into the unmodelled expansion region are ignored.
            return ;
        }

        let shifted_ref = req_addr - PRG_RAM_HW_START;
        if shifted_ref >= PRG_RAM_CAPACITY {
            // The ROM window is read-only; the write is ignored.
            return ;
        }

        prg_data[shifted_ref] = value;
        proof {
            broadcast use vstd::array::group_array_axioms;

            assert(*prg_data =~= self.spec_write(req_addr, value, *old(prg_data)));
        }
    }

    fn mapper_read_ppu(&self, data_ref: usize, chr_data: &[u8; CHR_BUFFER_SIZE]) -> (r: u8) {
        chr_data[data_ref]
    }
}

} // verus!
