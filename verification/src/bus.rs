//! Bus: owns memory, the graphics collaborator and the mapper, and performs
//! all address-space decoding and mirroring for both the CPU-visible 16-bit
//! space and the graphics-internal 14-bit space. Decoding checks regions from
//! the highest boundary downward; the regions are exhaustive and mutually
//! exclusive.

use vstd::prelude::*;

use crate::mappers::{MapperRW, Mappers};
use crate::memory::{
    APU_REGS_START, EXPANSION_ROM_START, Memory, PALETTES_SIZE, PPU_NAME_TABLES_START,
    PPU_PALETTES_START, PPU_REGS_MIRRORS_START, PPU_REGS_START, PPU_UNUSED_SPACE_START,
    RAM_MIRRORS_START, RAM_SIZE, SRAM_START,
};
use crate::ppu::Ppu;

verus! {

/// The system bus: all CPU and graphics accesses to storage go through it.
#[derive(Debug, Clone, Copy)]
pub struct Bus {
    pub memory: Memory,
    pub ppu: Ppu,
    pub mapper: Mappers,
    pub cpu_cycles_num: usize,
}

impl Default for Bus {
    fn default() -> (r: Bus)
        ensures
            forall|i: int| 0 <= i < 0xA000 ==> r.memory.prg_data@[i] == 0u8,
            forall|i: int| 0 <= i < 0x2000 ==> r.memory.chr_data@[i] == 0u8,
            forall|i: int| 0 <= i < RAM_SIZE ==> r.memory.ram@[i] == 0u8,
            forall|i: int| 0 <= i < 0x1000 ==> r.memory.vram@[i] == 0u8,
            forall|i: int| 0 <= i < PALETTES_SIZE ==> r.memory.palettes_table@[i] == 0u8,
            r.ppu.spec_is_default(),
            r.mapper is NoMapper,
            r.cpu_cycles_num == 0,
    {
        Bus {
            memory: Memory::default(),
            ppu: Ppu::default(),
            mapper: Mappers::default(),
            cpu_cycles_num: 0,
        }
    }
}

impl Bus {
    pub fn memory(&self) -> (r: &Memory)
        ensures
            r == &self.memory,
    {
        &self.memory
    }

    pub fn memory_mut(&mut self) -> (r: &mut Memory)
        ensures
            *r == old(self).memory,
            *final(self) == (Bus { memory: *final(r), ..*old(self) }),
    {
        &mut self.memory
    }

    pub fn set_mapper(&mut self, mapper: Mappers)
        ensures
            *final(self) == (Bus { mapper, ..*old(self) }),
    {
        self.mapper = mapper;
    }

    /// Whether cartridge-space accesses can be served: a real, constructed
    /// mapper is installed.
    pub open spec fn cart_ready(&self) -> bool {
        self.mapper.mapper_ready()
    }
}

impl Bus {
    /// The value a CPU read at the given address returns: cartridge space
    /// through the mapper, stubbed audio/IO and expansion regions, graphics
    /// registers modulo their 8-byte mirroring, RAM modulo its 2 KB mirror.
    pub open spec fn spec_cpu_read_value(self, requested_address: u16) -> u8 {
        if requested_address >= SRAM_START {
            self.mapper.spec_read(requested_address as usize, self.memory.prg_data)
        } else if requested_address >= EXPANSION_ROM_START {
            0u8
        } else if requested_address >= APU_REGS_START {
            (self.cpu_cycles_num % 2) as u8
        } else if requested_address >= PPU_REGS_START {
            self.ppu.spec_read_reg_value((requested_address % 8) as usize)
        } else {
            self.memory.ram@[requested_address as int % (RAM_SIZE as int)]
        }
    }

    /// The bus state after a CPU read: only a graphics-register read changes
    /// anything (the status/data register side effects).
    pub open spec fn spec_cpu_read_state(self, requested_address: u16) -> Bus {
        if PPU_REGS_START <= requested_address < APU_REGS_START {
            Bus { ppu: self.ppu.spec_read_reg_state((requested_address % 8) as usize), ..self }
        } else {
            self
        }
    }

    /// A CPU read. Cartridge-space reads need a constructed mapper.
    pub fn read_8bit_cpu(&mut self, requested_address: u16) -> (r: u8)
        requires
            requested_address >= SRAM_START ==> old(self).cart_ready(),
        ensures
            r == old(self).spec_cpu_read_value(requested_address),
            *final(self) == old(self).spec_cpu_read_state(requested_address),
    {
        if requested_address >= SRAM_START {
            let mapper = self.mapper;
            mapper.mapper_read(requested_address as usize, &self.memory.prg_data)
        } else if requested_address >= EXPANSION_ROM_START {
            // Expansion ROM is stubbed: no hardware is modelled there.
            0
        } else if requested_address >= APU_REGS_START {
            // Audio/IO registers are stubbed from the cycle counter, which
            // the execution engine advances after every completed step.
            (self.cpu_cycles_num % 2) as u8
        } else if requested_address >= PPU_REGS_MIRRORS_START {
            self.ppu.read_from_registers((requested_address % 8) as usize)
        } else if requested_address >= PPU_REGS_START {
            self.ppu.read_from_registers((requested_address - PPU_REGS_START) as usize)
        } else if requested_address >= RAM_MIRRORS_START {
            self.memory.ram[(requested_address as usize) % RAM_SIZE]
        } else {
            self.memory.ram[requested_address as usize]
        }
    }

    /// The bus state after a CPU write: cartridge space through the mapper
    /// (which ignores writes outside its RAM window), stubbed regions ignore
    /// the write, graphics registers modulo 8, RAM modulo its 2 KB mirror.
    pub open spec fn spec_cpu_write(self, requested_address: u16, value: u8) -> Bus {
        if requested_address >= SRAM_START {
            Bus {
                memory: Memory {
                    prg_data: self.mapper.spec_write(
                        requested_address as usize,
                        value,
                        self.memory.prg_data,
                    ),
                    ..self.memory
                },
                ..self
            }
        } else if requested_address >= APU_REGS_START {
            self
        } else if requested_address >= PPU_REGS_START {
            Bus { ppu: self.ppu.spec_write_reg((requested_address % 8) as usize, value), ..self }
        } else {
            Bus {
                memory: Memory {
                    ram: vstd::array::spec_array_update(
                        self.memory.ram,
                        requested_address as int % (RAM_SIZE as int),
                        value,
                    ),
                    ..self.memory
                },
                ..self
            }
        }
    }

    /// A CPU write. Cartridge-space writes need a constructed mapper.
    pub fn write_8bit_cpu(&mut self, requested_address: u16, value: u8)
        requires
            requested_address >= SRAM_START ==> old(self).cart_ready(),
        ensures
            *final(self) == old(self).spec_cpu_write(requested_address, value),
    {
        if requested_address >= SRAM_START {
            let mapper = self.mapper;
            mapper.mapper_write(requested_address as usize, value, &mut self.memory.prg_data);
        } else if requested_address >= APU_REGS_START {
            // Writes to the stubbed audio/IO and expansion regions are
            // ignored.
        } else if requested_address >= PPU_REGS_MIRRORS_START {
            self.ppu.write_to_registers((requested_address % 8) as usize, value);
        } else if requested_address >= PPU_REGS_START {
            self.ppu.write_to_registers((requested_address - PPU_REGS_START) as usize, value);
        } else if requested_address >= RAM_MIRRORS_START {
            self.memory.ram[(requested_address as usize) % RAM_SIZE] = value;
            proof {
                broadcast use vstd::array::group_array_axioms;

                assert(self.memory.ram =~= old(self).spec_cpu_write(
                    requested_address,
                    value,
                ).memory.ram);
            }
        } else {
            self.memory.ram[requested_address as usize] = value;
            proof {
                broadcast use vstd::array::group_array_axioms;

                assert(self.memory.ram =~= old(self).spec_cpu_write(
                    requested_address,
                    value,
                ).memory.ram);
            }
        }
    }
}

impl Bus {
    /// The value a graphics-internal (14-bit) read returns: pattern tables
    /// through the mapper against character ROM, name tables from video RAM,
    /// the unused gap as 0, and the palette table modulo its 32-byte size.
    pub open spec fn spec_ppu_read_value(self, requested_address: u16) -> u8 {
        if requested_address < PPU_NAME_TABLES_START {
            self.mapper.spec_read_ppu(requested_address as usize, self.memory.chr_data)
        } else if requested_address < PPU_UNUSED_SPACE_START {
            self.memory.vram@[requested_address - PPU_NAME_TABLES_START]
        } else if requested_address < PPU_PALETTES_START {
            0u8
        } else {
            self.memory.palettes_table@[(requested_address - PPU_PALETTES_START) % (
            PALETTES_SIZE as int)]
        }
    }

    /// A graphics-internal read; the address space is 14 bits wide, and
    /// pattern-table reads need a constructed mapper.
    pub fn read_8bit_ppu(&self, requested_address: u16) -> (r: u8)
        requires
            requested_address <= 0b0011_1111_1111_1111,
            requested_address < PPU_NAME_TABLES_START ==> self.cart_ready(),
        ensures
            r == self.spec_ppu_read_value(requested_address),
    {
        if requested_address < PPU_NAME_TABLES_START {
            self.mapper.mapper_read_ppu(requested_address as usize, &self.memory.chr_data)
        } else if requested_address < PPU_UNUSED_SPACE_START {
            self.memory.vram[(requested_address - PPU_NAME_TABLES_START) as usize]
        } else if requested_address < PPU_PALETTES_START {
            // The unused gap reads as 0.
            0
        } else {
            self.memory.palettes_table[((requested_address - PPU_PALETTES_START) as usize)
                % PALETTES_SIZE]
        }
    }
}

/// RAM mirroring law: for every address in the mirror region
/// 0x0800..=0x1FFF, a CPU read or write is observably identical to the same
/// access at the address modulo 0x0800, which lands in 0x0000..=0x07FF.
pub proof fn lemma_ram_mirrors(bus: Bus, requested_address: u16, value: u8)
    requires
        RAM_MIRRORS_START <= requested_address <= 0x1FFF,
    ensures
        bus.spec_cpu_read_value(requested_address) == bus.spec_cpu_read_value(
            (requested_address % 0x0800) as u16,
        ),
        bus.spec_cpu_read_state(requested_address) == bus.spec_cpu_read_state(
            (requested_address % 0x0800) as u16,
        ),
        bus.spec_cpu_write(requested_address, value) == bus.spec_cpu_write(
            (requested_address % 0x0800) as u16,
            value,
        ),
{
}

/// Graphics-register mirroring law: for every address in the mirror region
/// 0x2008..=0x3FFF, a CPU read or write is observably identical to the same
/// access at 0x2000 plus the address modulo 8.
pub proof fn lemma_graphics_register_mirrors(bus: Bus, requested_address: u16, value: u8)
    requires
        PPU_REGS_MIRRORS_START <= requested_address <= 0x3FFF,
    ensures
        bus.spec_cpu_read_value(requested_address) == bus.spec_cpu_read_value(
            (PPU_REGS_START + requested_address % 8) as u16,
        ),
        bus.spec_cpu_read_state(requested_address) == bus.spec_cpu_read_state(
            (PPU_REGS_START + requested_address % 8) as u16,
        ),
        bus.spec_cpu_write(requested_address, value) == bus.spec_cpu_write(
            (PPU_REGS_START + requested_address % 8) as u16,
            value,
        ),
{
    assert((PPU_REGS_START + requested_address % 8) % 8 == requested_address % 8) by {
        assert(PPU_REGS_START % 8 == 0);
    }
}

impl Bus {
    /// Placeholder for driving the other emulated subsystems; this core
    /// exposes no scheduler.
    pub fn execute_modules(&mut self)
        ensures
            *final(self) == *old(self),
    {
    }
}

} // verus!
