//! Cartridge header parsing and machine construction: decoding the 16-byte
//! header, validating it, and building the CPU, bus and mapper from the ROM
//! bytes. Reading the file itself is the caller's job; this module works on
//! plain bytes.

use vstd::prelude::*;

use crate::bus::Bus;
use crate::common::DataSizes;
use crate::cpu::{Cpu, spec_read16_state, spec_read16_value};
use crate::cpu::shared_ops::{is_flag_set, spec_is_flag_set};
use crate::mappers;
use crate::mappers::{MapperRW, Mappers};
use crate::mappers::nrom::NROM;
use crate::memory::PRG_BUFFER_SIZE;
use crate::ppu::MirroringType;

verus! {

pub const CB1_VRAM_LAYOUT: usize = 3;
pub const CB1_TRAINER: usize = 2;
pub const CB1_BATTERY_RAM: usize = 1;
pub const CB1_MIRRORING_TYPE: usize = 0;

// The header magic: 'N', 'E', 'S', then the 0x1A end-of-file mark.
pub const NES_MAGIC_0: u8 = 0x4E;
pub const NES_MAGIC_1: u8 = 0x45;
pub const NES_MAGIC_2: u8 = 0x53;
pub const NES_MAGIC_3: u8 = 0x1A;

/// Cartridge construction error kinds: missing header magic, non-zero
/// reserved header bytes, or an unsupported program-ROM bank count.
#[derive(Debug, Clone, Copy, PartialEq, Eq, Structural)]
pub enum NesCartridgeError {
    NoNESHeader,
    NESHeaderMustBeZero,
    PRGROMIncorrectNumber,
}

/// Information about the ROM decoded from the cartridge header.
#[derive(Debug, Clone, Copy, PartialEq, Eq, Structural)]
pub struct NESHeaderInfo {
    /// Number of 16 KB program-ROM banks.
    pub number_prgrom_banks: u8,
    /// Number of 8 KB character-ROM banks.
    pub _number_chrrom_banks: u8,
    /// ROM mapper type code.
    pub _mapper_type: u8,
    /// Four-screen VRAM layout.
    pub _four_screen_vram: bool,
    /// Whether a 512-byte trainer precedes the ROM data.
    pub trainer_include: bool,
    /// Battery-backed RAM present.
    pub _battery_packed_ram: bool,
    /// Name-table mirroring wired by the cartridge.
    pub _mirroring_type: MirroringType,
    /// Size of program RAM in 8 KB units.
    pub _prgram_size: u8,
}

/// Whether the header starts with the required magic bytes.
pub open spec fn spec_has_nes_magic(b: Seq<u8>) -> bool {
    b[0] == NES_MAGIC_0 && b[1] == NES_MAGIC_1 && b[2] == NES_MAGIC_2 && b[3] == NES_MAGIC_3
}

/// Whether the reserved header bytes (offsets 9 through 15) are all zero.
pub open spec fn spec_reserved_bytes_zero(b: Seq<u8>) -> bool {
    forall|i: int| 9 <= i < 16 ==> b[i] == 0u8
}

/// The header fields a 16-byte header decodes to.
pub open spec fn spec_header_from_bytes(b: Seq<u8>) -> NESHeaderInfo {
    NESHeaderInfo {
        number_prgrom_banks: b[4],
        _number_chrrom_banks: b[5],
        _mapper_type: ((b[7] & 0xF0) + (b[6] >> 4)) as u8,
        _four_screen_vram: spec_is_flag_set(b[6], CB1_VRAM_LAYOUT),
        trainer_include: spec_is_flag_set(b[6], CB1_TRAINER),
        _battery_packed_ram: spec_is_flag_set(b[6], CB1_BATTERY_RAM),
        _mirroring_type: MirroringType::spec_from_bool(spec_is_flag_set(b[6], CB1_MIRRORING_TYPE)),
        _prgram_size: b[8],
    }
}

/// The two mapper-type nibbles fit together in one byte.
proof fn lemma_header_nibbles(first_control_byte: u8, second_control_byte: u8)
    by (bit_vector)
    ensures
        (first_control_byte >> 4) < 0b0001_0000,
        (second_control_byte & 0xF0) + (first_control_byte >> 4) < 256,
{
}

impl NESHeaderInfo {
    /// Parses a 16-byte cartridge header. The header must start with the
    /// magic bytes, its reserved tail must be zero, and the bank count must
    /// pass validation; each failure is reported with its own error kind.
    pub fn from_bytes(input_header_data: &[u8]) -> (r: Result<NESHeaderInfo, NesCartridgeError>)
        requires
            input_header_data@.len() == 16,
        ensures
            !spec_has_nes_magic(input_header_data@) <==> r == Err::<
                NESHeaderInfo,
                NesCartridgeError,
            >(NesCartridgeError::NoNESHeader),
            spec_has_nes_magic(input_header_data@) && !spec_reserved_bytes_zero(
                input_header_data@,
            ) <==> r == Err::<NESHeaderInfo, NesCartridgeError>(
                NesCartridgeError::NESHeaderMustBeZero,
            ),
            r matches Ok(h) <==> spec_has_nes_magic(input_header_data@)
                && spec_reserved_bytes_zero(input_header_data@) && 1 <= input_header_data@[4] <= 2,
            r matches Ok(h) ==> h == spec_header_from_bytes(input_header_data@),
    {
        let b0 = *vstd::slice::slice_index_get(input_header_data, 0);
        let b1 = *vstd::slice::slice_index_get(input_header_data, 1);
        let b2 = *vstd::slice::slice_index_get(input_header_data, 2);
        let b3 = *vstd::slice::slice_index_get(input_header_data, 3);
        if !(b0 == NES_MAGIC_0 && b1 == NES_MAGIC_1 && b2 == NES_MAGIC_2 && b3 == NES_MAGIC_3) {
            return Err(NesCartridgeError::NoNESHeader);
        }

        let number_prgrom_banks = *vstd::slice::slice_index_get(input_header_data, 4);
        let number_chrrom_banks = *vstd::slice::slice_index_get(input_header_data, 5);

        let first_control_byte = *vstd::slice::slice_index_get(input_header_data, 6);
        let four_screen_vram = is_bit_set(first_control_byte, CB1_VRAM_LAYOUT);
        let trainer_include = is_bit_set(first_control_byte, CB1_TRAINER);
        let battery_packed_ram = is_bit_set(first_control_byte, CB1_BATTERY_RAM);
        let mirroring_type = MirroringType::from_bool(
            is_bit_set(first_control_byte, CB1_MIRRORING_TYPE),
        );

        let second_control_byte = *vstd::slice::slice_index_get(input_header_data, 7);

        proof {
            lemma_header_nibbles(first_control_byte, second_control_byte);
        }
        let mapper_type_low_part = first_control_byte >> 4;
        let mapper_type: u8 = (second_control_byte & 0b1111_0000) + mapper_type_low_part;

        let prgram_size = *vstd::slice::slice_index_get(input_header_data, 8);

        let mut reserved_index: usize = 9;
        while reserved_index < 16
            invariant
                9 <= reserved_index <= 16,
                input_header_data@.len() == 16,
                spec_has_nes_magic(input_header_data@),
                forall|i: int| 9 <= i < reserved_index ==> input_header_data@[i] == 0u8,
            decreases 16 - reserved_index,
        {
            if *vstd::slice::slice_index_get(input_header_data, reserved_index) != 0 {
                return Err(NesCartridgeError::NESHeaderMustBeZero);
            }
            reserved_index += 1;
        }

        let header_info = NESHeaderInfo {
            number_prgrom_banks,
            _number_chrrom_banks: number_chrrom_banks,
            _mapper_type: mapper_type,
            _four_screen_vram: four_screen_vram,
            trainer_include,
            _battery_packed_ram: battery_packed_ram,
            _mirroring_type: mirroring_type,
            _prgram_size: prgram_size,
        };

        header_info.validate()?;

        Ok(header_info)
    }

    /// Checks the bank counts this design supports: one or two 16 KB
    /// program-ROM banks.
    pub fn validate(&self) -> (r: Result<(), NesCartridgeError>)
        ensures
            r is Ok <==> 1 <= self.number_prgrom_banks <= 2,
            r is Err ==> r == Err::<(), NesCartridgeError>(NesCartridgeError::PRGROMIncorrectNumber),
    {
        if self.number_prgrom_banks == 0 || self.number_prgrom_banks > 2 {
            return Err(NesCartridgeError::PRGROMIncorrectNumber);
        }

        Ok(())
    }

    /// Builds the CPU and the bus (with the mapper installed and the program
    /// counter loaded from the reset vector) from the ROM bytes that follow
    /// the header.
    pub fn create_modules(&self, file_data: &[u8]) -> (r: (Cpu, Bus))
        requires
            !self.trainer_include,
            1 <= self.number_prgrom_banks <= 2,
            self._number_chrrom_banks <= 1,
            file_data@.len() >= 0x4000 * self.number_prgrom_banks + 0x2000
                * self._number_chrrom_banks,
        ensures
            r.0.wf(),
            r.1.cart_ready(),
            r.1.mapper == Mappers::NROM(
                NROM {
                    prg_rom_start: 0x2000,
                    prg_rom_mirror: self.number_prgrom_banks == 1,
                },
            ),
            r.1.memory.prg_data@ == Seq::new(0x2000nat, |i: int| 0u8) + file_data@.subrange(
                0,
                0x4000 * self.number_prgrom_banks as int,
            ) + Seq::new(
                (PRG_BUFFER_SIZE - 0x2000 - 0x4000 * self.number_prgrom_banks) as nat,
                |i: int| 0u8,
            ),
            r.0.program_counter == spec_read16_value(r.1, 0xFFFC),
    {
        let mut cpu = Cpu::default();
        let mut bus = Bus::default();

        let prg_rom_size: usize = (DataSizes::Size16K.to_bytes()) * (
        self.number_prgrom_banks as usize);
        let chr_rom_size: usize = (DataSizes::Size8K.to_bytes()) * (
        self._number_chrrom_banks as usize);

        let prg_data = vstd::slice::slice_subrange(file_data, 0, prg_rom_size);
        let chr_data = vstd::slice::slice_subrange(file_data, prg_rom_size, prg_rom_size + chr_rom_size);

        let mapper_result = mappers::create_mapper(0, bus.memory_mut(), prg_data, chr_data);
        let mapper = match mapper_result {
            Ok(m) => m,
            Err(_) => vstd::pervasive::unreached(),
        };

        bus.set_mapper(mapper);

        cpu.init_pc(&mut bus);

        (cpu, bus)
    }
}

/// Delegates to the shared single-bit test.
fn is_bit_set(input_byte: u8, target_bit: usize) -> (r: bool)
    requires
        target_bit < 8,
    ensures
        r == spec_is_flag_set(input_byte, target_bit),
{
    is_flag_set(&input_byte, target_bit)
}

/// Pads a command buffer with zero bytes up to the target size; a buffer
/// already at or over the target is returned unchanged.
pub fn append_missed_data(data_to_append: Vec<u8>, target_size: usize) -> (r: Vec<u8>)
    ensures
        data_to_append@.len() >= target_size ==> r@ == data_to_append@,
        data_to_append@.len() < target_size ==> r@ == data_to_append@ + Seq::new(
            (target_size - data_to_append@.len()) as nat,
            |i: int| 0u8,
        ),
{
    let mut data_to_append = data_to_append;
    if data_to_append.len() >= target_size {
        return data_to_append;
    }
    let ghost initial = data_to_append@;
    while data_to_append.len() < target_size
        invariant
            initial.len() <= data_to_append@.len() <= target_size,
            data_to_append@ == initial + Seq::new(
                (data_to_append@.len() - initial.len()) as nat,
                |i: int| 0u8,
            ),
        decreases target_size - data_to_append@.len(),
    {
        data_to_append.push(0);
        proof {
            assert(data_to_append@ =~= initial + Seq::new(
                (data_to_append@.len() - initial.len()) as nat,
                |i: int| 0u8,
            ));
        }
    }
    data_to_append
}

/// Installs a raw command buffer as a padded 16 KB program ROM behind the
/// fixed mapper, with an empty 8 KB character ROM.
pub fn load_raw_commands(bus: &mut Bus, commands: Vec<u8>)
    requires
        commands@.len() <= 0x4000,
    ensures
        final(bus).cart_ready(),
        final(bus).mapper == Mappers::NROM(NROM { prg_rom_start: 0x2000, prg_rom_mirror: true }),
        final(bus).memory.prg_data@ == Seq::new(0x2000nat, |i: int| 0u8) + (commands@ + Seq::new(
            (0x4000 - commands@.len()) as nat,
            |i: int| 0u8,
        )) + Seq::new((PRG_BUFFER_SIZE - 0x6000) as nat, |i: int| 0u8),
        final(bus).memory.ram == old(bus).memory.ram,
        final(bus).memory.vram == old(bus).memory.vram,
        final(bus).memory.palettes_table == old(bus).memory.palettes_table,
        final(bus).ppu == old(bus).ppu,
        final(bus).cpu_cycles_num == old(bus).cpu_cycles_num,
    {
        let target: usize = DataSizes::Size16K.to_bytes();
        let ghost commands_view = commands@;
        let prg_data = append_missed_data(commands, target);

        let chr_fill: Vec<u8> = vec![0u8; DataSizes::Size8K.to_bytes()];

        let mapper_result = mappers::create_mapper(
            0,
            bus.memory_mut(),
            prg_data.as_slice(),
            chr_fill.as_slice(),
        );
        let mapper = match mapper_result {
            Ok(m) => m,
            Err(_) => vstd::pervasive::unreached(),
        };

        bus.set_mapper(mapper);
        proof {
            if commands_view.len() == 0x4000 {
                assert(prg_data@ =~= commands_view + Seq::new(
                    (0x4000 - commands_view.len()) as nat,
                    |i: int| 0u8,
                ));
            }
        }
    }

} // verus!
