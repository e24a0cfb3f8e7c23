//! Tests for the cartridge header parser, the mapper construction rules, and
//! the fixed-mapping scheme's banking behavior.

use flynes::bus::Bus;
use flynes::cartridges::{NESHeaderInfo, NesCartridgeError, load_raw_commands};
use flynes::mappers::{MapperRW, Mappers, MappersError};
use flynes::mappers::nrom::NROM;
use flynes::memory::Memory;
use flynes::ppu::MirroringType;

fn header_bytes() -> Vec<u8> {
    let mut header = vec![0u8; 16];
    header[0] = 0x4E;  // 'N'
    header[1] = 0x45;  // 'E'
    header[2] = 0x53;  // 'S'
    header[3] = 0x1A;
    header[4] = 1;  // one 16 KB program bank
    header[5] = 1;  // one 8 KB character bank
    header
}

#[test]
fn test_header_magic_error() {
    let mut header = header_bytes();
    header[0] = 0x4D;
    assert_eq!(NESHeaderInfo::from_bytes(&header), Err(NesCartridgeError::NoNESHeader));
}

#[test]
fn test_header_reserved_bytes_error() {
    let mut header = header_bytes();
    header[12] = 1;
    assert_eq!(NESHeaderInfo::from_bytes(&header), Err(NesCartridgeError::NESHeaderMustBeZero));
}

#[test]
fn test_header_bank_count_error() {
    let mut header = header_bytes();
    header[4] = 0;
    assert_eq!(NESHeaderInfo::from_bytes(&header), Err(NesCartridgeError::PRGROMIncorrectNumber));
    header[4] = 3;
    assert_eq!(NESHeaderInfo::from_bytes(&header), Err(NesCartridgeError::PRGROMIncorrectNumber));
}

#[test]
fn test_header_decoding() {
    let mut header = header_bytes();
    header[4] = 2;
    header[6] = 0b0001_0011;  // mapper low nibble 1, vertical mirroring, battery RAM
    header[7] = 0b0010_0000;  // mapper high nibble 2
    header[8] = 3;

    let info = NESHeaderInfo::from_bytes(&header).unwrap();
    assert_eq!(info.number_prgrom_banks, 2);
    assert_eq!(info._number_chrrom_banks, 1);
    assert_eq!(info._mapper_type, 0x21);
    assert!(!info._four_screen_vram);
    assert!(!info.trainer_include);
    assert!(info._battery_packed_ram);
    assert_eq!(info._mirroring_type, MirroringType::Vertical);
    assert_eq!(info._prgram_size, 3);
}

#[test]
fn test_nrom_rejects_wrong_sizes() {
    // A program-ROM buffer whose length is neither 16 KB nor 32 KB is a size
    // error.
    let mut mem = Memory::default();
    let chr = vec![0u8; 0x2000];

    let short_prg = vec![0u8; 0x4000 - 1];
    assert_eq!(NROM::init(&mut mem, &short_prg, &chr), Err(MappersError::IncorrectSizePRGROM));

    let long_prg = vec![0u8; 0x8000 + 1];
    assert_eq!(NROM::init(&mut mem, &long_prg, &chr), Err(MappersError::IncorrectSizePRGROM));

    let good_prg = vec![0u8; 0x4000];
    let bad_chr = vec![0u8; 0x1000];
    assert_eq!(NROM::init(&mut mem, &good_prg, &bad_chr), Err(MappersError::IncorrectSizeCHRROM));
}

#[test]
fn test_nrom_sixteen_kb_is_mirrored() {
    // A 16 KB image answers reads in both halves of the 32 KB cartridge
    // window with the same bytes.
    let mut mem = Memory::default();
    let mut prg = vec![0u8; 0x4000];
    for (i, byte) in prg.iter_mut().enumerate() {
        *byte = (i % 253) as u8;
    }
    let chr: Vec<u8> = Vec::new();

    let mapper = NROM::init(&mut mem, &prg, &chr).unwrap();
    assert!(matches!(mapper, Mappers::NROM(_)));

    for offset in [0usize, 1, 0x1234, 0x3FFF] {
        let lower = mapper.mapper_read(0x8000 + offset, mem.prg_data());
        let upper = mapper.mapper_read(0xC000 + offset, mem.prg_data());
        assert_eq!(lower, prg[offset]);
        assert_eq!(upper, prg[offset]);
    }
}

#[test]
fn test_nrom_thirtytwo_kb_is_flat() {
    let mut mem = Memory::default();
    let mut prg = vec![0u8; 0x8000];
    for (i, byte) in prg.iter_mut().enumerate() {
        *byte = (i % 251) as u8;
    }
    let chr: Vec<u8> = Vec::new();

    let mapper = NROM::init(&mut mem, &prg, &chr).unwrap();
    for offset in [0usize, 0x3FFF, 0x4000, 0x7FFF] {
        assert_eq!(mapper.mapper_read(0x8000 + offset, mem.prg_data()), prg[offset]);
    }
}

#[test]
fn test_nrom_ram_window_and_readonly_rom() {
    let mut bus = Bus::default();
    load_raw_commands(&mut bus, vec![0x55u8; 0x4000]);

    // The 8 KB RAM window at 0x6000..=0x7FFF is writable and readable.
    bus.write_8bit_cpu(0x6000, 0x11);
    bus.write_8bit_cpu(0x7FFF, 0x22);
    assert_eq!(bus.read_8bit_cpu(0x6000), 0x11);
    assert_eq!(bus.read_8bit_cpu(0x7FFF), 0x22);

    // Writes into the ROM-backed region are ignored.
    assert_eq!(bus.read_8bit_cpu(0x8000), 0x55);
    bus.write_8bit_cpu(0x8000, 0x99);
    assert_eq!(bus.read_8bit_cpu(0x8000), 0x55);
}

#[test]
fn test_create_modules_loads_reset_vector() {
    let mut header = header_bytes();
    header[5] = 0;  // no character ROM
    let info = NESHeaderInfo::from_bytes(&header).unwrap();

    let mut file_data = vec![0u8; 0x4000];
    file_data[0x3FFC] = 0x00;  // reset vector low byte, mirrored to 0xFFFC
    file_data[0x3FFD] = 0xC0;  // reset vector high byte

    let (cpu, mut bus) = info.create_modules(&file_data);
    assert_eq!(cpu.get_program_counter(), 0xC000);
    assert!(matches!(bus.mapper, Mappers::NROM(_)));
    assert_eq!(bus.read_8bit_cpu(0xFFFC), 0x00);
    assert_eq!(bus.read_8bit_cpu(0xFFFD), 0xC0);
}

#[test]
fn test_expansion_and_apu_regions_are_stubbed() {
    let mut bus = Bus::default();
    load_raw_commands(&mut bus, vec![0x55u8; 0x4000]);

    // The expansion region reads as 0 and swallows writes.
    bus.write_8bit_cpu(0x4020, 0x33);
    bus.write_8bit_cpu(0x5FFF, 0x33);
    assert_eq!(bus.read_8bit_cpu(0x4020), 0);
    assert_eq!(bus.read_8bit_cpu(0x5FFF), 0);

    // The audio/IO registers are stubbed from the cycle counter.
    assert_eq!(bus.read_8bit_cpu(0x4000), 0);
    assert_eq!(bus.read_8bit_cpu(0x401F), 0);
}
