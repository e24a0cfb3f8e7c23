//! Tests for the graphics-register latches and the graphics-internal address
//! space.

use flynes::bus::Bus;
use flynes::cartridges::load_raw_commands;
use flynes::ppu::Ppu;

#[test]
fn test_address_latch_half_writes() {
    // Two half-writes through the address register assemble one value in the
    // internal latch; the write toggle orders them.
    let mut ppu = Ppu::default();

    ppu.write_to_registers(6, 0x21);
    assert!(ppu.write_toogle);
    assert_eq!(ppu.t_register, 0x2100);

    ppu.write_to_registers(6, 0x34);
    assert!(!ppu.write_toogle);
    assert_eq!(ppu.t_register, 0x2134);

    // The first half-write keeps only the low six bits of the high byte.
    ppu.write_to_registers(6, 0xFF);
    assert_eq!(ppu.t_register & 0x3F00, 0x3F00);
}

#[test]
fn test_scroll_latch_half_writes() {
    let mut ppu = Ppu::default();

    ppu.write_to_registers(5, 0x10);
    assert_eq!(ppu.x_scroll, 0x10);
    assert!(ppu.write_toogle);

    ppu.write_to_registers(5, 0x20);
    assert_eq!(ppu.y_scroll, 0x20);
}

#[test]
fn test_status_read_clears_latch_and_vblank() {
    let mut ppu = Ppu::default();
    ppu.ppu_status.set_v_blank();
    ppu.write_to_registers(5, 0x10);
    assert!(ppu.write_toogle);

    let status = ppu.read_from_registers(2);
    assert_eq!(status & 0x80, 0x80);
    assert!(!ppu.write_toogle);

    // The vertical-blank bit reads as cleared the second time.
    let status = ppu.read_from_registers(2);
    assert_eq!(status & 0x80, 0);
}

#[test]
fn test_ctrl_register_decoding() {
    let mut ppu = Ppu::default();
    ppu.write_to_registers(0, 0b1010_0110);

    assert!(ppu.ctrl_settings.v_blank_nmi);
    assert!(!ppu.ctrl_settings.master_slave_mode);
    assert_eq!(ppu.ctrl_settings.sprite_size, 16);
    assert_eq!(ppu.ctrl_settings.bg_addr, 0x0000);
    assert_eq!(ppu.ctrl_settings.vram_address_inc, 32);
    assert_eq!(ppu.ctrl_settings.base_nametables_addr, 2);
}

#[test]
fn test_graphics_space_regions() {
    let mut bus = Bus::default();
    let mut commands = vec![0u8; 0x4000];
    commands[0] = 0xEA;
    load_raw_commands(&mut bus, commands);

    // Pattern tables read through the mapper against character ROM (all
    // zeros here).
    assert_eq!(bus.read_8bit_ppu(0x0000), 0);
    assert_eq!(bus.read_8bit_ppu(0x1FFF), 0);

    // Name tables are backed by video RAM.
    bus.memory.vram[0x0123] = 0x42;
    assert_eq!(bus.read_8bit_ppu(0x2123), 0x42);

    // The unused gap reads as 0; the palette table is backed storage.
    assert_eq!(bus.read_8bit_ppu(0x3000), 0);
    bus.memory.palettes_table[0x05] = 0x3C;
    assert_eq!(bus.read_8bit_ppu(0x3F05), 0x3C);
}

#[test]
fn test_scanline_cycle_accounting() {
    let mut ppu = Ppu::default();
    ppu.execute_cycles(10);
    assert_eq!(ppu.cycles, 10);
    assert_eq!(ppu.scanline, 0);

    // A spent scanline budget advances the scanline at the next batch.
    ppu.cycles_per_scanline = 341;
    ppu.execute_cycles(1);
    assert_eq!(ppu.scanline, 1);
    assert_eq!(ppu.cycles_per_scanline, 0);
    assert_eq!(ppu.cycles, 11);
}
