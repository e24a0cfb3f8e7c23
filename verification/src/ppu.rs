//! Graphics-register collaborator: the eight memory-mapped registers (plus
//! the OAM DMA register), the write-order-sensitive address/scroll latches
//! modelled as explicit toggle state, and the scanline counter.

use vstd::prelude::*;

use crate::common::is_bit_set;

verus! {

pub const PPU_CTRL_REG: usize = 0;
pub const PPU_MASK_REG: usize = 1;
pub const PPU_STATUS_REG: usize = 2;
pub const OAM_ADDR_REG: usize = 3;
pub const OAM_DATA_REG: usize = 4;
pub const PPU_SCROLL_REG: usize = 5;
pub const PPU_ADDR_REG: usize = 6;
pub const PPU_DATA_REG: usize = 7;
pub const OAM_DMA_REG: usize = 8;

/// What the renderer reported at a scanline boundary.
#[derive(Debug, Clone, Copy, PartialEq, Eq, Structural)]
pub enum PpuRenderStatus {
    NmiTrigger,
    EndOfFrame,
}

/// Name-table mirroring wired by the cartridge; `None` is the
/// not-yet-configured construction default.
#[derive(Debug, Clone, Copy, PartialEq, Eq, Structural)]
pub enum MirroringType {
    Unset,
    Horizontal,
    Vertical,
}

impl MirroringType {
    pub open spec fn spec_from_bool(input_bool_status: bool) -> MirroringType {
        if input_bool_status {
            MirroringType::Vertical
        } else {
            MirroringType::Horizontal
        }
    }

    pub fn from_bool(input_bool_status: bool) -> (r: MirroringType)
        ensures
            r == MirroringType::spec_from_bool(input_bool_status),
    {
        if input_bool_status {
            MirroringType::Vertical
        } else {
            MirroringType::Horizontal
        }
    }
}

/// Decoded contents of the control register.
#[derive(Debug, Clone, Copy, PartialEq, Eq, Structural)]
pub struct PpuCtrlSettings {
    pub v_blank_nmi: bool,
    pub master_slave_mode: bool,
    pub sprite_size: u8,
    pub bg_addr: u16,
    pub sprite_pt_address: u16,
    pub vram_address_inc: u16,
    pub base_nametables_addr: u8,
}

impl Default for PpuCtrlSettings {
    fn default() -> (r: Self)
        ensures
            r == PpuCtrlSettings::spec_default(),
    {
        Self {
            v_blank_nmi: false,
            master_slave_mode: false,
            sprite_size: 8,
            bg_addr: 0x0000,
            sprite_pt_address: 0x0000,
            vram_address_inc: 1,
            base_nametables_addr: 0,
        }
    }
}

impl PpuCtrlSettings {
    pub open spec fn spec_default() -> PpuCtrlSettings {
        PpuCtrlSettings {
            v_blank_nmi: false,
            master_slave_mode: false,
            sprite_size: 8,
            bg_addr: 0x0000,
            sprite_pt_address: 0x0000,
            vram_address_inc: 1,
            base_nametables_addr: 0,
        }
    }

    /// The control settings that a register byte decodes to.
    pub open spec fn spec_from_byte(settings: u8) -> PpuCtrlSettings {
        PpuCtrlSettings {
            v_blank_nmi: settings & 0b1000_0000 == 0b1000_0000,
            master_slave_mode: settings & 0b0100_0000 == 0b0100_0000,
            sprite_size: if settings & 0b0010_0000 == 0b0010_0000 {
                16u8
            } else {
                8u8
            },
            bg_addr: if settings & 0b0001_0000 == 0b0001_0000 {
                0x1000u16
            } else {
                0x0000u16
            },
            sprite_pt_address: if settings & 0b0000_1000 == 0b0000_1000 {
                0x1000u16
            } else {
                0x0000u16
            },
            vram_address_inc: if settings & 0b0000_0100 == 0b0000_0100 {
                32u16
            } else {
                1u16
            },
            base_nametables_addr: (settings % 4) as u8,
        }
    }

    fn set(&mut self, settings: u8)
        ensures
            *final(self) == PpuCtrlSettings::spec_from_byte(settings),
    {
        self.v_blank_nmi = is_bit_set(settings, 0b1000_0000);
        self.master_slave_mode = is_bit_set(settings, 0b0100_0000);

        self.sprite_size = if is_bit_set(settings, 0b0010_0000) {
            16
        } else {
            8
        };

        self.bg_addr = if is_bit_set(settings, 0b0001_0000) {
            0x1000
        } else {
            0x0000
        };

        self.sprite_pt_address = if is_bit_set(settings, 0b0000_1000) {
            0x1000
        } else {
            0x0000
        };

        self.vram_address_inc = if is_bit_set(settings, 0b0000_0100) {
            32
        } else {
            1
        };

        self.base_nametables_addr = settings % 4;
    }
}

impl PpuCtrlSettings {
    /// The contribution of the base name-table selector to the internal
    /// address latch.
    pub open spec fn spec_base_nametables_addr_to_t_reg(&self) -> u16 {
        (self.base_nametables_addr as u16) << 14
    }

    fn base_nametables_addr_to_t_reg(&self) -> (r: u16)
        ensures
            r == self.spec_base_nametables_addr_to_t_reg(),
    {
        (self.base_nametables_addr as u16) << 14
    }
}

/// Decoded contents of the mask (render-settings) register.
#[derive(Debug, Clone, Copy, PartialEq, Eq, Structural)]
pub struct PpuMaskSetting {
    pub emphasize_blue: bool,
    pub emphasize_green: bool,
    pub emphasize_red: bool,
    pub sprite_render: bool,
    pub bg_render: bool,
    pub leftmost_sprite_render: bool,
    pub leftmost_bg_render: bool,
    pub greyscale: bool,
}

impl Default for PpuMaskSetting {
    fn default() -> (r: Self)
        ensures
            r == PpuMaskSetting::spec_default(),
    {
        PpuMaskSetting {
            emphasize_blue: false,
            emphasize_green: false,
            emphasize_red: false,
            sprite_render: false,
            bg_render: false,
            leftmost_sprite_render: false,
            leftmost_bg_render: false,
            greyscale: false,
        }
    }
}

impl PpuMaskSetting {
    pub open spec fn spec_default() -> PpuMaskSetting {
        PpuMaskSetting {
            emphasize_blue: false,
            emphasize_green: false,
            emphasize_red: false,
            sprite_render: false,
            bg_render: false,
            leftmost_sprite_render: false,
            leftmost_bg_render: false,
            greyscale: false,
        }
    }

    /// The mask settings that a register byte decodes to.
    pub open spec fn spec_from_byte(settings: u8) -> PpuMaskSetting {
        PpuMaskSetting {
            emphasize_blue: settings & 0b1000_0000 == 0b1000_0000,
            emphasize_green: settings & 0b0100_0000 == 0b0100_0000,
            emphasize_red: settings & 0b0010_0000 == 0b0010_0000,
            sprite_render: settings & 0b0001_0000 == 0b0001_0000,
            bg_render: settings & 0b0000_1000 == 0b0000_1000,
            leftmost_sprite_render: settings & 0b0000_0100 == 0b0000_0100,
            leftmost_bg_render: settings & 0b0000_0010 == 0b0000_0010,
            greyscale: settings & 0b0000_0001 == 0b0000_0001,
        }
    }

    fn set(&mut self, settings: u8)
        ensures
            *final(self) == PpuMaskSetting::spec_from_byte(settings),
    {
        self.emphasize_blue = is_bit_set(settings, 0b1000_0000);
        self.emphasize_green = is_bit_set(settings, 0b0100_0000);
        self.emphasize_red = is_bit_set(settings, 0b0010_0000);
        self.sprite_render = is_bit_set(settings, 0b0001_0000);
        self.bg_render = is_bit_set(settings, 0b0000_1000);
        self.leftmost_sprite_render = is_bit_set(settings, 0b0000_0100);
        self.leftmost_bg_render = is_bit_set(settings, 0b0000_0010);
        self.greyscale = is_bit_set(settings, 0b0000_0001);
    }
}

/// The status register, with its three flag bits and open-bus low bits.
#[derive(Debug, Clone, Copy, PartialEq, Eq, Structural)]
pub struct PpuStatus {
    pub value: u8,
}

impl Default for PpuStatus {
    fn default() -> (r: Self)
        ensures
            r == (PpuStatus { value: 0u8 }),
    {
        PpuStatus { value: 0 }
    }
}

impl PpuStatus {
    pub fn set_v_blank(&mut self)
        ensures
            final(self).value == old(self).value | 0b1000_0000,
    {
        self.value |= 0b1000_0000
    }

    pub fn clear_v_blank(&mut self)
        ensures
            final(self).value == old(self).value & 0b0111_1111,
    {
        self.value &= 0b0111_1111
    }

    pub fn set_sprite_zero_hit(&mut self)
        ensures
            final(self).value == old(self).value | 0b0100_0000,
    {
        self.value |= 0b0100_0000
    }

    pub fn clear_sprite_zero_hit(&mut self)
        ensures
            final(self).value == old(self).value & 0b1011_1111,
    {
        self.value &= 0b1011_1111
    }

    pub fn set_sprite_overflow(&mut self)
        ensures
            final(self).value == old(self).value | 0b0010_0000,
    {
        self.value |= 0b0010_0000
    }

    pub fn clear_sprite_overflow(&mut self)
        ensures
            final(self).value == old(self).value & 0b1101_1111,
    {
        self.value &= 0b1101_1111
    }

    /// A CPU write to the read-only status register only refreshes the
    /// open-bus low bits.
    pub fn open_bus_write(&mut self, value_to_write: u8)
        ensures
            final(self).value == (old(self).value & 0b1110_0000) | (0b0001_1111 & value_to_write),
    {
        self.value &= 0b1110_0000;
        self.value |= 0b0001_1111 & value_to_write;
    }
}

/// The graphics collaborator: register file, latch state, and scanline
/// bookkeeping. Only the bus talks to it.
#[derive(Debug, Clone, Copy)]
pub struct Ppu {
    pub scanline: u16,
    pub cycles_per_scanline: u16,
    pub cycles: usize,
    pub render_status: Option<PpuRenderStatus>,
    pub registers: [u8; 9],
    pub oam_data: [u8; 256],
    pub t_register: u16,
    pub write_toogle: bool,
    pub x_scroll: u8,
    pub y_scroll: u8,
    pub ctrl_settings: PpuCtrlSettings,
    pub render_settings: PpuMaskSetting,
    pub ppu_status: PpuStatus,
    pub mirroring: MirroringType,
}

impl Ppu {
    /// The power-on state of the graphics collaborator.
    pub open spec fn spec_is_default(&self) -> bool {
        &&& self.scanline == 0
        &&& self.cycles_per_scanline == 0
        &&& self.cycles == 0
        &&& self.render_status is None
        &&& (forall|i: int| 0 <= i < 9 ==> self.registers@[i] == 0u8)
        &&& (forall|i: int| 0 <= i < 256 ==> self.oam_data@[i] == 0u8)
        &&& self.t_register == 0
        &&& !self.write_toogle
        &&& self.x_scroll == 0
        &&& self.y_scroll == 0
        &&& self.ctrl_settings == PpuCtrlSettings::spec_default()
        &&& self.render_settings == PpuMaskSetting::spec_default()
        &&& self.ppu_status == (PpuStatus { value: 0u8 })
        &&& self.mirroring is Unset
    }
}

impl Default for Ppu {
    fn default() -> (r: Self)
        ensures
            r.spec_is_default(),
    {
        Self {
            scanline: 0,
            cycles_per_scanline: 0,
            cycles: 0,
            render_status: None,
            registers: [0u8; 9],
            oam_data: [0u8; 256],
            t_register: 0,
            write_toogle: false,
            x_scroll: 0,
            y_scroll: 0,
            ctrl_settings: PpuCtrlSettings::default(),
            render_settings: PpuMaskSetting::default(),
            ppu_status: PpuStatus::default(),
            mirroring: MirroringType::Unset,
        }
    }
}

impl Ppu {
    /// The state after a CPU write to the given register, including the
    /// half-write toggle discipline of the scroll and address latches.
    pub open spec fn spec_write_reg(self, register: usize, data: u8) -> Ppu {
        if register == PPU_CTRL_REG {
            let ctrl = PpuCtrlSettings::spec_from_byte(data);
            Ppu {
                registers: vstd::array::spec_array_update(self.registers, PPU_CTRL_REG as int, data),
                ctrl_settings: ctrl,
                t_register: (self.t_register & 0b0011_1111_1111_1111)
                    | ctrl.spec_base_nametables_addr_to_t_reg(),
                ..self
            }
        } else if register == PPU_MASK_REG {
            Ppu {
                registers: vstd::array::spec_array_update(self.registers, PPU_MASK_REG as int, data),
                render_settings: PpuMaskSetting::spec_from_byte(data),
                ..self
            }
        } else if register == PPU_STATUS_REG {
            Ppu {
                ppu_status: PpuStatus {
                    value: (self.ppu_status.value & 0b1110_0000) | (0b0001_1111 & data),
                },
                ..self
            }
        } else if register == OAM_ADDR_REG {
            Ppu {
                registers: vstd::array::spec_array_update(self.registers, OAM_ADDR_REG as int, data),
                ..self
            }
        } else if register == OAM_DATA_REG {
            Ppu {
                registers: vstd::array::spec_array_update(
                    vstd::array::spec_array_update(
                        self.registers,
                        OAM_ADDR_REG as int,
                        (self.registers@[OAM_ADDR_REG as int]).wrapping_add(1),
                    ),
                    OAM_DATA_REG as int,
                    data,
                ),
                ..self
            }
        } else if register == PPU_SCROLL_REG {
            if !self.write_toogle {
                Ppu {
                    x_scroll: data,
                    write_toogle: true,
                    registers: vstd::array::spec_array_update(
                        self.registers,
                        PPU_SCROLL_REG as int,
                        data,
                    ),
                    ..self
                }
            } else {
                Ppu {
                    y_scroll: data,
                    registers: vstd::array::spec_array_update(
                        self.registers,
                        PPU_SCROLL_REG as int,
                        data,
                    ),
                    ..self
                }
            }
        } else if register == PPU_ADDR_REG {
            if !self.write_toogle {
                Ppu {
                    t_register: (self.t_register & 0b1000_0000_0000_0000)
                        | (((data & 0b0011_1111) as u16) << 8),
                    write_toogle: true,
                    registers: vstd::array::spec_array_update(
                        self.registers,
                        PPU_ADDR_REG as int,
                        data,
                    ),
                    ..self
                }
            } else {
                Ppu {
                    t_register: self.t_register.wrapping_add(data as u16),
                    write_toogle: false,
                    registers: vstd::array::spec_array_update(
                        self.registers,
                        PPU_ADDR_REG as int,
                        data,
                    ),
                    ..self
                }
            }
        } else if register == PPU_DATA_REG {
            Ppu {
                registers: vstd::array::spec_array_update(self.registers, PPU_DATA_REG as int, data),
                t_register: self.t_register.wrapping_add(self.ctrl_settings.vram_address_inc),
                ..self
            }
        } else {
            Ppu {
                registers: vstd::array::spec_array_update(self.registers, OAM_DMA_REG as int, data),
                ..self
            }
        }
    }

    /// A CPU write to a graphics register.
    pub fn write_to_registers(&mut self, register: usize, data: u8)
        requires
            register <= 8,
        ensures
            *final(self) == old(self).spec_write_reg(register, data),
    {
        match register {
            0 => {
                self.registers[PPU_CTRL_REG] = data;
                self.ctrl_settings.set(data);
                self.t_register &= 0b0011_1111_1111_1111;
                self.t_register |= self.ctrl_settings.base_nametables_addr_to_t_reg();
            },
            1 => {
                self.registers[PPU_MASK_REG] = data;
                self.render_settings.set(data);
            },
            2 => {
                self.ppu_status.open_bus_write(data);
            },
            3 => {
                self.registers[OAM_ADDR_REG] = data;
            },
            4 => {
                let incremented = self.registers[OAM_ADDR_REG].wrapping_add(1);
                self.registers[OAM_ADDR_REG] = incremented;
                self.registers[OAM_DATA_REG] = data;
            },
            5 => {
                if !self.write_toogle {
                    self.x_scroll = data;
                    self.write_toogle = true;
                } else {
                    self.y_scroll = data;
                }
                self.registers[PPU_SCROLL_REG] = data;
            },
            6 => {
                if !self.write_toogle {
                    self.t_register &= 0b1000_0000_0000_0000;
                    self.t_register |= ((data & 0b0011_1111) as u16) << 8;
                    self.write_toogle = true;
                } else {
                    self.t_register = self.t_register.wrapping_add(data as u16);
                    self.write_toogle = false;
                }
                self.registers[PPU_ADDR_REG] = data;
            },
            7 => {
                self.registers[PPU_DATA_REG] = data;
                self.t_register = self.t_register.wrapping_add(self.ctrl_settings.vram_address_inc)
            },
            _ => {
                self.registers[OAM_DMA_REG] = data;
            },
        }
        proof {
            broadcast use vstd::array::group_array_axioms;

            assert(self.registers =~= old(self).spec_write_reg(register, data).registers);
        }
    }

    /// The value a CPU read of the given register returns.
    pub open spec fn spec_read_reg_value(self, register: usize) -> u8 {
        if register == PPU_STATUS_REG {
            self.ppu_status.value
        } else if register == OAM_DATA_REG {
            self.registers@[OAM_DATA_REG as int]
        } else if register == PPU_DATA_REG {
            self.registers@[PPU_DATA_REG as int]
        } else {
            0u8
        }
    }

    /// The state after a CPU read of the given register: reading the status
    /// register clears the write toggle and the vertical-blank bit, reading
    /// the data register advances the address latch.
    pub open spec fn spec_read_reg_state(self, register: usize) -> Ppu {
        if register == PPU_STATUS_REG {
            let cleared = self.ppu_status.value & 0b0111_1111;
            Ppu {
                write_toogle: false,
                ppu_status: PpuStatus { value: cleared },
                registers: vstd::array::spec_array_update(
                    self.registers,
                    PPU_STATUS_REG as int,
                    cleared,
                ),
                ..self
            }
        } else if register == PPU_DATA_REG {
            Ppu {
                t_register: self.t_register.wrapping_add(self.ctrl_settings.vram_address_inc),
                ..self
            }
        } else {
            self
        }
    }

    /// A CPU read of a graphics register. Write-only registers read as 0.
    pub fn read_from_registers(&mut self, register: usize) -> (r: u8)
        requires
            register <= 8,
        ensures
            r == old(self).spec_read_reg_value(register),
            *final(self) == old(self).spec_read_reg_state(register),
    {
        let r = match register {
            0 | 1 | 3 | 5 | 6 | 8 => 0,
            2 => {
                self.write_toogle = false;
                let ppu_status_state = self.ppu_status.value;
                self.ppu_status.clear_v_blank();
                let cleared = self.ppu_status.value;
                self.registers[PPU_STATUS_REG] = cleared;
                ppu_status_state
            },
            4 => self.registers[OAM_DATA_REG],
            _ => {
                self.t_register = self.t_register.wrapping_add(self.ctrl_settings.vram_address_inc);
                self.registers[PPU_DATA_REG]
            },
        };
        proof {
            broadcast use vstd::array::group_array_axioms;

            assert(self.registers =~= old(self).spec_read_reg_state(register).registers);
        }
        r
    }
}

impl Ppu {
    /// Where a name-table address lands after the cartridge-controlled
    /// mirroring is applied.
    pub open spec fn spec_nametable_mirroring(self, vram_address: u16) -> u16 {
        match self.mirroring {
            MirroringType::Unset => vram_address,
            MirroringType::Horizontal => {
                if self.ctrl_settings.base_nametables_addr % 2 == 1 {
                    (vram_address - 0x0400) as u16
                } else {
                    vram_address
                }
            },
            MirroringType::Vertical => {
                if self.ctrl_settings.base_nametables_addr >= 2 {
                    (vram_address - 0x0800) as u16
                } else {
                    vram_address
                }
            },
        }
    }

    /// Applies name-table mirroring; the mirroring mode must have been wired
    /// at cartridge load, and the address must lie in the aliased bank.
    pub fn nametable_mirroring(&mut self, vram_address: u16) -> (r: u16)
        requires
            !(old(self).mirroring is Unset),
            old(self).mirroring is Horizontal && old(self).ctrl_settings.base_nametables_addr % 2
                == 1 ==> vram_address >= 0x0400,
            old(self).mirroring is Vertical && old(self).ctrl_settings.base_nametables_addr >= 2
                ==> vram_address >= 0x0800,
        ensures
            *final(self) == *old(self),
            r == old(self).spec_nametable_mirroring(vram_address),
    {
        match self.mirroring {
            MirroringType::Unset => vram_address,
            MirroringType::Horizontal => {
                if self.ctrl_settings.base_nametables_addr % 2 == 1 {
                    vram_address - 0x0400
                } else {
                    vram_address
                }
            },
            MirroringType::Vertical => {
                if self.ctrl_settings.base_nametables_addr >= 2 {
                    vram_address - 0x0800
                } else {
                    vram_address
                }
            },
        }
    }
}

impl Ppu {
    /// The scanline-boundary step taken at the start of a cycle batch: when a
    /// scanline's cycle budget is spent, the scanline counter advances and
    /// the render status reports the vertical-blank or end-of-frame boundary.
    pub open spec fn spec_scanline_step(self) -> Ppu {
        if self.cycles_per_scanline >= 341 {
            let next = (self.scanline + 1) as u16;
            if next == 241 {
                Ppu {
                    cycles_per_scanline: 0,
                    scanline: next,
                    render_status: Some(PpuRenderStatus::NmiTrigger),
                    ..self
                }
            } else if next >= 262 {
                Ppu {
                    cycles_per_scanline: 0,
                    scanline: 0,
                    render_status: Some(PpuRenderStatus::EndOfFrame),
                    ..self
                }
            } else {
                Ppu { cycles_per_scanline: 0, scanline: next, ..self }
            }
        } else {
            self
        }
    }

    /// Advances the cycle counter by the given amount, taking the scanline
    /// boundary step when one is pending. The boundary step happens at most
    /// once per batch: it resets the per-scanline cycle budget first.
    pub fn execute_cycles(&mut self, cycles_num: usize)
        requires
            old(self).cycles + cycles_num <= usize::MAX,
            old(self).scanline < 0xFFFF,
        ensures
            cycles_num == 0 ==> *final(self) == *old(self),
            cycles_num > 0 ==> *final(self) == (Ppu {
                cycles: (old(self).cycles + cycles_num) as usize,
                ..old(self).spec_scanline_step()
            }),
    {
        if cycles_num == 0 {
            return ;
        }
        if self.cycles_per_scanline >= 341 {
            self.cycles_per_scanline = 0;
            self.scanline += 1;

            if self.scanline == 241 {
                self.render_status = Some(PpuRenderStatus::NmiTrigger);
            } else if self.scanline >= 262 {
                self.render_status = Some(PpuRenderStatus::EndOfFrame);
                self.scanline = 0;
            }
        }

        self.cycles = self.cycles + cycles_num;
    }
}

} // verus!
