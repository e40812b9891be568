//! The picture unit's register interface: it reacts to the processor's reads
//! and writes of its eight registers since its last tick.
use vstd::prelude::*;
use crate::memory::{PPU_REGISTER_COUNT, RAM};

verus! {

/// Bit `index` of `byte`, as 0 or 1.
pub open spec fn bit_of(byte: u8, index: u8) -> u8 {
    (byte >> index) & 1
}

fn get_bit(byte: u8, index: u8) -> (r: u8)
    requires
        index < 8,
    ensures
        r == bit_of(byte, index),
{
    (byte >> index) & 1
}

/// What a write of the control register selects.
#[derive(Clone, Copy, Debug, PartialEq, Eq, Structural)]
pub struct PpuCtrl {
    pub nametable_address: u16,
    pub vram_address_increment: u16,
    pub sprite_pattern_table_addr: u16,
    pub bg_pattern_table_addr: u16,
    pub sprite_size: u8,
    pub gen_nmi: u8,
}

/// What a write of the mask register selects, one bit per field.
#[derive(Clone, Copy, Debug, PartialEq, Eq, Structural)]
pub struct PpuMask {
    pub grey_scale: u8,
    pub show_bg_left: u8,
    pub show_spr_left: u8,
    pub show_bg: u8,
    pub show_spr: u8,
    pub emphasize_red: u8,
    pub emphasize_green: u8,
    pub emphasize_blue: u8,
}

/// The two scroll offsets, written one after the other.
#[derive(Clone, Copy, Debug, PartialEq, Eq, Structural)]
pub struct PpuScroll {
    pub horiz_offset: u8,
    pub vert_offset: u8,
    pub write_byte: u8,
}

/// The video address, written high byte first.
#[derive(Clone, Copy, Debug, PartialEq, Eq, Structural)]
pub struct PpuAddr {
    pub address: u16,
    pub write_byte: u8,
}

/// The control register's settings for a written byte.
pub open spec fn ctrl_from(byte_val: u8) -> PpuCtrl {
    PpuCtrl {
        nametable_address: (0x2000 + 0x400 * (byte_val % 4)) as u16,
        vram_address_increment: if bit_of(byte_val, 2) == 1 {
            32
        } else {
            1
        },
        sprite_pattern_table_addr: if bit_of(byte_val, 3) == 1 {
            0x1000
        } else {
            0
        },
        bg_pattern_table_addr: if bit_of(byte_val, 4) == 1 {
            0x1000
        } else {
            0
        },
        sprite_size: bit_of(byte_val, 5),
        gen_nmi: bit_of(byte_val, 7),
    }
}

/// The mask register's settings for a written byte.
pub open spec fn mask_from(byte_val: u8) -> PpuMask {
    PpuMask {
        grey_scale: bit_of(byte_val, 0),
        show_bg_left: bit_of(byte_val, 1),
        show_spr_left: bit_of(byte_val, 2),
        show_bg: bit_of(byte_val, 3),
        show_spr: bit_of(byte_val, 4),
        emphasize_red: bit_of(byte_val, 5),
        emphasize_green: bit_of(byte_val, 6),
        emphasize_blue: bit_of(byte_val, 7),
    }
}

/// The picture unit's register state.
#[derive(Debug)]
pub struct PPU {
    pub ppuctrl: PpuCtrl,
    pub ppumask: PpuMask,
    pub oamaddr: u8,
    pub oamdata: u8,
    pub ppuscroll: PpuScroll,
    pub ppuaddr: PpuAddr,
}

impl PPU {
    /// The video address stays inside the 14-bit video space and steps by 1 or 32.
    pub open spec fn wf(&self) -> bool {
        &&& self.ppuaddr.address < 0x4000
        &&& (self.ppuctrl.vram_address_increment == 1 || self.ppuctrl.vram_address_increment == 32)
    }

    /// The power-on state: everything zero, name table zero, step of one.
    pub fn new() -> (r: PPU)
        ensures
            r.wf(),
            r.ppuctrl == ctrl_from(0),
            r.ppumask == mask_from(0),
            r.ppuaddr.address == 0,
            r.ppuaddr.write_byte == 0,
            r.ppuscroll.write_byte == 0,
    {
        assert(bit_of(0, 0) == 0 && bit_of(0, 1) == 0 && bit_of(0, 2) == 0 && bit_of(0, 3) == 0
            && bit_of(0, 4) == 0 && bit_of(0, 5) == 0 && bit_of(0, 6) == 0 && bit_of(0, 7) == 0)
            by (bit_vector);
        PPU {
            ppuctrl: PpuCtrl {
                nametable_address: 0x2000,
                vram_address_increment: 1,
                sprite_pattern_table_addr: 0,
                bg_pattern_table_addr: 0,
                sprite_size: 0,
                gen_nmi: 0,
            },
            ppumask: PpuMask {
                grey_scale: 0,
                show_bg_left: 0,
                show_spr_left: 0,
                show_bg: 0,
                show_spr: 0,
                emphasize_red: 0,
                emphasize_green: 0,
                emphasize_blue: 0,
            },
            oamaddr: 0,
            oamdata: 0,
            ppuscroll: PpuScroll { horiz_offset: 0, vert_offset: 0, write_byte: 0 },
            ppuaddr: PpuAddr { address: 0, write_byte: 0 },
        }
    }

    /// Reacts to every register access since the last tick, in register
    /// order, then forgets the accesses. A write of the data register stores
    /// its byte at the video address; a read loads the data register from it;
    /// either way the address then steps by the control register's increment.
    pub fn run(&mut self, mem: &mut RAM)
        requires
            old(self).wf(),
        ensures
            final(self).wf(),
            old(mem)@.written[0] ==> final(self).ppuctrl == ctrl_from(old(mem)@.regs[0]),
            !old(mem)@.written[0] ==> final(self).ppuctrl == old(self).ppuctrl,
            old(mem)@.written[1] ==> final(self).ppumask == mask_from(old(mem)@.regs[1]),
            !old(mem)@.written[1] ==> final(self).ppumask == old(self).ppumask,
            final(mem)@.written == Seq::new(PPU_REGISTER_COUNT as nat, |i: int| false),
            final(mem)@.read == Seq::new(PPU_REGISTER_COUNT as nat, |i: int| false),
            final(mem)@.ram == old(mem)@.ram,
            final(mem)@.rom == old(mem)@.rom,
            final(mem)@.bank_two == old(mem)@.bank_two,
            !old(mem)@.written[0] && !old(mem)@.written[6] && old(mem)@.written[7]
                ==> final(mem)@.vram_byte(old(self).ppuaddr.address) == old(mem)@.regs[7],
            !old(mem)@.written[0] && !old(mem)@.written[6] && !old(mem)@.written[7]
                && old(mem)@.read[7] ==> final(mem)@.regs[7] == old(mem)@.vram_byte(
                old(self).ppuaddr.address,
            ),
    {
        if mem.was_written(0) {
            let value = mem.peek_mem_value(0x2000);
            self.updatePpuCtrl(value);
        }
        if mem.was_written(1) {
            let value = mem.peek_mem_value(0x2001);
            self.updatePpuMask(value);
        }
        if mem.was_read(2) {
            self.readPpuStatus();
        }
        if mem.was_written(3) {
            let value = mem.peek_mem_value(0x2003);
            self.updateOAMAddr(value);
        }
        if mem.was_written(4) {
            let value = mem.peek_mem_value(0x2004);
            self.updateOAMData(value);
        }
        if mem.was_written(5) {
            let value = mem.peek_mem_value(0x2005);
            self.updatePpuScroll(value);
        }
        if mem.was_written(6) {
            let value = mem.peek_mem_value(0x2006);
            self.updatePpuAddr(value);
        }
        if mem.was_written(7) {
            let value = mem.read_ppu_data_no_incr();
            mem.write_vram_value(self.ppuaddr.address, value);
            self.step_address();
        }
        if mem.was_read(7) {
            let value = mem.read_vram_value(self.ppuaddr.address);
            mem.write_ppu_data_no_incr(value);
            self.step_address();
        }
        mem.clear_read_write_regs();
    }

    fn step_address(&mut self)
        requires
            old(self).wf(),
        ensures
            final(self).wf(),
            final(self).ppuaddr.address == (old(self).ppuaddr.address
                + old(self).ppuctrl.vram_address_increment) % 0x4000,
            final(self).ppuaddr.write_byte == old(self).ppuaddr.write_byte,
            final(self).ppuctrl == old(self).ppuctrl,
            final(self).ppumask == old(self).ppumask,
    {
        self.ppuaddr.address = (self.ppuaddr.address + self.ppuctrl.vram_address_increment) % 0x4000;
    }

    /// Applies a write of the control register.
    #[allow(non_snake_case)]
    pub fn updatePpuCtrl(&mut self, byte_val: u8)
        ensures
            final(self).ppuctrl == ctrl_from(byte_val),
            final(self).ppumask == old(self).ppumask,
            final(self).ppuaddr == old(self).ppuaddr,
            final(self).ppuscroll == old(self).ppuscroll,
            final(self).oamaddr == old(self).oamaddr,
            final(self).oamdata == old(self).oamdata,
    {
        let name_table_idx = byte_val % 4;
        self.ppuctrl.nametable_address = 0x2000 + 0x400 * name_table_idx as u16;
        self.ppuctrl.vram_address_increment = if get_bit(byte_val, 2) == 1 {
            32
        } else {
            1
        };
        self.ppuctrl.sprite_pattern_table_addr = if get_bit(byte_val, 3) == 1 {
            0x1000
        } else {
            0
        };
        self.ppuctrl.bg_pattern_table_addr = if get_bit(byte_val, 4) == 1 {
            0x1000
        } else {
            0
        };
        self.ppuctrl.sprite_size = get_bit(byte_val, 5);
        self.ppuctrl.gen_nmi = get_bit(byte_val, 7);
    }

    /// Applies a write of the mask register.
    #[allow(non_snake_case)]
    pub fn updatePpuMask(&mut self, byte_val: u8)
        ensures
            final(self).ppumask == mask_from(byte_val),
            final(self).ppuctrl == old(self).ppuctrl,
            final(self).ppuaddr == old(self).ppuaddr,
            final(self).ppuscroll == old(self).ppuscroll,
            final(self).oamaddr == old(self).oamaddr,
            final(self).oamdata == old(self).oamdata,
    {
        self.ppumask.grey_scale = get_bit(byte_val, 0);
        self.ppumask.show_bg_left = get_bit(byte_val, 1);
        self.ppumask.show_spr_left = get_bit(byte_val, 2);
        self.ppumask.show_bg = get_bit(byte_val, 3);
        self.ppumask.show_spr = get_bit(byte_val, 4);
        self.ppumask.emphasize_red = get_bit(byte_val, 5);
        self.ppumask.emphasize_green = get_bit(byte_val, 6);
        self.ppumask.emphasize_blue = get_bit(byte_val, 7);
    }

    /// A read of the status register resets the scroll and address write latches.
    #[allow(non_snake_case)]
    pub fn readPpuStatus(&mut self)
        ensures
            final(self).ppuscroll == (PpuScroll { write_byte: 0, ..old(self).ppuscroll }),
            final(self).ppuaddr == (PpuAddr { write_byte: 0, ..old(self).ppuaddr }),
            final(self).ppuctrl == old(self).ppuctrl,
            final(self).ppumask == old(self).ppumask,
            final(self).oamaddr == old(self).oamaddr,
            final(self).oamdata == old(self).oamdata,
    {
        self.ppuscroll.write_byte = 0;
        self.ppuaddr.write_byte = 0;
    }

    /// The first write sets the horizontal offset, the second the vertical one.
    #[allow(non_snake_case)]
    pub fn updatePpuScroll(&mut self, byte_val: u8)
        ensures
            old(self).ppuscroll.write_byte == 0 ==> final(self).ppuscroll == (PpuScroll {
                horiz_offset: byte_val,
                write_byte: 1,
                ..old(self).ppuscroll
            }),
            old(self).ppuscroll.write_byte != 0 ==> final(self).ppuscroll == (PpuScroll {
                vert_offset: byte_val,
                write_byte: 0,
                ..old(self).ppuscroll
            }),
            final(self).ppuctrl == old(self).ppuctrl,
            final(self).ppumask == old(self).ppumask,
            final(self).ppuaddr == old(self).ppuaddr,
            final(self).oamaddr == old(self).oamaddr,
            final(self).oamdata == old(self).oamdata,
    {
        if self.ppuscroll.write_byte == 0 {
            self.ppuscroll.horiz_offset = byte_val;
            self.ppuscroll.write_byte = 1;
        } else {
            self.ppuscroll.vert_offset = byte_val;
            self.ppuscroll.write_byte = 0;
        }
    }

    /// The first write sets the high byte of the video address (its top two
    /// bits dropped, the space being 14 bits wide), the second the low byte.
    #[allow(non_snake_case)]
    pub fn updatePpuAddr(&mut self, byte_val: u8)
        ensures
            old(self).ppuaddr.write_byte == 0 ==> final(self).ppuaddr == (PpuAddr {
                address: ((byte_val % 64) * 256) as u16,
                write_byte: 1,
            }),
            old(self).ppuaddr.write_byte != 0 ==> final(self).ppuaddr == (PpuAddr {
                address: (old(self).ppuaddr.address / 256 * 256 + byte_val) as u16,
                write_byte: 0,
            }),
            old(self).ppuaddr.address < 0x4000 ==> final(self).ppuaddr.address < 0x4000,
            final(self).ppuctrl == old(self).ppuctrl,
            final(self).ppumask == old(self).ppumask,
            final(self).ppuscroll == old(self).ppuscroll,
            final(self).oamaddr == old(self).oamaddr,
            final(self).oamdata == old(self).oamdata,
    {
        if self.ppuaddr.write_byte == 0 {
            self.ppuaddr.address = (byte_val % 64) as u16 * 256;
            self.ppuaddr.write_byte = 1;
        } else {
            self.ppuaddr.address = self.ppuaddr.address / 256 * 256 + byte_val as u16;
            self.ppuaddr.write_byte = 0;
        }
    }

    /// Sets the sprite-memory address.
    #[allow(non_snake_case)]
    pub fn updateOAMAddr(&mut self, byte_val: u8)
        ensures
            final(self).oamaddr == byte_val,
            final(self).oamdata == old(self).oamdata,
            final(self).ppuctrl == old(self).ppuctrl,
            final(self).ppumask == old(self).ppumask,
            final(self).ppuscroll == old(self).ppuscroll,
            final(self).ppuaddr == old(self).ppuaddr,
    {
        self.oamaddr = byte_val;
    }

    /// Takes a sprite-memory byte and steps the sprite-memory address.
    #[allow(non_snake_case)]
    pub fn updateOAMData(&mut self, byte_val: u8)
        ensures
            final(self).oamdata == byte_val,
            final(self).oamaddr == (old(self).oamaddr + 1) % 256,
            final(self).ppuctrl == old(self).ppuctrl,
            final(self).ppumask == old(self).ppumask,
            final(self).ppuscroll == old(self).ppuscroll,
            final(self).ppuaddr == old(self).ppuaddr,
    {
        self.oamdata = byte_val;
        self.oamaddr = self.oamaddr.wrapping_add(1);
    }
}

impl Default for PPU {
    fn default() -> (r: PPU)
        ensures
            r.wf(),
            r.ppuctrl == ctrl_from(0),
            r.ppumask == mask_from(0),
            r.ppuaddr.address == 0,
    {
        PPU::new()
    }
}

} // verus!
