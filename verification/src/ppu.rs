//! The picture-processing unit's register interface: the address
//! latch, the control register, and the buffered data-port read.

use vstd::prelude::*;

use crate::rom::Mirroring;

verus! {

/// The two-byte PPU address latch, written one byte at a time
/// through 0x2006.
pub struct AddrRegister {
    /// The (high, low) bytes of the address.
    pub value: (u8, u8),
    /// Whether the next write sets the high byte.
    pub hi_ptr: bool,
}

impl AddrRegister {
    /// The 14-bit address the latch currently holds.
    pub open spec fn spec_get(&self) -> u16 {
        (self.value.0 * 0x100 + self.value.1) as u16
    }

    /// The latch never holds an address above the PPU address space.
    pub open spec fn inv(&self) -> bool {
        self.spec_get() <= 0x3FFF
    }

    /// A fresh latch: address zero, next write sets the high byte.
    pub fn new() -> (r: AddrRegister)
        ensures
            r.inv(),
            r.spec_get() == 0,
            r.hi_ptr == true,
    {
        AddrRegister { value: (0, 0), hi_ptr: true }
    }

    /// The address as a word.
    pub fn get(&self) -> (r: u16)
        ensures
            r == self.spec_get(),
    {
        self.value.0 as u16 * 0x100 + self.value.1 as u16
    }

    /// Replaces the whole address.
    fn set(&mut self, data: u16)
        requires
            data <= 0x3FFF,
        ensures
            final(self).inv(),
            final(self).spec_get() == data,
            final(self).hi_ptr == old(self).hi_ptr,
    {
        self.value.0 = (data / 0x100) as u8;
        self.value.1 = (data % 0x100) as u8;
    }

    /// One byte arriving through 0x2006: the first write sets the
    /// high byte, the second the low byte; the address is reduced
    /// modulo 0x4000; the latch toggles.
    pub fn update(&mut self, data: u8)
        requires
            old(self).inv(),
        ensures
            final(self).inv(),
            final(self).hi_ptr == !old(self).hi_ptr,
            final(self).spec_get() == (if old(self).hi_ptr {
                (data * 0x100 + old(self).value.1) % 0x4000
            } else {
                (old(self).value.0 * 0x100 + data) % 0x4000
            }),
    {
        if self.hi_ptr {
            self.value.0 = data;
        } else {
            self.value.1 = data;
        }
        if self.get() > 0x3FFF {
            let masked = self.get() % 0x4000;
            self.set(masked);
        }
        self.hi_ptr = !self.hi_ptr;
    }

    /// Advances the address by `inc`, wrapping within the 14-bit
    /// PPU address space.
    pub fn increment(&mut self, inc: u8)
        requires
            old(self).inv(),
        ensures
            final(self).inv(),
            final(self).hi_ptr == old(self).hi_ptr,
            final(self).spec_get() == (old(self).spec_get() + inc) % 0x4000,
    {
        let sum = self.value.1 as u16 + inc as u16;
        self.value.1 = (sum % 0x100) as u8;
        if sum > 0xFF {
            self.value.0 = self.value.0.wrapping_add(1);
        }
        if self.get() > 0x3FFF {
            let masked = self.get() % 0x4000;
            self.set(masked);
        }
    }

    /// Makes the next write set the high byte again.
    pub fn reset_latch(&mut self)
        ensures
            final(self).value == old(self).value,
            final(self).spec_get() == old(self).spec_get(),
            final(self).hi_ptr == true,
            old(self).inv() ==> final(self).inv(),
    {
        self.hi_ptr = true;
    }
}

/// The PPU control register behind 0x2000.
pub struct ControlRegister {
    /// The raw register byte.
    pub status: u8,
}

impl ControlRegister {
    /// 1 when the flag selected by `flag_mask` is set, 0 otherwise.
    pub fn get_flag(&self, flag_mask: u8) -> (r: u8)
        ensures
            r == crate::machine::flag_bit(self.status, flag_mask),
    {
        if (self.status & flag_mask) != 0 {
            1
        } else {
            0
        }
    }

    /// Sets the flag selected by `flag_mask` when `value == 1`,
    /// clears it otherwise.
    pub fn set_flag(&mut self, flag_mask: u8, value: u8)
        ensures
            final(self).status == crate::machine::set_flag_val(
                old(self).status,
                flag_mask,
                value,
            ),
    {
        if value == 1 {
            self.status = self.status | flag_mask;
        } else {
            self.status = self.status & !flag_mask;
        }
    }

    /// How far a data-port access moves the address latch: 1, or 32
    /// when the increment flag (bit 2) is set.
    pub fn vram_addr_increment(&self) -> (r: u8)
        ensures
            r == (if self.status & 0b100 == 0 {
                1u8
            } else {
                32u8
            }),
    {
        if self.status & 0b100 == 0 {
            1
        } else {
            32
        }
    }

    /// Replaces the whole register byte.
    pub fn update(&mut self, data: u8)
        ensures
            final(self).status == data,
    {
        self.status = data;
    }
}

/// Where in its 2 KiB of video RAM the PPU finds the name-table byte
/// for an address in 0x2000..=0x2FFF, under the given mirroring.
pub open spec fn mirror_vram_index(mirroring: Mirroring, addr: u16) -> int {
    let vram_index = addr - 0x2000;
    let name_table = vram_index / 0x400;
    match mirroring {
        Mirroring::Vertical => if name_table == 2 || name_table == 3 {
            vram_index - 0x800
        } else {
            vram_index
        },
        Mirroring::Horizontal => if name_table == 1 || name_table == 2 {
            vram_index - 0x400
        } else if name_table == 3 {
            vram_index - 0x800
        } else {
            vram_index
        },
        Mirroring::FourScreen => vram_index,
    }
}

/// The picture-processing unit, reduced to the register interface
/// the CPU bus exposes.
pub struct PPU {
    /// Character (pattern) ROM from the cartridge.
    pub chr_rom: Vec<u8>,
    /// The 32 palette entries.
    pub palette_table: Vec<u8>,
    /// 2 KiB of video RAM holding the name tables.
    pub vram: Vec<u8>,
    /// Object-attribute memory for the 64 sprites.
    pub oam_data: Vec<u8>,
    /// Name-table mirroring from the cartridge header.
    pub mirroring: Mirroring,
    /// The address latch behind 0x2006.
    pub addr: AddrRegister,
    /// The control register behind 0x2000.
    pub ctrl: ControlRegister,
    /// The buffered byte that delayed data-port reads return.
    pub internal_data_buf: u8,
}

impl PPU {
    /// Well-formedness: the fixed-size tables have their sizes and
    /// the address latch is in range.
    pub open spec fn inv(&self) -> bool {
        &&& self.palette_table@.len() == 32
        &&& self.vram@.len() == 0x800
        &&& self.oam_data@.len() == 256
        &&& self.addr.inv()
    }

    /// A fresh PPU over the given character ROM and mirroring.
    pub fn new(chr_rom: Vec<u8>, mirroring: Mirroring) -> (r: PPU)
        ensures
            r.inv(),
            r.chr_rom == chr_rom,
            r.mirroring == mirroring,
            r.addr.spec_get() == 0,
            r.ctrl.status == 0,
            r.internal_data_buf == 0,
            forall|i: int| 0 <= i < 0x800 ==> r.vram@[i] == 0u8,
            forall|i: int| 0 <= i < 32 ==> r.palette_table@[i] == 0u8,
    {
        let mut vram: Vec<u8> = Vec::new();
        let mut i: usize = 0;
        while i < 0x800
            invariant
                i <= 0x800,
                vram@.len() == i,
                forall|j: int| 0 <= j < i ==> vram@[j] == 0u8,
            decreases 0x800 - i,
        {
            vram.push(0u8);
            i = i + 1;
        }
        let mut palette_table: Vec<u8> = Vec::new();
        let mut i: usize = 0;
        while i < 32
            invariant
                i <= 32,
                palette_table@.len() == i,
                forall|j: int| 0 <= j < i ==> palette_table@[j] == 0u8,
            decreases 32 - i,
        {
            palette_table.push(0u8);
            i = i + 1;
        }
        let mut oam_data: Vec<u8> = Vec::new();
        let mut i: usize = 0;
        while i < 256
            invariant
                i <= 256,
                oam_data@.len() == i,
            decreases 256 - i,
        {
            oam_data.push(0u8);
            i = i + 1;
        }
        PPU {
            chr_rom,
            palette_table,
            vram,
            oam_data,
            mirroring,
            addr: AddrRegister::new(),
            ctrl: ControlRegister { status: 0 },
            internal_data_buf: 0,
        }
    }

    /// A write to 0x2000: replaces the control register.
    pub fn write_to_ctrl(&mut self, value: u8)
        ensures
            *final(self) == (PPU {
                ctrl: ControlRegister { status: value },
                ..*old(self)
            }),
    {
        self.ctrl.update(value);
    }

    /// A write to 0x2006: one byte into the address latch.
    pub fn write_to_ppu_addr(&mut self, value: u8)
        requires
            old(self).inv(),
        ensures
            final(self).inv(),
            final(self).addr.hi_ptr == !old(self).addr.hi_ptr,
            *final(self) == (PPU { addr: final(self).addr, ..*old(self) }),
    {
        self.addr.update(value);
    }

    /// Moves the address latch by the increment the control register
    /// selects.
    pub fn increment_vram_addr(&mut self)
        requires
            old(self).inv(),
        ensures
            final(self).inv(),
            final(self).addr.spec_get() == (old(self).addr.spec_get() + (if old(
                self,
            ).ctrl.status & 0b100 == 0 {
                1int
            } else {
                32int
            })) % 0x4000,
            *final(self) == (PPU { addr: final(self).addr, ..*old(self) }),
    {
        let inc = self.ctrl.vram_addr_increment();
        self.addr.increment(inc);
    }

    /// Where the byte for a name-table address lives in video RAM.
    pub fn mirror_vram_addr(&self, addr: u16) -> (r: u16)
        requires
            0x2000 <= addr <= 0x2FFF,
            0 <= mirror_vram_index(self.mirroring, addr) < 0x800,
        ensures
            r == mirror_vram_index(self.mirroring, addr),
    {
        let vram_index = addr - 0x2000;
        let name_table = vram_index / 0x400;
        match self.mirroring {
            Mirroring::Vertical => {
                if name_table == 2 || name_table == 3 {
                    vram_index - 0x800
                } else {
                    vram_index
                }
            },
            Mirroring::Horizontal => {
                if name_table == 1 || name_table == 2 {
                    vram_index - 0x400
                } else if name_table == 3 {
                    vram_index - 0x800
                } else {
                    vram_index
                }
            },
            Mirroring::FourScreen => vram_index,
        }
    }

    /// A read of the data port 0x2007.
    ///
    /// Reads below the palette region are buffered: the caller gets
    /// the previously buffered byte and the byte at the current
    /// address replaces the buffer.  Palette reads are immediate.
    /// Every read moves the address latch by the configured
    /// increment.
    pub fn read_data(&mut self) -> (r: u8)
        requires
            old(self).inv(),
            old(self).addr.spec_get() <= 0x1FFF ==> old(self).addr.spec_get() < old(
                self,
            ).chr_rom@.len(),
            0x2000 <= old(self).addr.spec_get() <= 0x2FFF ==> 0 <= mirror_vram_index(
                old(self).mirroring,
                old(self).addr.spec_get(),
            ) < 0x800,
            !(0x3000 <= old(self).addr.spec_get() <= 0x3EFF),
            old(self).addr.spec_get() >= 0x3F00 ==> old(self).addr.spec_get() <= 0x3F1F,
        ensures
            final(self).inv(),
            final(self).addr.spec_get() == (old(self).addr.spec_get() + (if old(
                self,
            ).ctrl.status & 0b100 == 0 {
                1int
            } else {
                32int
            })) % 0x4000,
            ({
                let a = old(self).addr.spec_get();
                if a <= 0x1FFF {
                    r == old(self).internal_data_buf && final(self).internal_data_buf == old(
                        self,
                    ).chr_rom@[a as int]
                } else if a <= 0x2FFF {
                    r == old(self).internal_data_buf && final(self).internal_data_buf == old(
                        self,
                    ).vram@[mirror_vram_index(old(self).mirroring, a)]
                } else {
                    r == old(self).palette_table@[a - 0x3F00] && final(self).internal_data_buf
                        == old(self).internal_data_buf
                }
            }),
            final(self).chr_rom == old(self).chr_rom,
            final(self).vram == old(self).vram,
            final(self).palette_table == old(self).palette_table,
            final(self).oam_data == old(self).oam_data,
            final(self).mirroring == old(self).mirroring,
            final(self).ctrl == old(self).ctrl,
    {
        let addr = self.addr.get();
        self.increment_vram_addr();
        if addr <= 0x1FFF {
            let result = self.internal_data_buf;
            self.internal_data_buf = self.chr_rom[addr as usize];
            result
        } else if addr <= 0x2FFF {
            let result = self.internal_data_buf;
            let idx = self.mirror_vram_addr(addr);
            self.internal_data_buf = self.vram[idx as usize];
            result
        } else {
            self.palette_table[(addr - 0x3F00) as usize]
        }
    }
}

} // verus!
