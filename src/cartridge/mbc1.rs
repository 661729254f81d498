use vstd::prelude::*;
use super::{MemController, switchable_rom, cartridge_ram};
use crate::util::zeros;

verus! {

const RAM_SIZE: usize = 0x8000;

/// The MBC1 bank controller: up to 2 MiB of ROM and 32 KiB of RAM.
pub struct Mbc1 {
    /// The ROM from 0x4000 on: bank `k` starts at `(k - 1) * 0x4000`.
    pub rom: Vec<u8>,
    pub ram: Vec<u8>,
    pub ram_enabled: bool,
    /// Low five bits of the ROM bank.
    pub bank_low: u8,
    /// Two upper ROM bank bits, or the RAM bank in RAM banking mode.
    pub bank_high: u8,
    /// RAM banking mode.
    pub mode: bool,
}

impl Mbc1 {
    /// The ROM bank mapped at 0x4000; a zero low part selects bank 1.
    pub open spec fn rom_bank(&self) -> int {
        let low = if self.bank_low == 0 {
            1int
        } else {
            self.bank_low as int
        };
        if self.mode {
            low
        } else {
            self.bank_high as int * 32 + low
        }
    }

    /// The RAM bank mapped at 0xA000.
    pub open spec fn ram_bank(&self) -> int {
        if self.mode {
            self.bank_high as int
        } else {
            0
        }
    }

    /// Offset in `rom` that a read at 0x4000..0x7FFF reaches.
    pub open spec fn rom_offset(&self, index: u16) -> int {
        (self.rom_bank() - 1) * 0x4000 + (index - 0x4000)
    }

    /// Offset in `ram` that an access at 0xA000..0xBFFF reaches.
    pub open spec fn ram_offset(&self, index: u16) -> int {
        self.ram_bank() * 0x2000 + (index - 0xA000)
    }

    fn rom_offset_exec(&self, index: u16) -> (r: usize)
        requires
            switchable_rom(index),
            self.bank_low < 32,
            self.bank_high < 4,
        ensures
            r == self.rom_offset(index),
    {
        let low: usize = if self.bank_low == 0 {
            1
        } else {
            self.bank_low as usize
        };
        let bank: usize = if self.mode {
            low
        } else {
            self.bank_high as usize * 32 + low
        };
        (bank - 1) * 0x4000 + (index - 0x4000) as usize
    }

    fn ram_offset_exec(&self, index: u16) -> (r: usize)
        requires
            cartridge_ram(index),
            self.bank_high < 4,
        ensures
            r == self.ram_offset(index),
            r < 0x8000,
    {
        let bank: usize = if self.mode {
            self.bank_high as usize
        } else {
            0
        };
        bank * 0x2000 + (index - 0xA000) as usize
    }
}

impl Default for Mbc1 {
    fn default() -> (r: Self)
        ensures
            r.inv(),
            r.loaded(Seq::empty()),
    {
        Mbc1 {
            rom: Vec::new(),
            ram: zeros(RAM_SIZE),
            ram_enabled: false,
            bank_low: 1,
            bank_high: 0,
            mode: false,
        }
    }
}

impl MemController for Mbc1 {
    open spec fn inv(&self) -> bool {
        self.ram@.len() == 0x8000 && self.bank_low < 32 && self.bank_high < 4
    }

    open spec fn read_spec(&self, index: u16) -> u8 {
        if switchable_rom(index) {
            if self.rom_offset(index) < self.rom@.len() {
                self.rom@[self.rom_offset(index)]
            } else {
                0xFF
            }
        } else if self.ram_enabled {
            self.ram@[self.ram_offset(index)]
        } else {
            0xFF
        }
    }

    /// 0x0000..0x1FFF enables RAM (low nibble 0xA), 0x2000..0x3FFF sets the
    /// low ROM bank bits, 0x4000..0x5FFF the upper bits, 0x6000..0x7FFF the
    /// mode; enabled RAM stores the value.
    open spec fn written(&self, after: &Self, index: u16, val: u8) -> bool {
        if index <= 0x1FFF {
            *after == Mbc1 { ram_enabled: val & 0x0F == 0x0A, ..*self }
        } else if index <= 0x3FFF {
            *after == Mbc1 { bank_low: val & 0x1F, ..*self }
        } else if index <= 0x5FFF {
            *after == Mbc1 { bank_high: val & 0x03, ..*self }
        } else if index <= 0x7FFF {
            *after == Mbc1 { mode: val & 1 == 1, ..*self }
        } else {
            &&& after.rom@ == self.rom@
            &&& after.ram_enabled == self.ram_enabled
            &&& after.bank_low == self.bank_low
            &&& after.bank_high == self.bank_high
            &&& after.mode == self.mode
            &&& after.ram@ == (if self.ram_enabled {
                self.ram@.update(self.ram_offset(index), val)
            } else {
                self.ram@
            })
        }
    }

    open spec fn loaded(&self, rom: Seq<u8>) -> bool {
        &&& self.rom@ == rom
        &&& self.ram@ == Seq::new(0x8000, |i: int| 0u8)
        &&& !self.ram_enabled
        &&& self.bank_low == 1
        &&& self.bank_high == 0
        &&& !self.mode
    }

    fn read(&self, index: u16) -> (r: u8) {
        if index >= 0x4000 && index <= 0x7FFF {
            let off = self.rom_offset_exec(index);
            if off < self.rom.len() {
                self.rom[off]
            } else {
                0xFF
            }
        } else if self.ram_enabled {
            self.ram[self.ram_offset_exec(index)]
        } else {
            0xFF
        }
    }

    fn write(&mut self, index: u16, val: u8) {
        if index <= 0x1FFF {
            self.ram_enabled = val & 0x0F == 0x0A;
        } else if index <= 0x3FFF {
            self.bank_low = val & 0x1F;
            assert(val & 0x1F < 32) by (bit_vector);
        } else if index <= 0x5FFF {
            self.bank_high = val & 0x03;
            assert(val & 0x03 < 4) by (bit_vector);
        } else if index <= 0x7FFF {
            self.mode = val & 1 == 1;
        } else if self.ram_enabled {
            let off = self.ram_offset_exec(index);
            self.ram[off] = val;
        }
    }

    fn load_rom(&mut self, bytes: Vec<u8>) {
        self.rom = bytes;
        self.ram = zeros(RAM_SIZE);
        self.ram_enabled = false;
        self.bank_low = 1;
        self.bank_high = 0;
        self.mode = false;
    }
}

} // verus!
