use vstd::prelude::*;
use super::{MemController, switchable_rom};
use crate::util::zeros;

verus! {

const RAM_SIZE: usize = 0x200;

/// The MBC2 bank controller: up to 256 KiB of ROM and a built-in RAM of
/// 512 four-bit cells.
pub struct Mbc2 {
    /// The ROM from 0x4000 on: bank `k` starts at `(k - 1) * 0x4000`.
    pub rom: Vec<u8>,
    /// 512 cells; only the low nibble of each is kept.
    pub ram: Vec<u8>,
    pub ram_enabled: bool,
    /// The ROM bank register (four bits).
    pub bank: u8,
}

impl Mbc2 {
    /// The ROM bank mapped at 0x4000; zero selects bank 1.
    pub open spec fn rom_bank(&self) -> int {
        if self.bank == 0 {
            1int
        } else {
            self.bank as int
        }
    }

    pub open spec fn rom_offset(&self, index: u16) -> int {
        (self.rom_bank() - 1) * 0x4000 + (index - 0x4000)
    }

    /// The RAM cell an access at 0xA000..0xBFFF reaches: the RAM repeats
    /// every 512 bytes.
    pub open spec fn ram_offset(index: u16) -> int {
        (index - 0xA000) % 512
    }
}

impl Default for Mbc2 {
    fn default() -> (r: Self)
        ensures
            r.inv(),
            r.loaded(Seq::empty()),
    {
        Mbc2 { rom: Vec::new(), ram: zeros(RAM_SIZE), ram_enabled: false, bank: 1 }
    }
}

impl MemController for Mbc2 {
    open spec fn inv(&self) -> bool {
        self.ram@.len() == 0x200 && self.bank < 16
    }

    open spec fn read_spec(&self, index: u16) -> u8 {
        if switchable_rom(index) {
            if self.rom_offset(index) < self.rom@.len() {
                self.rom@[self.rom_offset(index)]
            } else {
                0xFF
            }
        } else if self.ram_enabled {
            0xF0 | (self.ram@[Self::ram_offset(index)] & 0x0F)
        } else {
            0xFF
        }
    }

    /// Below 0x4000, bit 8 of the address chooses: clear, RAM enable (low
    /// nibble 0xA); set, the ROM bank (low nibble). Enabled RAM keeps the
    /// low nibble of the value.
    open spec fn written(&self, after: &Self, index: u16, val: u8) -> bool {
        if index <= 0x3FFF {
            if index & 0x100 == 0 {
                *after == Mbc2 { ram_enabled: val & 0x0F == 0x0A, ..*self }
            } else {
                *after == Mbc2 { bank: val & 0x0F, ..*self }
            }
        } else if index <= 0x7FFF {
            *after == *self
        } else {
            &&& after.rom@ == self.rom@
            &&& after.ram_enabled == self.ram_enabled
            &&& after.bank == self.bank
            &&& after.ram@ == (if self.ram_enabled {
                self.ram@.update(Self::ram_offset(index), val & 0x0F)
            } else {
                self.ram@
            })
        }
    }

    open spec fn loaded(&self, rom: Seq<u8>) -> bool {
        &&& self.rom@ == rom
        &&& self.ram@ == Seq::new(0x200, |i: int| 0u8)
        &&& !self.ram_enabled
        &&& self.bank == 1
    }

    fn read(&self, index: u16) -> (r: u8) {
        if index >= 0x4000 && index <= 0x7FFF {
            let bank: usize = if self.bank == 0 {
                1
            } else {
                self.bank as usize
            };
            let off = (bank - 1) * 0x4000 + (index - 0x4000) as usize;
            if off < self.rom.len() {
                self.rom[off]
            } else {
                0xFF
            }
        } else if self.ram_enabled {
            0xF0 | (self.ram[((index - 0xA000) % 512) as usize] & 0x0F)
        } else {
            0xFF
        }
    }

    fn write(&mut self, index: u16, val: u8) {
        if index <= 0x3FFF {
            if index & 0x100 == 0 {
                self.ram_enabled = val & 0x0F == 0x0A;
            } else {
                self.bank = val & 0x0F;
                assert(val & 0x0F < 16) by (bit_vector);
            }
        } else if index <= 0x7FFF {
        } else if self.ram_enabled {
            self.ram[((index - 0xA000) % 512) as usize] = val & 0x0F;
        }
    }

    fn load_rom(&mut self, bytes: Vec<u8>) {
        self.rom = bytes;
        self.ram = zeros(RAM_SIZE);
        self.ram_enabled = false;
        self.bank = 1;
    }
}

} // verus!
