use vstd::prelude::*;
use super::{MemController, switchable_rom, cartridge_ram};
use crate::util::zeros;

verus! {

const RAM_SIZE: usize = 0x2000;

/// A cartridge without a bank controller: a fixed second ROM bank and an
/// optional 8 KiB of RAM.
pub struct NoMbc {
    /// The ROM from 0x4000 on.
    pub rom: Vec<u8>,
    pub ram: Vec<u8>,
}

impl Default for NoMbc {
    fn default() -> (r: Self)
        ensures
            r.inv(),
            r.rom@.len() == 0,
    {
        NoMbc { rom: Vec::new(), ram: zeros(RAM_SIZE) }
    }
}

impl MemController for NoMbc {
    open spec fn inv(&self) -> bool {
        self.ram@.len() == 0x2000
    }

    open spec fn read_spec(&self, index: u16) -> u8 {
        if switchable_rom(index) {
            let i = index - 0x4000;
            if i < self.rom@.len() {
                self.rom@[i]
            } else {
                0xFF
            }
        } else {
            self.ram@[index - 0xA000]
        }
    }

    /// The ROM ignores writes; the RAM stores them.
    open spec fn written(&self, after: &Self, index: u16, val: u8) -> bool {
        &&& after.rom@ == self.rom@
        &&& cartridge_ram(index) ==> after.ram@ == self.ram@.update(index - 0xA000, val)
        &&& !cartridge_ram(index) ==> after.ram@ == self.ram@
    }

    open spec fn loaded(&self, rom: Seq<u8>) -> bool {
        self.rom@ == rom && self.ram@ == Seq::new(0x2000, |i: int| 0u8)
    }

    fn read(&self, index: u16) -> (r: u8) {
        if index >= 0x4000 && index <= 0x7FFF {
            let i = (index - 0x4000) as usize;
            if i < self.rom.len() {
                self.rom[i]
            } else {
                0xFF
            }
        } else {
            self.ram[(index - 0xA000) as usize]
        }
    }

    fn write(&mut self, index: u16, val: u8) {
        if index >= 0xA000 && index <= 0xBFFF {
            self.ram[(index - 0xA000) as usize] = val;
        }
    }

    fn load_rom(&mut self, bytes: Vec<u8>) {
        self.rom = bytes;
        self.ram = zeros(RAM_SIZE);
    }
}

} // verus!
