use vstd::prelude::*;
use crate::mmu::Memory;
use crate::util::zeros;

pub mod default;
pub mod mbc1;
pub mod mbc2;

use default::NoMbc;
use mbc1::Mbc1;
use mbc2::Mbc2;

verus! {

/// Size of one ROM bank.
pub const ROM_BANK_SIZE: usize = 0x4000;
/// Size of the boot ROM overlaid at 0x0000 while booting.
pub const BOOT_ROM_SIZE: usize = 0x100;
/// Header byte that names the bank controller.
pub const ROM_BANK_MODE_LOC: usize = 0x147;

/// Addresses of the switchable ROM bank.
pub open spec fn switchable_rom(index: u16) -> bool {
    0x4000 <= index <= 0x7FFF
}

/// Addresses of the cartridge RAM.
pub open spec fn cartridge_ram(index: u16) -> bool {
    0xA000 <= index <= 0xBFFF
}

/// Addresses a bank controller answers reads at.
pub open spec fn controller_reads(index: u16) -> bool {
    switchable_rom(index) || cartridge_ram(index)
}

/// Addresses a bank controller takes writes at.
pub open spec fn controller_writes(index: u16) -> bool {
    index <= 0x7FFF || cartridge_ram(index)
}

/// A bank controller behind the cartridge's bus interface.
pub trait MemController {
    spec fn inv(&self) -> bool;

    /// The byte a read at `index` returns.
    spec fn read_spec(&self, index: u16) -> u8;

    /// Whether `after` is this controller once `val` was written at `index`.
    spec fn written(&self, after: &Self, index: u16, val: u8) -> bool;

    /// Whether the controller is freshly loaded with `rom`, the bytes from
    /// 0x4000 on.
    spec fn loaded(&self, rom: Seq<u8>) -> bool;

    fn read(&self, index: u16) -> (r: u8)
        requires
            self.inv(),
            controller_reads(index),
        ensures
            r == self.read_spec(index),
    ;

    fn write(&mut self, index: u16, val: u8)
        requires
            old(self).inv(),
            controller_writes(index),
        ensures
            final(self).inv(),
            old(self).written(final(self), index, val),
    ;

    fn load_rom(&mut self, bytes: Vec<u8>)
        ensures
            final(self).inv(),
            final(self).loaded(bytes@),
    ;
}

/// The bank controller variants.
pub enum Controller {
    NoMbc(NoMbc),
    Mbc1(Mbc1),
    Mbc2(Mbc2),
}

/// Why a ROM image cannot be loaded.
#[derive(Clone, Copy, PartialEq, Eq, Structural, Debug)]
pub enum RomLoadError {
    /// The image holds no byte.
    Empty,
    /// The header names a bank controller that is not supported.
    UnsupportedMbc(u8),
}

/// The controller kind a header byte names: 0 none, 1 MBC1, 2 MBC2, or
/// unsupported.
pub open spec fn mbc_kind(b: u8) -> Option<u8> {
    if b == 0x00 {
        Some(0u8)
    } else if 0x01 <= b <= 0x03 {
        Some(1u8)
    } else if 0x05 <= b <= 0x06 {
        Some(2u8)
    } else {
        Option::None
    }
}

/// The header byte naming the controller; an image too short to hold it
/// reads as zero there.
pub open spec fn header_mbc(rom: Seq<u8>) -> u8 {
    if rom.len() > ROM_BANK_MODE_LOC {
        rom[ROM_BANK_MODE_LOC as int]
    } else {
        0
    }
}

/// The first ROM bank of an image, padded with zeros.
pub open spec fn first_bank(rom: Seq<u8>) -> Seq<u8> {
    Seq::new(ROM_BANK_SIZE as nat, |i: int| if i < rom.len() { rom[i] } else { 0u8 })
}

/// The bytes of an image from 0x4000 on.
pub open spec fn rest_banks(rom: Seq<u8>) -> Seq<u8> {
    if rom.len() > ROM_BANK_SIZE {
        rom.subrange(ROM_BANK_SIZE as int, rom.len() as int)
    } else {
        Seq::empty()
    }
}

impl Controller {
    pub open spec fn inv(&self) -> bool {
        match self {
            Controller::NoMbc(c) => c.inv(),
            Controller::Mbc1(c) => c.inv(),
            Controller::Mbc2(c) => c.inv(),
        }
    }

    pub open spec fn read_spec(&self, index: u16) -> u8 {
        match self {
            Controller::NoMbc(c) => c.read_spec(index),
            Controller::Mbc1(c) => c.read_spec(index),
            Controller::Mbc2(c) => c.read_spec(index),
        }
    }

    pub open spec fn written(&self, after: &Self, index: u16, val: u8) -> bool {
        match (self, after) {
            (Controller::NoMbc(c), Controller::NoMbc(d)) => c.written(d, index, val),
            (Controller::Mbc1(c), Controller::Mbc1(d)) => c.written(d, index, val),
            (Controller::Mbc2(c), Controller::Mbc2(d)) => c.written(d, index, val),
            _ => false,
        }
    }

    fn read(&self, index: u16) -> (r: u8)
        requires
            self.inv(),
            controller_reads(index),
        ensures
            r == self.read_spec(index),
    {
        match self {
            Controller::NoMbc(c) => c.read(index),
            Controller::Mbc1(c) => c.read(index),
            Controller::Mbc2(c) => c.read(index),
        }
    }

    fn write(&mut self, index: u16, val: u8)
        requires
            old(self).inv(),
            controller_writes(index),
        ensures
            final(self).inv(),
            old(self).written(final(self), index, val),
    {
        match self {
            Controller::NoMbc(c) => c.write(index, val),
            Controller::Mbc1(c) => c.write(index, val),
            Controller::Mbc2(c) => c.write(index, val),
        }
    }
}

/// The cartridge: the fixed first ROM bank, the boot ROM overlay with its
/// latch, and the bank controller that serves everything else.
pub struct Cartridge {
    pub fixed_rom: Vec<u8>,
    pub boot_rom: Vec<u8>,
    pub controller: Controller,
    /// While set, the boot ROM covers 0x0000..0x00FF.
    pub booting: bool,
}

impl Default for Cartridge {
    /// An empty cartridge without boot ROM.
    fn default() -> (r: Self)
        ensures
            r.inv(),
            !r.booting,
            r.fixed_rom@ == Seq::new(0x4000, |i: int| 0u8),
    {
        Cartridge {
            fixed_rom: zeros(ROM_BANK_SIZE),
            boot_rom: zeros(BOOT_ROM_SIZE),
            controller: Controller::NoMbc(NoMbc::default()),
            booting: false,
        }
    }
}

impl Cartridge {
    /// Whether the cartridge holds the image `rom`, freshly loaded: its first
    /// bank fixed, and the controller that header byte 0x147 names holding
    /// the bytes from 0x4000 on.
    pub open spec fn holds(&self, rom: Seq<u8>) -> bool {
        let kind = mbc_kind(header_mbc(rom));
        &&& self.fixed_rom@ == first_bank(rom)
        &&& kind == Some(0u8) ==> (self.controller is NoMbc && self.controller->NoMbc_0.loaded(
            rest_banks(rom),
        ))
        &&& kind == Some(1u8) ==> (self.controller is Mbc1 && self.controller->Mbc1_0.loaded(
            rest_banks(rom),
        ))
        &&& kind == Some(2u8) ==> (self.controller is Mbc2 && self.controller->Mbc2_0.loaded(
            rest_banks(rom),
        ))
    }

    /// Loads a ROM image: the first bank stays fixed, header byte 0x147 picks
    /// the controller, which receives the bytes from 0x4000 on. An empty image
    /// or an unsupported controller is refused and changes nothing.
    pub fn load_rom(&mut self, rom: Vec<u8>) -> (r: Result<(), RomLoadError>)
        requires
            old(self).inv(),
        ensures
            final(self).inv(),
            rom@.len() == 0 ==> r == Err::<(), RomLoadError>(RomLoadError::Empty),
            rom@.len() > 0 && mbc_kind(header_mbc(rom@)) is None ==> r == Err::<(), RomLoadError>(
                RomLoadError::UnsupportedMbc(header_mbc(rom@)),
            ),
            r is Err ==> *final(self) == *old(self),
            rom@.len() > 0 && mbc_kind(header_mbc(rom@)) is Some ==> {
                &&& r is Ok
                &&& final(self).holds(rom@)
                &&& final(self).boot_rom == old(self).boot_rom
                &&& final(self).booting == old(self).booting
            },
    {
        let len = rom.len();
        if len == 0 {
            return Err(RomLoadError::Empty);
        }
        let kind_byte: u8 = if len > ROM_BANK_MODE_LOC {
            rom[ROM_BANK_MODE_LOC]
        } else {
            0
        };
        if !(kind_byte == 0x00 || (0x01 <= kind_byte && kind_byte <= 0x03) || (0x05 <= kind_byte
            && kind_byte <= 0x06)) {
            return Err(RomLoadError::UnsupportedMbc(kind_byte));
        }
        let mut fixed: Vec<u8> = Vec::with_capacity(ROM_BANK_SIZE);
        let mut i: usize = 0;
        while i < ROM_BANK_SIZE
            invariant
                i <= ROM_BANK_SIZE,
                len == rom@.len(),
                fixed@ == first_bank(rom@).subrange(0, i as int),
            decreases ROM_BANK_SIZE - i,
        {
            let b: u8 = if i < len {
                rom[i]
            } else {
                0
            };
            fixed.push(b);
            proof {
                assert(fixed@ =~= first_bank(rom@).subrange(0, i + 1));
            }
            i = i + 1;
        }
        assert(fixed@ =~= first_bank(rom@));
        let mut rest = rom;
        let rest_bytes = if len > ROM_BANK_SIZE {
            rest.split_off(ROM_BANK_SIZE)
        } else {
            Vec::new()
        };
        assert(rest_bytes@ =~= rest_banks(rom@));
        let controller = if kind_byte == 0x00 {
            let mut c = NoMbc::default();
            c.load_rom(rest_bytes);
            Controller::NoMbc(c)
        } else if kind_byte <= 0x03 {
            let mut c = Mbc1::default();
            c.load_rom(rest_bytes);
            Controller::Mbc1(c)
        } else {
            let mut c = Mbc2::default();
            c.load_rom(rest_bytes);
            Controller::Mbc2(c)
        };
        self.fixed_rom = fixed;
        self.controller = controller;
        Ok(())
    }

    /// Installs a boot ROM of 256 bytes and maps it over 0x0000..0x00FF.
    pub fn load_boot_rom(&mut self, boot: Vec<u8>)
        requires
            old(self).inv(),
            boot@.len() == BOOT_ROM_SIZE,
        ensures
            final(self).inv(),
            final(self).boot_rom@ == boot@,
            final(self).booting,
            final(self).fixed_rom == old(self).fixed_rom,
            final(self).controller == old(self).controller,
    {
        self.boot_rom = boot;
        self.booting = true;
    }
}

impl Memory for Cartridge {
    open spec fn inv(&self) -> bool {
        &&& self.fixed_rom@.len() == ROM_BANK_SIZE
        &&& self.boot_rom@.len() == BOOT_ROM_SIZE
        &&& self.controller.inv()
    }

    open spec fn owns(index: u16) -> bool {
        index <= 0x7FFF || cartridge_ram(index)
    }

    open spec fn read_at(&self, index: u16) -> u8 {
        if index < 0x100 && self.booting {
            self.boot_rom@[index as int]
        } else if index < 0x4000 {
            self.fixed_rom@[index as int]
        } else {
            self.controller.read_spec(index)
        }
    }

    /// Writes go to the bank controller; the ROM itself never changes.
    open spec fn written(&self, after: &Self, index: u16, val: u8) -> bool {
        &&& after.fixed_rom == self.fixed_rom
        &&& after.boot_rom == self.boot_rom
        &&& after.booting == self.booting
        &&& self.controller.written(&after.controller, index, val)
    }

    fn handle_read(&self, index: u16) -> (r: u8) {
        if index < 0x100 && self.booting {
            self.boot_rom[index as usize]
        } else if index < 0x4000 {
            self.fixed_rom[index as usize]
        } else {
            self.controller.read(index)
        }
    }

    fn handle_write(&mut self, index: u16, val: u8) {
        self.controller.write(index, val);
    }
}

} // verus!
