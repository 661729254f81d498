use vstd::prelude::*;
use crate::apu::{APU, apu_owns};
use crate::cartridge::{Cartridge, RomLoadError, mbc_kind, header_mbc};
use crate::gpu::GPU;
use crate::interupts::InteruptState;
use crate::joypad::Joypad;
use crate::timer::Timer;
use crate::util::{word, le_combine, BitOperations, zeros};

verus! {

/// A device on the memory bus that answers reads and writes at the
/// addresses it owns.
pub trait Memory {
    /// Well-formedness of the device's state.
    spec fn inv(&self) -> bool;

    /// Whether the device answers at `index`.
    spec fn owns(index: u16) -> bool;

    /// The byte a read at `index` returns.
    spec fn read_at(&self, index: u16) -> u8;

    /// Whether `after` is this device once `val` was written at `index`.
    spec fn written(&self, after: &Self, index: u16, val: u8) -> bool;

    fn handle_write(&mut self, index: u16, val: u8)
        requires
            old(self).inv(),
            Self::owns(index),
        ensures
            final(self).inv(),
            old(self).written(final(self), index, val),
    ;

    fn handle_read(&self, index: u16) -> (r: u8)
        requires
            self.inv(),
            Self::owns(index),
        ensures
            r == self.read_at(index),
    ;
}

pub const ROM_START: u16 = 0x0000;
pub const ROM_END: u16 = 0x7FFF;
pub const VRAM_START: u16 = 0x8000;
pub const VRAM_END: u16 = 0x9FFF;
pub const CARTRIDGE_RAM_START: u16 = 0xA000;
pub const CARTRIDGE_RAM_END: u16 = 0xBFFF;
pub const WORK_RAM_START: u16 = 0xC000;
pub const WORK_RAM_END: u16 = 0xDFFF;
pub const ECHO_RAM_START: u16 = 0xE000;
pub const ECHO_RAM_END: u16 = 0xFDFF;
pub const OAM_START: u16 = 0xFE00;
pub const OAM_END: u16 = 0xFE9F;
pub const UNUSABLE_START: u16 = 0xFEA0;
pub const UNUSABLE_END: u16 = 0xFEFF;
pub const IO_START: u16 = 0xFF00;
pub const IO_END: u16 = 0xFF7F;
pub const HRAM_START: u16 = 0xFF80;
pub const HRAM_END: u16 = 0xFFFE;
pub const INTERRUPT_REG: u16 = 0xFFFF;
/// Serial transfer data.
pub const SERIAL_DATA_LOC: u16 = 0xFF01;
/// Serial transfer control: a write sends the data byte.
pub const SERIAL_CONTROL_LOC: u16 = 0xFF02;
/// Boot ROM disable latch.
pub const BOOT_LATCH_LOC: u16 = 0xFF50;

pub const WRAM_SIZE: usize = 0x2000;
pub const HRAM_SIZE: usize = 0x7F;

/// The address after `a`; 0xFFFF is followed by 0.
pub open spec fn next_addr(a: u16) -> u16 {
    if a == 0xFFFF {
        0
    } else {
        (a + 1) as u16
    }
}

/// The address after `a`; 0xFFFF is followed by 0.
pub fn next_address(a: u16) -> (r: u16)
    ensures
        r == next_addr(a),
{
    if a == 0xFFFF {
        0
    } else {
        a + 1
    }
}

/// Cartridge addresses: ROM and cartridge RAM.
pub open spec fn cart_addr(index: u16) -> bool {
    index <= ROM_END || (CARTRIDGE_RAM_START <= index <= CARTRIDGE_RAM_END)
}

/// Picture unit registers, the DMA register aside.
pub open spec fn gpu_reg_addr(index: u16) -> bool {
    0xFF40 <= index <= 0xFF4B && index != 0xFF46
}

/// The memory bus: routes each address to the one device that owns it.
pub struct MMU {
    pub gpu: GPU,
    pub timer: Timer,
    pub interupt: InteruptState,
    pub joypad: Joypad,
    pub apu: APU,
    pub cartridge: Cartridge,
    pub wram: Vec<u8>,
    pub hram: Vec<u8>,
    /// Serial data register.
    pub serial: u8,
    /// Serial control register.
    pub serial_control: u8,
    /// Bytes sent over the serial port, oldest first.
    pub serial_out: Vec<u8>,
}

impl MMU {
    pub open spec fn inv(&self) -> bool {
        &&& self.gpu.inv()
        &&& self.timer.inv()
        &&& self.apu.inv()
        &&& self.cartridge.inv()
        &&& self.wram@.len() == WRAM_SIZE
        &&& self.hram@.len() == HRAM_SIZE
    }

    /// The byte a read at `index` returns.
    pub open spec fn read_spec(&self, index: u16) -> u8 {
        if cart_addr(index) {
            self.cartridge.read_at(index)
        } else if VRAM_START <= index <= VRAM_END {
            self.gpu.read_at(index)
        } else if WORK_RAM_START <= index <= WORK_RAM_END {
            self.wram@[index - WORK_RAM_START]
        } else if ECHO_RAM_START <= index <= ECHO_RAM_END {
            self.wram@[index - ECHO_RAM_START]
        } else if OAM_START <= index <= OAM_END {
            self.gpu.read_at(index)
        } else if UNUSABLE_START <= index <= UNUSABLE_END {
            0xFF
        } else if index == IO_START {
            self.joypad.read_at(index)
        } else if index == SERIAL_DATA_LOC {
            self.serial
        } else if index == SERIAL_CONTROL_LOC {
            self.serial_control
        } else if 0xFF04 <= index <= 0xFF07 {
            self.timer.read_at(index)
        } else if index == 0xFF0F {
            self.interupt.read_at(index)
        } else if apu_owns(index) {
            self.apu.read_at(index)
        } else if 0xFF40 <= index <= 0xFF4B {
            self.gpu.read_at(index)
        } else if HRAM_START <= index <= HRAM_END {
            self.hram@[index - HRAM_START]
        } else if index == INTERRUPT_REG {
            self.interupt.read_at(index)
        } else {
            0xFF
        }
    }

    /// The little-endian word a read at `index` returns.
    pub open spec fn read16_spec(&self, index: u16) -> u16 {
        word(self.read_spec(next_addr(index)), self.read_spec(index))
    }

    /// Whether `after` is this bus once the OAM DMA transfer from the page in
    /// the DMA register has run: the sprite table holds the 160 bytes read from
    /// that page, and nothing else changed.
    pub open spec fn dma_done(&self, after: &MMU) -> bool {
        &&& *after == MMU {
            gpu: GPU { sprite_ram: after.gpu.sprite_ram, ..self.gpu },
            ..*self
        }
        &&& after.gpu.sprite_ram@ == Seq::new(
            0xA0,
            |i: int| self.read_spec((self.gpu.dma_transfer as int * 256 + i) as u16),
        )
    }

    /// Whether `after` is this bus once `val` was written at `index`.
    pub open spec fn write_post(&self, after: &MMU, index: u16, val: u8) -> bool {
        if cart_addr(index) {
            &&& *after == MMU { cartridge: after.cartridge, ..*self }
            &&& self.cartridge.written(&after.cartridge, index, val)
        } else if (VRAM_START <= index <= VRAM_END) || (OAM_START <= index <= OAM_END)
            || gpu_reg_addr(index) {
            &&& *after == MMU { gpu: after.gpu, ..*self }
            &&& self.gpu.written(&after.gpu, index, val)
        } else if WORK_RAM_START <= index <= WORK_RAM_END {
            &&& *after == MMU { wram: after.wram, ..*self }
            &&& after.wram@ == self.wram@.update(index - WORK_RAM_START, val)
        } else if ECHO_RAM_START <= index <= ECHO_RAM_END {
            &&& *after == MMU { wram: after.wram, ..*self }
            &&& after.wram@ == self.wram@.update(index - ECHO_RAM_START, val)
        } else if index == IO_START {
            &&& *after == MMU { joypad: after.joypad, ..*self }
            &&& self.joypad.written(&after.joypad, index, val)
        } else if index == SERIAL_DATA_LOC {
            *after == MMU { serial: val, ..*self }
        } else if index == SERIAL_CONTROL_LOC {
            &&& *after == MMU { serial_control: val, serial_out: after.serial_out, ..*self }
            &&& after.serial_out@ == self.serial_out@.push(self.serial)
        } else if 0xFF04 <= index <= 0xFF07 {
            &&& *after == MMU { timer: after.timer, ..*self }
            &&& self.timer.written(&after.timer, index, val)
        } else if index == 0xFF0F || index == INTERRUPT_REG {
            &&& *after == MMU { interupt: after.interupt, ..*self }
            &&& self.interupt.written(&after.interupt, index, val)
        } else if apu_owns(index) {
            &&& *after == MMU { apu: after.apu, ..*self }
            &&& self.apu.written(&after.apu, index, val)
        } else if index == 0xFF46 {
            (MMU { gpu: GPU { dma_transfer: val, ..self.gpu }, ..*self }).dma_done(after)
        } else if index == BOOT_LATCH_LOC {
            *after == MMU {
                cartridge: Cartridge { booting: self.cartridge.booting && val == 0, ..self.cartridge },
                ..*self
            }
        } else if HRAM_START <= index <= HRAM_END {
            &&& *after == MMU { hram: after.hram, ..*self }
            &&& after.hram@ == self.hram@.update(index - HRAM_START, val)
        } else {
            *after == *self
        }
    }

    /// A bus with every device in its default state.
    fn empty() -> (r: Self)
        ensures
            r.inv(),
            r.cartridge.fixed_rom@ == Seq::new(0x4000, |i: int| 0u8),
            !r.cartridge.booting,
            r.gpu.compare == 0 && r.gpu.scroll_x == 0 && r.gpu.scroll_y == 0,
            r.gpu.window_x == 0 && r.gpu.window_y == 0,
            r.timer.tima == 0 && r.timer.tma == 0 && r.timer.tmc == 0,
            r.timer.divide == 0 && r.timer.time_elapsed == 0 && r.timer.divide_elapsed == 0,
            r.interupt.ie == 0 && r.interupt.if_r == 0 && !r.interupt.master,
            r.wram@ == Seq::new(0x2000, |i: int| 0u8),
            r.hram@ == Seq::new(0x7F, |i: int| 0u8),
            r.serial_out@.len() == 0,
    {
        MMU {
            gpu: GPU::default(),
            timer: Timer::default(),
            interupt: InteruptState::default(),
            joypad: Joypad::default(),
            apu: APU::default(),
            cartridge: Cartridge::default(),
            wram: zeros(WRAM_SIZE),
            hram: zeros(HRAM_SIZE),
            serial: 0,
            serial_control: 0,
            serial_out: Vec::new(),
        }
    }

    /// A bus holding the given ROM image, with the I/O registers as the
    /// start-up sequence leaves them. The image is refused as the cartridge
    /// refuses it.
    pub fn new(rom: Vec<u8>) -> (r: Result<Self, RomLoadError>)
        ensures
            rom@.len() == 0 ==> r == Err::<MMU, RomLoadError>(RomLoadError::Empty),
            rom@.len() > 0 && mbc_kind(header_mbc(rom@)) is None ==> r == Err::<MMU, RomLoadError>(
                RomLoadError::UnsupportedMbc(header_mbc(rom@)),
            ),
            rom@.len() > 0 && mbc_kind(header_mbc(rom@)) is Some ==> r is Ok,
            r is Ok ==> {
                let m = r->Ok_0;
                &&& m.inv()
                &&& m.cartridge.holds(rom@)
                &&& !m.cartridge.booting
                &&& m.wram@ == Seq::new(0x2000, |i: int| 0u8)
                &&& m.hram@ == Seq::new(0x7F, |i: int| 0u8)
                &&& m.serial_out@.len() == 0
                &&& m.gpu.lcd_control == 0x91
                &&& m.gpu.bg_palatte == 0xFC
                &&& m.gpu.obj_palette0 == 0xFF
                &&& m.gpu.obj_palette1 == 0xFF
                &&& m.gpu.scroll_x == 0 && m.gpu.scroll_y == 0
                &&& m.gpu.window_x == 0 && m.gpu.window_y == 0
                &&& m.gpu.compare == 0
                &&& m.timer.tima == 0 && m.timer.tma == 0 && m.timer.tmc == 0
                &&& m.timer.divide == 0 && m.timer.time_elapsed == 0 && m.timer.divide_elapsed == 0
                &&& m.interupt.ie == 0 && m.interupt.if_r == 0 && !m.interupt.master
                &&& forall|i: int|
                    0 <= i < 0x30 ==> m.apu.regs@[i] == crate::apu::boot_value((0xFF10 + i) as u16)
            },
    {
        let mut mmu = Self::empty();
        match mmu.cartridge.load_rom(rom) {
            Ok(()) => {},
            Err(e) => {
                return Err(e);
            },
        }
        mmu.apu = APU::post_boot();
        mmu.gpu.lcd_control = 0x91;
        mmu.gpu.bg_palatte = 0xFC;
        mmu.gpu.obj_palette0 = 0xFF;
        mmu.gpu.obj_palette1 = 0xFF;
        Ok(mmu)
    }

    /// Installs a 256-byte boot ROM over 0x0000..0x00FF until the latch at
    /// 0xFF50 is written.
    pub fn load_boot_rom(&mut self, boot: Vec<u8>)
        requires
            old(self).inv(),
            boot@.len() == 0x100,
        ensures
            final(self).inv(),
            final(self).cartridge.booting,
            final(self).cartridge.boot_rom@ == boot@,
            *final(self) == (MMU { cartridge: final(self).cartridge, ..*old(self) }),
            final(self).cartridge.fixed_rom == old(self).cartridge.fixed_rom,
            final(self).cartridge.controller == old(self).cartridge.controller,
    {
        self.cartridge.load_boot_rom(boot);
    }

    /// Writes a byte to the device that owns `index`.
    pub fn write_8(&mut self, index: u16, value: u8)
        requires
            old(self).inv(),
        ensures
            final(self).inv(),
            old(self).write_post(final(self), index, value),
    {
        if index <= ROM_END || (CARTRIDGE_RAM_START <= index && index <= CARTRIDGE_RAM_END) {
            self.cartridge.handle_write(index, value);
        } else if (VRAM_START <= index && index <= VRAM_END) || (OAM_START <= index && index
            <= OAM_END) || (0xFF40 <= index && index <= 0xFF4B && index != 0xFF46) {
            self.gpu.handle_write(index, value);
        } else if WORK_RAM_START <= index && index <= WORK_RAM_END {
            self.wram[(index - WORK_RAM_START) as usize] = value;
        } else if ECHO_RAM_START <= index && index <= ECHO_RAM_END {
            self.wram[(index - ECHO_RAM_START) as usize] = value;
        } else if index == IO_START {
            self.joypad.handle_write(index, value);
        } else if index == SERIAL_DATA_LOC {
            self.serial = value;
        } else if index == SERIAL_CONTROL_LOC {
            self.serial_control = value;
            let b = self.serial;
            self.serial_out.push(b);
        } else if 0xFF04 <= index && index <= 0xFF07 {
            self.timer.handle_write(index, value);
        } else if index == 0xFF0F || index == INTERRUPT_REG {
            self.interupt.handle_write(index, value);
        } else if (0xFF10 <= index && index <= 0xFF14) || (0xFF16 <= index && index <= 0xFF1E) || (
        0xFF20 <= index && index <= 0xFF26) || (0xFF30 <= index && index <= 0xFF3F) {
            self.apu.handle_write(index, value);
        } else if index == 0xFF46 {
            self.gpu.handle_write(index, value);
            self.dma_transfer();
        } else if index == BOOT_LATCH_LOC {
            if value != 0 {
                self.cartridge.booting = false;
            }
        } else if HRAM_START <= index && index <= HRAM_END {
            self.hram[(index - HRAM_START) as usize] = value;
        }
    }

    /// Writes a word, low byte at `index`, high byte at the next address.
    pub fn write_16(&mut self, index: u16, value: u16)
        requires
            old(self).inv(),
        ensures
            final(self).inv(),
            exists|mid: MMU|
                #![trigger mid.inv()]
                mid.inv() && old(self).write_post(&mid, index, (value % 256) as u8)
                    && mid.write_post(final(self), next_addr(index), (value / 256) as u8),
    {
        let (ms, ls) = value.split();
        self.write_8(index, ls);
        let ghost mid = *self;
        self.write_8(next_address(index), ms);
        assert(mid.inv());
    }

    /// Reads the byte that the device owning `index` holds there.
    pub fn read_8(&self, index: u16) -> (r: u8)
        requires
            self.inv(),
        ensures
            r == self.read_spec(index),
    {
        if index <= ROM_END || (CARTRIDGE_RAM_START <= index && index <= CARTRIDGE_RAM_END) {
            self.cartridge.handle_read(index)
        } else if VRAM_START <= index && index <= VRAM_END {
            self.gpu.handle_read(index)
        } else if WORK_RAM_START <= index && index <= WORK_RAM_END {
            self.wram[(index - WORK_RAM_START) as usize]
        } else if ECHO_RAM_START <= index && index <= ECHO_RAM_END {
            self.wram[(index - ECHO_RAM_START) as usize]
        } else if OAM_START <= index && index <= OAM_END {
            self.gpu.handle_read(index)
        } else if UNUSABLE_START <= index && index <= UNUSABLE_END {
            0xFF
        } else if index == IO_START {
            self.joypad.handle_read(index)
        } else if index == SERIAL_DATA_LOC {
            self.serial
        } else if index == SERIAL_CONTROL_LOC {
            self.serial_control
        } else if 0xFF04 <= index && index <= 0xFF07 {
            self.timer.handle_read(index)
        } else if index == 0xFF0F {
            self.interupt.handle_read(index)
        } else if (0xFF10 <= index && index <= 0xFF14) || (0xFF16 <= index && index <= 0xFF1E) || (
        0xFF20 <= index && index <= 0xFF26) || (0xFF30 <= index && index <= 0xFF3F) {
            self.apu.handle_read(index)
        } else if 0xFF40 <= index && index <= 0xFF4B {
            self.gpu.handle_read(index)
        } else if HRAM_START <= index && index <= HRAM_END {
            self.hram[(index - HRAM_START) as usize]
        } else if index == INTERRUPT_REG {
            self.interupt.handle_read(index)
        } else {
            0xFF
        }
    }

    /// Reads a little-endian word: low byte at `index`, high byte next.
    pub fn read_16(&self, index: u16) -> (r: u16)
        requires
            self.inv(),
        ensures
            r == self.read16_spec(index),
    {
        let ls = self.read_8(index);
        let ms = self.read_8(next_address(index));
        le_combine(ls, ms)
    }

    /// Whether `after` is this bus once the timer and the picture unit were
    /// advanced by `ticks` T-states, the joypad's press edge taken, and every
    /// interrupt they raised requested.
    pub open spec fn ticked(&self, after: &MMU, ticks: u8) -> bool {
        &&& self.timer.advanced(&after.timer, ticks)
        &&& self.gpu.stepped(&after.gpu, ticks)
        &&& after.joypad == Joypad { interupt_possible: false, ..self.joypad }
        &&& after.interupt == InteruptState {
            if_r: self.interupt.if_r | (self.timer.irq(ticks) | (if self.joypad.interupt_possible {
                0x10u8
            } else {
                0u8
            }) | self.gpu.irq(ticks)),
            ..self.interupt
        }
        &&& *after == MMU {
            gpu: after.gpu,
            timer: after.timer,
            joypad: after.joypad,
            interupt: after.interupt,
            ..*self
        }
    }

    /// Advances the timer and the picture unit by `ticks` T-states, takes
    /// the joypad's press edge, and requests every interrupt they raised.
    pub fn tick(&mut self, ticks: u8)
        requires
            old(self).inv(),
        ensures
            final(self).inv(),
            old(self).ticked(final(self), ticks),
    {
        let t = self.timer.update_time(ticks);
        let j: u8 = if self.joypad.take_interupt() {
            0x10
        } else {
            0
        };
        let g = self.gpu.update_graphics(ticks);
        self.interupt.update_interupts(t | j | g);
    }

    /// Sets the interrupt master enable.
    pub fn enable_interupts(&mut self)
        ensures
            *final(self) == (MMU {
                interupt: InteruptState { master: true, ..old(self).interupt },
                ..*old(self)
            }),
    {
        self.interupt.master = true;
    }

    /// Clears the interrupt master enable.
    pub fn disble_interupts(&mut self)
        ensures
            *final(self) == (MMU {
                interupt: InteruptState { master: false, ..old(self).interupt },
                ..*old(self)
            }),
    {
        self.interupt.master = false;
    }

    /// Copies the 160 bytes of the page that the DMA register names into the
    /// sprite table.
    pub fn dma_transfer(&mut self)
        requires
            old(self).inv(),
        ensures
            final(self).inv(),
            old(self).dma_done(final(self)),
    {
        let src: u16 = self.gpu.dma_transfer as u16 * 256;
        let mut i: u16 = 0;
        while i < 0xA0
            invariant
                i <= 0xA0,
                src == old(self).gpu.dma_transfer as int * 256,
                self.inv(),
                *self == (MMU {
                    gpu: GPU { sprite_ram: self.gpu.sprite_ram, ..old(self).gpu },
                    ..*old(self)
                }),
                old(self).inv(),
                forall|j: int|
                    0 <= j < i ==> self.gpu.sprite_ram@[j] == old(self).read_spec(
                        (src + j) as u16,
                    ),
                forall|j: int|
                    i <= j < 0xA0 ==> self.gpu.sprite_ram@[j] == old(self).gpu.sprite_ram@[j],
            decreases 0xA0 - i,
        {
            let b = self.read_8(src + i);
            proof {
                MMU::lemma_read_outside_oam(*old(self), *self, (src + i) as u16, i as int);
            }
            self.gpu.oam_dma_write(i as usize, b);
            i = i + 1;
        }
        assert(self.gpu.sprite_ram@ =~= Seq::new(
            0xA0,
            |i: int| old(self).read_spec((old(self).gpu.dma_transfer as int * 256 + i) as u16),
        ));
    }

    /// A read gives the same byte in two buses that differ only in sprite
    /// table cells other than the one the read reaches.
    proof fn lemma_read_outside_oam(m1: MMU, m2: MMU, a: u16, i: int)
        requires
            m1.inv(),
            m2.inv(),
            m2 == (MMU { gpu: GPU { sprite_ram: m2.gpu.sprite_ram, ..m1.gpu }, ..m1 }),
            0 <= i < 0xA0,
            a as int % 256 == i,
            forall|j: int| i <= j < 0xA0 ==> m2.gpu.sprite_ram@[j] == m1.gpu.sprite_ram@[j],
        ensures
            m1.read_spec(a) == m2.read_spec(a),
    {
    }

    /// Hands out the bytes sent over the serial port since the last call.
    pub fn take_serial_output(&mut self) -> (r: Vec<u8>)
        ensures
            r@ == old(self).serial_out@,
            *final(self) == (MMU { serial_out: final(self).serial_out, ..*old(self) }),
            final(self).serial_out@.len() == 0,
    {
        let mut out: Vec<u8> = Vec::new();
        std::mem::swap(&mut out, &mut self.serial_out);
        out
    }
}

/// The echo region reads the same bytes as work RAM 0x2000 below it.
pub proof fn lemma_echo(m: MMU, addr: u16)
    requires
        m.inv(),
        ECHO_RAM_START <= addr <= ECHO_RAM_END,
    ensures
        m.read_spec(addr) == m.read_spec((addr - 0x2000) as u16),
{
}

} // verus!
