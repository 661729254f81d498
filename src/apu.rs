use vstd::prelude::*;
use crate::mmu::Memory;

verus! {

/// First address of the sound registers.
pub const APU_START: u16 = 0xFF10;
/// Last address of the sound registers (end of wave pattern RAM).
pub const APU_END: u16 = 0xFF3F;
/// Master sound control: only bit 7 is writable.
pub const MASTER_CONTROL_LOC: u16 = 0xFF26;

/// Whether a sound register answers at `index`.
pub open spec fn apu_owns(index: u16) -> bool {
    (0xFF10 <= index <= 0xFF14) || (0xFF16 <= index <= 0xFF1E) || (0xFF20 <= index <= 0xFF26) || (
    0xFF30 <= index <= 0xFF3F)
}

/// What a read at `index` returns when `stored` is the register's content:
/// write-only registers read as 0xFF, partly readable ones show only their
/// readable bits.
pub open spec fn apu_read_mask(index: u16, stored: u8) -> u8 {
    if index == 0xFF13 || index == 0xFF18 || index == 0xFF1B || index == 0xFF1D {
        0xFF
    } else if index == 0xFF14 || index == 0xFF19 || index == 0xFF1E {
        stored & 0x40
    } else if index == 0xFF16 {
        stored & 0xC0
    } else if index == 0xFF23 {
        stored & 0x80
    } else {
        stored
    }
}

/// The content a register holds after `val` is written over `stored`.
pub open spec fn apu_store(index: u16, stored: u8, val: u8) -> u8 {
    if index == MASTER_CONTROL_LOC {
        (stored & 0x7F) | (val & 0x80)
    } else {
        val
    }
}

/// The sound unit, held as a passive register file: values are stored and
/// read back, no sound is produced.
pub struct APU {
    /// Registers 0xFF10 to 0xFF3F, by offset from 0xFF10.
    pub regs: Vec<u8>,
}

impl Default for APU {
    fn default() -> (r: Self)
        ensures
            r.inv(),
            forall|i: int| 0 <= i < 0x30 ==> r.regs@[i] == 0,
    {
        let mut regs: Vec<u8> = Vec::new();
        let mut i: usize = 0;
        while i < 0x30
            invariant
                i <= 0x30,
                regs@.len() == i,
                forall|j: int| 0 <= j < i ==> regs@[j] == 0,
            decreases 0x30 - i,
        {
            regs.push(0);
            i = i + 1;
        }
        APU { regs }
    }
}

impl Memory for APU {
    open spec fn inv(&self) -> bool {
        self.regs@.len() == 0x30
    }

    open spec fn owns(index: u16) -> bool {
        apu_owns(index)
    }

    open spec fn read_at(&self, index: u16) -> u8 {
        apu_read_mask(index, self.regs@[index - APU_START])
    }

    open spec fn written(&self, after: &Self, index: u16, val: u8) -> bool {
        after.regs@ == self.regs@.update(
            index - APU_START,
            apu_store(index, self.regs@[index - APU_START], val),
        )
    }

    fn handle_read(&self, index: u16) -> (r: u8) {
        let stored = self.regs[(index - APU_START) as usize];
        if index == 0xFF13 || index == 0xFF18 || index == 0xFF1B || index == 0xFF1D {
            0xFF
        } else if index == 0xFF14 || index == 0xFF19 || index == 0xFF1E {
            stored & 0x40
        } else if index == 0xFF16 {
            stored & 0xC0
        } else if index == 0xFF23 {
            stored & 0x80
        } else {
            stored
        }
    }

    fn handle_write(&mut self, index: u16, val: u8) {
        let i = (index - APU_START) as usize;
        let stored = self.regs[i];
        let v = if index == MASTER_CONTROL_LOC {
            (stored & 0x7F) | (val & 0x80)
        } else {
            val
        };
        self.regs[i] = v;
    }
}

/// The value the start-up sequence leaves in the sound register at `index`.
pub open spec fn boot_value(index: u16) -> u8 {
    if index == 0xFF10 {
        0x80
    } else if index == 0xFF11 || index == 0xFF14 || index == 0xFF19 || index == 0xFF1E || index
        == 0xFF23 {
        0xBF
    } else if index == 0xFF12 || index == 0xFF25 {
        0xF3
    } else if index == 0xFF16 {
        0x3F
    } else if index == 0xFF1A {
        0x7F
    } else if index == 0xFF1B || index == 0xFF20 {
        0xFF
    } else if index == 0xFF1C {
        0x9F
    } else if index == 0xFF24 {
        0x77
    } else if index == 0xFF26 {
        0xF1
    } else {
        0
    }
}

impl APU {
    /// The sound registers as the start-up sequence leaves them.
    pub fn post_boot() -> (r: APU)
        ensures
            r.inv(),
            forall|i: int| 0 <= i < 0x30 ==> r.regs@[i] == boot_value((0xFF10 + i) as u16),
    {
        let mut regs = crate::util::zeros(0x30);
        regs[0x00] = 0x80;
        regs[0x01] = 0xBF;
        regs[0x02] = 0xF3;
        regs[0x04] = 0xBF;
        regs[0x06] = 0x3F;
        regs[0x09] = 0xBF;
        regs[0x0A] = 0x7F;
        regs[0x0B] = 0xFF;
        regs[0x0C] = 0x9F;
        regs[0x0E] = 0xBF;
        regs[0x10] = 0xFF;
        regs[0x13] = 0xBF;
        regs[0x14] = 0x77;
        regs[0x15] = 0xF3;
        regs[0x16] = 0xF1;
        APU { regs }
    }
}

} // verus!
