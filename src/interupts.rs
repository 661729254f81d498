use vstd::prelude::*;
use crate::mmu::Memory;

verus! {

/// Address of the interrupt enable register.
pub const IE_LOC: u16 = 0xFFFF;
/// Address of the interrupt request register.
pub const IF_LOC: u16 = 0xFF0F;

/// The five interrupt sources, highest priority first, and `Nothing`.
#[derive(Clone, Copy, PartialEq, Eq, Structural, Debug)]
pub enum Interupt {
    VBlank,
    LCD,
    Timer,
    Serial,
    Joypad,
    Nothing,
}

/// The source that the lowest set bit of `IE & IF & 0x1F` names.
pub open spec fn pending_of(ie: u8, if_r: u8) -> Interupt {
    let p = ie & if_r & 0x1F;
    if p & 1 != 0 {
        Interupt::VBlank
    } else if p & 2 != 0 {
        Interupt::LCD
    } else if p & 4 != 0 {
        Interupt::Timer
    } else if p & 8 != 0 {
        Interupt::Serial
    } else if p & 16 != 0 {
        Interupt::Joypad
    } else {
        Interupt::Nothing
    }
}

impl Interupt {
    /// The request bit of the source in IE and IF.
    pub open spec fn bit_spec(self) -> u8 {
        match self {
            Interupt::VBlank => 1,
            Interupt::LCD => 2,
            Interupt::Timer => 4,
            Interupt::Serial => 8,
            Interupt::Joypad => 16,
            Interupt::Nothing => 0,
        }
    }

    /// The address that servicing the source jumps to.
    pub open spec fn vector_spec(self) -> u16 {
        match self {
            Interupt::VBlank => 0x40,
            Interupt::LCD => 0x48,
            Interupt::Timer => 0x50,
            Interupt::Serial => 0x58,
            Interupt::Joypad => 0x60,
            Interupt::Nothing => 0,
        }
    }

    pub fn bit(&self) -> (r: u8)
        ensures
            r == self.bit_spec(),
    {
        match self {
            Interupt::VBlank => 1,
            Interupt::LCD => 2,
            Interupt::Timer => 4,
            Interupt::Serial => 8,
            Interupt::Joypad => 16,
            Interupt::Nothing => 0,
        }
    }

    pub fn vector(&self) -> (r: u16)
        ensures
            r == self.vector_spec(),
    {
        match self {
            Interupt::VBlank => 0x40,
            Interupt::LCD => 0x48,
            Interupt::Timer => 0x50,
            Interupt::Serial => 0x58,
            Interupt::Joypad => 0x60,
            Interupt::Nothing => 0,
        }
    }
}

/// The interrupt controller: enable mask, request mask and master enable.
pub struct InteruptState {
    /// Interrupt enable register.
    pub ie: u8,
    /// Interrupt request register.
    pub if_r: u8,
    /// Master enable: interrupts are serviced only while it is set.
    pub master: bool,
}

impl Default for InteruptState {
    fn default() -> (r: Self)
        ensures
            r.ie == 0,
            r.if_r == 0,
            !r.master,
    {
        InteruptState { ie: 0, if_r: 0, master: false }
    }
}

impl Memory for InteruptState {
    open spec fn inv(&self) -> bool {
        true
    }

    open spec fn owns(index: u16) -> bool {
        index == IE_LOC || index == IF_LOC
    }

    open spec fn read_at(&self, index: u16) -> u8 {
        if index == IE_LOC {
            self.ie
        } else {
            self.if_r
        }
    }

    open spec fn written(&self, after: &Self, index: u16, val: u8) -> bool {
        &&& after.master == self.master
        &&& after.ie == (if index == IE_LOC { val } else { self.ie })
        &&& after.if_r == (if index == IE_LOC { self.if_r } else { val })
    }

    fn handle_read(&self, index: u16) -> (r: u8) {
        if index == IE_LOC {
            self.ie
        } else {
            self.if_r
        }
    }

    fn handle_write(&mut self, index: u16, val: u8) {
        if index == IE_LOC {
            self.ie = val;
        } else {
            self.if_r = val;
        }
    }
}

impl InteruptState {
    /// The highest-priority source both enabled and requested.
    pub open spec fn pending_spec(&self) -> Interupt {
        pending_of(self.ie, self.if_r)
    }

    /// Requests the sources whose bits are set in `flags`.
    pub fn update_interupts(&mut self, flags: u8)
        ensures
            final(self).if_r == old(self).if_r | flags,
            final(self).ie == old(self).ie,
            final(self).master == old(self).master,
    {
        self.if_r = self.if_r | flags;
    }

    /// The highest-priority source both enabled and requested, if any.
    pub fn pending(&self) -> (r: Interupt)
        ensures
            r == self.pending_spec(),
    {
        let p = self.ie & self.if_r & 0x1F;
        if p & 1 != 0 {
            Interupt::VBlank
        } else if p & 2 != 0 {
            Interupt::LCD
        } else if p & 4 != 0 {
            Interupt::Timer
        } else if p & 8 != 0 {
            Interupt::Serial
        } else if p & 16 != 0 {
            Interupt::Joypad
        } else {
            Interupt::Nothing
        }
    }

    /// Whether some source is both enabled and requested.
    pub fn has_interupts(&self) -> (r: bool)
        ensures
            r == (self.pending_spec() != Interupt::Nothing),
    {
        !matches!(self.pending(), Interupt::Nothing)
    }

    /// Takes the interrupt to service: when master enable is set and a source
    /// is pending, clears its request bit and master enable and returns it;
    /// otherwise changes nothing and returns `Nothing`.
    pub fn do_interupts(&mut self) -> (r: Interupt)
        ensures
            old(self).master && old(self).pending_spec() != Interupt::Nothing ==> {
                &&& r == old(self).pending_spec()
                &&& final(self).if_r == old(self).if_r & !r.bit_spec()
                &&& final(self).ie == old(self).ie
                &&& !final(self).master
            },
            !(old(self).master && old(self).pending_spec() != Interupt::Nothing) ==> {
                &&& r == Interupt::Nothing
                &&& final(self).if_r == old(self).if_r
                &&& final(self).ie == old(self).ie
                &&& final(self).master == old(self).master
            },
    {
        if !self.master {
            return Interupt::Nothing;
        }
        let p = self.pending();
        if matches!(p, Interupt::Nothing) {
            return Interupt::Nothing;
        }
        let b = p.bit();
        self.if_r = self.if_r & !b;
        self.master = false;
        p
    }
}

/// Facts on single request bits.
proof fn lemma_request_bits(ie: u8, if_r: u8)
    by (bit_vector)
    ensures
        (ie & if_r & 0x1F) & 1 != 0 ==> if_r & 1 == 1 && if_r & !1u8 == if_r - 1,
        (ie & if_r & 0x1F) & 2 != 0 ==> if_r & 2 == 2 && if_r & !2u8 == if_r - 2,
        (ie & if_r & 0x1F) & 4 != 0 ==> if_r & 4 == 4 && if_r & !4u8 == if_r - 4,
        (ie & if_r & 0x1F) & 8 != 0 ==> if_r & 8 == 8 && if_r & !8u8 == if_r - 8,
        (ie & if_r & 0x1F) & 16 != 0 ==> if_r & 16 == 16 && if_r & !16u8 == if_r - 16,
        (ie & if_r & 0x1F) != 0 ==> (ie & if_r & 0x1F) & 1 != 0 || (ie & if_r & 0x1F) & 2 != 0
            || (ie & if_r & 0x1F) & 4 != 0 || (ie & if_r & 0x1F) & 8 != 0 || (ie & if_r & 0x1F)
            & 16 != 0,
{
}

/// Servicing with master enable set and `IE & IF & 0x1F` non-zero clears
/// exactly one request bit: the one of the highest-priority pending source,
/// in the order VBlank, LCD, Timer, Serial, Joypad. Every source of higher
/// priority was not pending, and the source's vector is one of the five
/// fixed addresses.
pub proof fn lemma_service_clears_one(s: InteruptState)
    requires
        s.master,
        s.ie & s.if_r & 0x1F != 0,
    ensures
        s.pending_spec() != Interupt::Nothing,
        s.if_r & s.pending_spec().bit_spec() == s.pending_spec().bit_spec(),
        (s.if_r & !s.pending_spec().bit_spec()) == s.if_r - s.pending_spec().bit_spec(),
        s.pending_spec() == Interupt::LCD ==> (s.ie & s.if_r & 0x1F) & 1 == 0,
        s.pending_spec() == Interupt::Timer ==> (s.ie & s.if_r & 0x1F) & 3 == 0,
        s.pending_spec() == Interupt::Serial ==> (s.ie & s.if_r & 0x1F) & 7 == 0,
        s.pending_spec() == Interupt::Joypad ==> (s.ie & s.if_r & 0x1F) & 15 == 0,
        s.pending_spec().vector_spec() == 0x40 + 8 * (if s.pending_spec() == Interupt::VBlank {
            0int
        } else if s.pending_spec() == Interupt::LCD {
            1int
        } else if s.pending_spec() == Interupt::Timer {
            2int
        } else if s.pending_spec() == Interupt::Serial {
            3int
        } else {
            4int
        }),
{
    lemma_request_bits(s.ie, s.if_r);
    let p = s.ie & s.if_r & 0x1F;
    assert(p & 1 == 0 && p & 2 == 0 ==> p & 3 == 0) by (bit_vector);
    assert(p & 1 == 0 && p & 2 == 0 && p & 4 == 0 ==> p & 7 == 0) by (bit_vector);
    assert(p & 1 == 0 && p & 2 == 0 && p & 4 == 0 && p & 8 == 0 ==> p & 15 == 0) by (bit_vector);
}

} // verus!
