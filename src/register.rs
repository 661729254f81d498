use vstd::prelude::*;
use crate::util::word;

verus! {

/// Bit of the zero flag in F.
pub const FLAG_Z: u8 = 0x80;
/// Bit of the subtract flag in F.
pub const FLAG_N: u8 = 0x40;
/// Bit of the half-carry flag in F.
pub const FLAG_H: u8 = 0x20;
/// Bit of the carry flag in F.
pub const FLAG_C: u8 = 0x10;

/// The flag byte holding the four given flags; its low nibble is zero.
pub open spec fn flag_byte(z: bool, n: bool, h: bool, c: bool) -> u8 {
    ((if z { 128int } else { 0 }) + (if n { 64int } else { 0 }) + (if h { 32int } else { 0 }) + (
    if c { 16int } else { 0 })) as u8
}

/// The zero flag held in a flag byte.
pub open spec fn flag_z(f: u8) -> bool {
    (f / 128) % 2 == 1
}

/// The subtract flag held in a flag byte.
pub open spec fn flag_n(f: u8) -> bool {
    (f / 64) % 2 == 1
}

/// The half-carry flag held in a flag byte.
pub open spec fn flag_h(f: u8) -> bool {
    (f / 32) % 2 == 1
}

/// The carry flag held in a flag byte.
pub open spec fn flag_c(f: u8) -> bool {
    (f / 16) % 2 == 1
}

/// Reading a flag back from a composed flag byte gives the flag.
pub proof fn lemma_flag_byte(z: bool, n: bool, h: bool, c: bool)
    ensures
        flag_z(flag_byte(z, n, h, c)) == z,
        flag_n(flag_byte(z, n, h, c)) == n,
        flag_h(flag_byte(z, n, h, c)) == h,
        flag_c(flag_byte(z, n, h, c)) == c,
        flag_byte(z, n, h, c) % 16 == 0,
{
}

/// Builds the flag byte from the four flags.
pub fn make_flags(z: bool, n: bool, h: bool, c: bool) -> (r: u8)
    ensures
        r == flag_byte(z, n, h, c),
        flag_z(r) == z,
        flag_n(r) == n,
        flag_h(r) == h,
        flag_c(r) == c,
        r % 16 == 0,
{
    proof {
        lemma_flag_byte(z, n, h, c);
    }
    let zb: u8 = if z { 128 } else { 0 };
    let nb: u8 = if n { 64 } else { 0 };
    let hb: u8 = if h { 32 } else { 0 };
    let cb: u8 = if c { 16 } else { 0 };
    zb + nb + hb + cb
}

/// The register file: eight byte registers and the two 16-bit pointers.
/// AF, BC, DE and HL are views over adjacent byte registers.
#[derive(Clone, Copy, PartialEq, Eq, Structural, Debug)]
pub struct Registers {
    pub a: u8,
    pub f: u8,
    pub b: u8,
    pub c: u8,
    pub d: u8,
    pub e: u8,
    pub h: u8,
    pub l: u8,
    pub sp: u16,
    pub pc: u16,
}

impl Default for Registers {
    fn default() -> (r: Self)
        ensures
            r == (Registers { a: 0, f: 0, b: 0, c: 0, d: 0, e: 0, h: 0, l: 0, sp: 0, pc: 0 }),
    {
        Registers { a: 0, f: 0, b: 0, c: 0, d: 0, e: 0, h: 0, l: 0, sp: 0, pc: 0 }
    }
}

impl Registers {
    /// The low four bits of F are clear.
    pub open spec fn wf(&self) -> bool {
        self.f % 16 == 0
    }

    pub open spec fn af(&self) -> u16 {
        word(self.a, self.f)
    }

    pub open spec fn bc(&self) -> u16 {
        word(self.b, self.c)
    }

    pub open spec fn de(&self) -> u16 {
        word(self.d, self.e)
    }

    pub open spec fn hl(&self) -> u16 {
        word(self.h, self.l)
    }

    /// The register file with HL replaced by `v`.
    pub open spec fn with_hl(self, v: u16) -> Registers {
        Registers { h: (v / 256) as u8, l: (v % 256) as u8, ..self }
    }

    /// The register file with BC replaced by `v`.
    pub open spec fn with_bc(self, v: u16) -> Registers {
        Registers { b: (v / 256) as u8, c: (v % 256) as u8, ..self }
    }

    /// The register file with DE replaced by `v`.
    pub open spec fn with_de(self, v: u16) -> Registers {
        Registers { d: (v / 256) as u8, e: (v % 256) as u8, ..self }
    }

    /// The register file with AF replaced by `v`, F's low nibble cleared.
    pub open spec fn with_af(self, v: u16) -> Registers {
        Registers { a: (v / 256) as u8, f: ((v % 256) / 16 * 16) as u8, ..self }
    }

    pub fn get_af(&self) -> (r: u16)
        ensures
            r == self.af(),
    {
        Self::combine(self.a, self.f)
    }

    /// Sets AF; the low nibble of F is always stored as zero.
    pub fn set_af(&mut self, num: u16)
        ensures
            *final(self) == old(self).with_af(num),
            final(self).wf(),
    {
        let (a, f) = Self::split(num);
        self.a = a;
        self.f = f / 16 * 16;
    }

    pub fn get_bc(&self) -> (r: u16)
        ensures
            r == self.bc(),
    {
        Self::combine(self.b, self.c)
    }

    pub fn set_bc(&mut self, num: u16)
        ensures
            *final(self) == old(self).with_bc(num),
    {
        let (b, c) = Self::split(num);
        self.b = b;
        self.c = c;
    }

    pub fn get_de(&self) -> (r: u16)
        ensures
            r == self.de(),
    {
        Self::combine(self.d, self.e)
    }

    pub fn set_de(&mut self, num: u16)
        ensures
            *final(self) == old(self).with_de(num),
    {
        let (d, e) = Self::split(num);
        self.d = d;
        self.e = e;
    }

    pub fn get_hl(&self) -> (r: u16)
        ensures
            r == self.hl(),
    {
        Self::combine(self.h, self.l)
    }

    pub fn set_hl(&mut self, num: u16)
        ensures
            *final(self) == old(self).with_hl(num),
    {
        let (h, l) = Self::split(num);
        self.h = h;
        self.l = l;
    }

    /// Sets the Z flag.
    pub fn set_z(&mut self)
        ensures
            *final(self) == (Registers { f: old(self).f | FLAG_Z, ..*old(self) }),
    {
        self.f = self.f | FLAG_Z;
    }

    /// Clears the Z flag.
    pub fn unset_z(&mut self)
        ensures
            *final(self) == (Registers { f: old(self).f & !FLAG_Z, ..*old(self) }),
    {
        self.f = self.f & !FLAG_Z;
    }

    /// Sets the N flag.
    pub fn set_n(&mut self)
        ensures
            *final(self) == (Registers { f: old(self).f | FLAG_N, ..*old(self) }),
    {
        self.f = self.f | FLAG_N;
    }

    /// Clears the N flag.
    pub fn unset_n(&mut self)
        ensures
            *final(self) == (Registers { f: old(self).f & !FLAG_N, ..*old(self) }),
    {
        self.f = self.f & !FLAG_N;
    }

    /// Sets the H flag.
    pub fn set_h(&mut self)
        ensures
            *final(self) == (Registers { f: old(self).f | FLAG_H, ..*old(self) }),
    {
        self.f = self.f | FLAG_H;
    }

    /// Clears the H flag.
    pub fn unset_h(&mut self)
        ensures
            *final(self) == (Registers { f: old(self).f & !FLAG_H, ..*old(self) }),
    {
        self.f = self.f & !FLAG_H;
    }

    /// Sets the C flag.
    pub fn set_c(&mut self)
        ensures
            *final(self) == (Registers { f: old(self).f | FLAG_C, ..*old(self) }),
    {
        self.f = self.f | FLAG_C;
    }

    /// Clears the C flag.
    pub fn unset_c(&mut self)
        ensures
            *final(self) == (Registers { f: old(self).f & !FLAG_C, ..*old(self) }),
    {
        self.f = self.f & !FLAG_C;
    }

    pub fn get_z(&self) -> (r: bool)
        ensures
            r == flag_z(self.f),
    {
        (self.f / 128) % 2 == 1
    }

    pub fn get_n(&self) -> (r: bool)
        ensures
            r == flag_n(self.f),
    {
        (self.f / 64) % 2 == 1
    }

    pub fn get_h(&self) -> (r: bool)
        ensures
            r == flag_h(self.f),
    {
        (self.f / 32) % 2 == 1
    }

    pub fn get_c(&self) -> (r: bool)
        ensures
            r == flag_c(self.f),
    {
        (self.f / 16) % 2 == 1
    }

    /// Combines two bytes into one word: `high` is the most significant byte.
    fn combine(high: u8, low: u8) -> (r: u16)
        ensures
            r == word(high, low),
    {
        (high as u16) * 256 + (low as u16)
    }

    /// Splits a word into (most significant byte, least significant byte).
    fn split(num: u16) -> (r: (u8, u8))
        ensures
            r.0 == num / 256,
            r.1 == num % 256,
    {
        ((num / 256) as u8, (num % 256) as u8)
    }
}

/// Writing a pair and reading it back gives the value written, for BC, DE
/// and HL; for AF the low four bits come back cleared.
pub proof fn lemma_pair_round_trip(r: Registers, x: u16)
    ensures
        r.with_bc(x).bc() == x,
        r.with_de(x).de() == x,
        r.with_hl(x).hl() == x,
        r.with_af(x).af() == x & 0xFFF0,
        r.with_af(x).wf(),
{
    assert(x & 0xFFF0 == x - x % 16) by (bit_vector);
}

} // verus!
