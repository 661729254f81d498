//! The arithmetic and logic of the processor as pure functions on values:
//! each returns the result and the new flag byte.
use vstd::prelude::*;
use crate::register::{flag_byte, flag_c, flag_h, flag_n, flag_z, make_flags};

verus! {

/// `ADD`/`ADC`: `a + b + carry`.
pub open spec fn add8(a: u8, b: u8, cin: bool) -> (u8, u8) {
    let c: int = if cin { 1 } else { 0 };
    let sum = a + b + c;
    let res = (sum % 256) as u8;
    (res, flag_byte(res == 0, false, a % 16 + b % 16 + c > 15, sum > 255))
}

/// `SUB`/`SBC`/`CP`: `a - b - carry`.
pub open spec fn sub8(a: u8, b: u8, cin: bool) -> (u8, u8) {
    let c: int = if cin { 1 } else { 0 };
    let res = ((256 + a - b - c) % 256) as u8;
    (res, flag_byte(res == 0, true, a % 16 < b % 16 + c, a < b + c))
}

/// `AND`.
pub open spec fn and8(a: u8, b: u8) -> (u8, u8) {
    (a & b, flag_byte(a & b == 0, false, true, false))
}

/// `OR`.
pub open spec fn or8(a: u8, b: u8) -> (u8, u8) {
    (a | b, flag_byte(a | b == 0, false, false, false))
}

/// `XOR`.
pub open spec fn xor8(a: u8, b: u8) -> (u8, u8) {
    (a ^ b, flag_byte(a ^ b == 0, false, false, false))
}

/// `INC r8`: the carry flag of `f` is kept.
pub open spec fn inc8(v: u8, f: u8) -> (u8, u8) {
    let res = ((v + 1) % 256) as u8;
    (res, flag_byte(res == 0, false, v % 16 == 15, flag_c(f)))
}

/// `DEC r8`: the carry flag of `f` is kept.
pub open spec fn dec8(v: u8, f: u8) -> (u8, u8) {
    let res = ((v + 255) % 256) as u8;
    (res, flag_byte(res == 0, true, v % 16 == 0, flag_c(f)))
}

/// `ADD HL, rr`: the zero flag of `f` is kept.
pub open spec fn add16(hl: u16, rr: u16, f: u8) -> (u16, u8) {
    let sum = hl + rr;
    ((sum % 65536) as u16, flag_byte(flag_z(f), false, hl % 4096 + rr % 4096 > 4095, sum > 65535))
}

/// `SP + i8` for `ADD SP, i8` and `LD HL, SP+i8`: a 16-bit add of the
/// sign-extended offset; H and C come from the unsigned add of the low byte.
pub open spec fn add_sp(sp: u16, e: u8) -> (u16, u8) {
    let off: int = if e < 128 { e as int } else { e + 65280 };
    (((sp + off) % 65536) as u16, flag_byte(false, false, sp % 16 + e % 16 > 15, sp % 256 + e > 255))
}

/// `DAA`: decimal adjustment after a BCD addition or subtraction.
pub open spec fn daa8(a: u8, f: u8) -> (u8, u8) {
    let n = flag_n(f);
    let hi = flag_c(f) || (!n && a > 0x99);
    let lo = flag_h(f) || (!n && a % 16 > 9);
    let adjust: int = (if hi { 0x60int } else { 0 }) + (if lo { 6int } else { 0 });
    let res = (if n { (256 + a - adjust) % 256 } else { (a + adjust) % 256 }) as u8;
    (res, flag_byte(res == 0, n, false, hi))
}

/// `CPL`.
pub open spec fn cpl8(a: u8, f: u8) -> (u8, u8) {
    ((255 - a) as u8, flag_byte(flag_z(f), true, true, flag_c(f)))
}

/// `SCF`.
pub open spec fn scf8(f: u8) -> u8 {
    flag_byte(flag_z(f), false, false, true)
}

/// `CCF`.
pub open spec fn ccf8(f: u8) -> u8 {
    flag_byte(flag_z(f), false, false, !flag_c(f))
}

/// The kinds of rotate and shift.
#[derive(Clone, Copy, PartialEq, Eq, Structural, Debug)]
pub enum Shift {
    /// Rotate left, bit 7 to carry and bit 0.
    Rlc,
    /// Rotate right, bit 0 to carry and bit 7.
    Rrc,
    /// Rotate left through carry.
    Rl,
    /// Rotate right through carry.
    Rr,
    /// Shift left, bit 0 cleared.
    Sla,
    /// Shift right, bit 7 kept.
    Sra,
    /// Shift right, bit 7 cleared.
    Srl,
    /// Exchange the nibbles.
    Swap,
}

/// The result of a rotate or shift of `v` with carry in `cin`, and the bit
/// shifted out.
pub open spec fn shift8(k: Shift, v: u8, cin: bool) -> (u8, bool) {
    let c: int = if cin { 1 } else { 0 };
    match k {
        Shift::Rlc => (((v * 2) % 256 + v / 128) as u8, v >= 128),
        Shift::Rrc => ((v / 2 + (v % 2) * 128) as u8, v % 2 == 1),
        Shift::Rl => (((v * 2) % 256 + c) as u8, v >= 128),
        Shift::Rr => ((v / 2 + c * 128) as u8, v % 2 == 1),
        Shift::Sla => (((v * 2) % 256) as u8, v >= 128),
        Shift::Sra => ((v / 2 + (if v >= 128 { 128int } else { 0 })) as u8, v % 2 == 1),
        Shift::Srl => ((v / 2) as u8, v % 2 == 1),
        Shift::Swap => (((v % 16) * 16 + v / 16) as u8, false),
    }
}

/// A prefixed rotate or shift: Z from the result.
pub open spec fn cb_shift8(k: Shift, v: u8, f: u8) -> (u8, u8) {
    let (res, c) = shift8(k, v, flag_c(f));
    (res, flag_byte(res == 0, false, false, c))
}

/// A rotate of A (`RLCA`, `RRCA`, `RLA`, `RRA`): Z is always cleared.
pub open spec fn a_shift8(k: Shift, v: u8, f: u8) -> (u8, u8) {
    let (res, c) = shift8(k, v, flag_c(f));
    (res, flag_byte(false, false, false, c))
}

/// The value of bit `n` alone.
pub open spec fn bit_value(n: u8) -> int {
    if n == 0 {
        1
    } else if n == 1 {
        2
    } else if n == 2 {
        4
    } else if n == 3 {
        8
    } else if n == 4 {
        16
    } else if n == 5 {
        32
    } else if n == 6 {
        64
    } else {
        128
    }
}

/// Whether bit `n` of `v` is set.
pub open spec fn bit_set(n: u8, v: u8) -> bool {
    (v as int / bit_value(n)) % 2 == 1
}

/// `BIT n`: Z is the complement of the bit, carry kept.
pub open spec fn bit8(n: u8, v: u8, f: u8) -> u8 {
    flag_byte(!bit_set(n, v), false, true, flag_c(f))
}

/// `RES n`.
pub open spec fn res8(n: u8, v: u8) -> u8 {
    if bit_set(n, v) {
        (v - bit_value(n)) as u8
    } else {
        v
    }
}

/// `SET n`.
pub open spec fn set8(n: u8, v: u8) -> u8 {
    if bit_set(n, v) {
        v
    } else {
        (v + bit_value(n)) as u8
    }
}

pub fn alu_add(a: u8, b: u8, cin: bool) -> (r: (u8, u8))
    ensures
        r == add8(a, b, cin),
        r.1 % 16 == 0,
{
    let c: u16 = if cin { 1 } else { 0 };
    let sum: u16 = a as u16 + b as u16 + c;
    let res = (sum % 256) as u8;
    let f = make_flags(res == 0, false, (a % 16) as u16 + (b % 16) as u16 + c > 15, sum > 255);
    (res, f)
}

pub fn alu_sub(a: u8, b: u8, cin: bool) -> (r: (u8, u8))
    ensures
        r == sub8(a, b, cin),
        r.1 % 16 == 0,
{
    let c: u16 = if cin { 1 } else { 0 };
    let res = ((256 + a as u16 - b as u16 - c) % 256) as u8;
    let f = make_flags(res == 0, true, ((a % 16) as u16) < (b % 16) as u16 + c, (a as u16) < b as u16 + c);
    (res, f)
}

pub fn alu_and(a: u8, b: u8) -> (r: (u8, u8))
    ensures
        r == and8(a, b),
        r.1 % 16 == 0,
{
    let res = a & b;
    (res, make_flags(res == 0, false, true, false))
}

pub fn alu_or(a: u8, b: u8) -> (r: (u8, u8))
    ensures
        r == or8(a, b),
        r.1 % 16 == 0,
{
    let res = a | b;
    (res, make_flags(res == 0, false, false, false))
}

pub fn alu_xor(a: u8, b: u8) -> (r: (u8, u8))
    ensures
        r == xor8(a, b),
        r.1 % 16 == 0,
{
    let res = a ^ b;
    (res, make_flags(res == 0, false, false, false))
}

pub fn alu_inc(v: u8, f: u8) -> (r: (u8, u8))
    ensures
        r == inc8(v, f),
        r.1 % 16 == 0,
{
    let res = ((v as u16 + 1) % 256) as u8;
    (res, make_flags(res == 0, false, v % 16 == 15, (f / 16) % 2 == 1))
}

pub fn alu_dec(v: u8, f: u8) -> (r: (u8, u8))
    ensures
        r == dec8(v, f),
        r.1 % 16 == 0,
{
    let res = ((v as u16 + 255) % 256) as u8;
    (res, make_flags(res == 0, true, v % 16 == 0, (f / 16) % 2 == 1))
}

pub fn alu_add16(hl: u16, rr: u16, f: u8) -> (r: (u16, u8))
    ensures
        r == add16(hl, rr, f),
        r.1 % 16 == 0,
{
    let sum: u32 = hl as u32 + rr as u32;
    let res = (sum % 65536) as u16;
    (res, make_flags((f / 128) % 2 == 1, false, (hl % 4096) as u32 + (rr % 4096) as u32 > 4095, sum > 65535))
}

pub fn alu_add_sp(sp: u16, e: u8) -> (r: (u16, u8))
    ensures
        r == add_sp(sp, e),
        r.1 % 16 == 0,
{
    let off: u32 = if e < 128 { e as u32 } else { e as u32 + 65280 };
    let res = ((sp as u32 + off) % 65536) as u16;
    (res, make_flags(false, false, (sp % 16) as u32 + (e % 16) as u32 > 15, (sp % 256) as u32 + e as u32 > 255))
}

pub fn alu_daa(a: u8, f: u8) -> (r: (u8, u8))
    ensures
        r == daa8(a, f),
        r.1 % 16 == 0,
{
    let n = (f / 64) % 2 == 1;
    let hi = (f / 16) % 2 == 1 || (!n && a > 0x99);
    let lo = (f / 32) % 2 == 1 || (!n && a % 16 > 9);
    let adjust: u16 = (if hi { 0x60 } else { 0 }) + (if lo { 6 } else { 0 });
    let res = (if n { (256 + a as u16 - adjust) % 256 } else { (a as u16 + adjust) % 256 }) as u8;
    (res, make_flags(res == 0, n, false, hi))
}

pub fn alu_cpl(a: u8, f: u8) -> (r: (u8, u8))
    ensures
        r == cpl8(a, f),
        r.1 % 16 == 0,
{
    (255 - a, make_flags((f / 128) % 2 == 1, true, true, (f / 16) % 2 == 1))
}

pub fn alu_scf(f: u8) -> (r: u8)
    ensures
        r == scf8(f),
        r % 16 == 0,
{
    make_flags((f / 128) % 2 == 1, false, false, true)
}

pub fn alu_ccf(f: u8) -> (r: u8)
    ensures
        r == ccf8(f),
        r % 16 == 0,
{
    make_flags((f / 128) % 2 == 1, false, false, !((f / 16) % 2 == 1))
}

pub fn alu_shift(k: Shift, v: u8, cin: bool) -> (r: (u8, bool))
    ensures
        r == shift8(k, v, cin),
{
    let c: u16 = if cin { 1 } else { 0 };
    let w = v as u16;
    match k {
        Shift::Rlc => (((w * 2) % 256 + w / 128) as u8, v >= 128),
        Shift::Rrc => ((w / 2 + (w % 2) * 128) as u8, v % 2 == 1),
        Shift::Rl => (((w * 2) % 256 + c) as u8, v >= 128),
        Shift::Rr => ((w / 2 + c * 128) as u8, v % 2 == 1),
        Shift::Sla => (((w * 2) % 256) as u8, v >= 128),
        Shift::Sra => ((w / 2 + (if v >= 128 { 128 } else { 0 })) as u8, v % 2 == 1),
        Shift::Srl => ((w / 2) as u8, v % 2 == 1),
        Shift::Swap => (((w % 16) * 16 + w / 16) as u8, false),
    }
}

pub fn alu_cb_shift(k: Shift, v: u8, f: u8) -> (r: (u8, u8))
    ensures
        r == cb_shift8(k, v, f),
        r.1 % 16 == 0,
{
    let (res, c) = alu_shift(k, v, (f / 16) % 2 == 1);
    (res, make_flags(res == 0, false, false, c))
}

pub fn alu_a_shift(k: Shift, v: u8, f: u8) -> (r: (u8, u8))
    ensures
        r == a_shift8(k, v, f),
        r.1 % 16 == 0,
{
    let (res, c) = alu_shift(k, v, (f / 16) % 2 == 1);
    (res, make_flags(false, false, false, c))
}

fn bit_value_exec(n: u8) -> (r: u8)
    ensures
        r == bit_value(n),
{
    if n == 0 {
        1
    } else if n == 1 {
        2
    } else if n == 2 {
        4
    } else if n == 3 {
        8
    } else if n == 4 {
        16
    } else if n == 5 {
        32
    } else if n == 6 {
        64
    } else {
        128
    }
}

pub fn alu_bit(n: u8, v: u8, f: u8) -> (r: u8)
    ensures
        r == bit8(n, v, f),
        r % 16 == 0,
{
    let b = bit_value_exec(n);
    make_flags(!((v / b) % 2 == 1), false, true, (f / 16) % 2 == 1)
}

pub fn alu_res(n: u8, v: u8) -> (r: u8)
    ensures
        r == res8(n, v),
{
    let b = bit_value_exec(n);
    if (v / b) % 2 == 1 {
        proof {
            assert(v >= b) by (nonlinear_arith)
                requires
                    (v / b) % 2 == 1,
                    b > 0,
            ;
        }
        v - b
    } else {
        v
    }
}

pub fn alu_set(n: u8, v: u8) -> (r: u8)
    ensures
        r == set8(n, v),
{
    let b = bit_value_exec(n);
    if (v / b) % 2 == 1 {
        v
    } else {
        proof {
            lemma_clear_bit_room(v, b as int);
        }
        v + b
    }
}

/// A clear bit leaves room to set it without overflow.
proof fn lemma_clear_bit_room(v: u8, b: int)
    requires
        b == 1 || b == 2 || b == 4 || b == 8 || b == 16 || b == 32 || b == 64 || b == 128,
        (v as int / b) % 2 == 0,
    ensures
        v + b <= 255,
{
    let q = v as int / b;
    vstd::arithmetic::div_mod::lemma_fundamental_div_mod(v as int, b);
    assert(q <= 255int / b) by (nonlinear_arith)
        requires
            q == v as int / b,
            v <= 255,
            b > 0,
    ;
    assert(q * b + b <= 255) by (nonlinear_arith)
        requires
            q % 2 == 0,
            q <= 255int / b,
            b == 1 || b == 2 || b == 4 || b == 8 || b == 16 || b == 32 || b == 64 || b == 128,
            q >= 0,
    ;
}

} // verus!
