use vstd::prelude::*;

verus! {

/// The 16-bit value whose high byte is `ms` and whose low byte is `ls`.
pub open spec fn word(ms: u8, ls: u8) -> u16 {
    (ms as int * 256 + ls as int) as u16
}

/// Splitting a value into its two bytes.
pub trait BitOperations {
    /// The pair (most significant byte, least significant byte).
    spec fn split_spec(&self) -> (u8, u8);

    /// Returns the number split into its most and least significant bytes,
    /// in that order.
    fn split(&self) -> (r: (u8, u8))
        ensures
            r == self.split_spec(),
    ;
}

impl BitOperations for u16 {
    open spec fn split_spec(&self) -> (u8, u8) {
        ((*self / 256) as u8, (*self % 256) as u8)
    }

    fn split(&self) -> (r: (u8, u8)) {
        ((*self / 256) as u8, (*self % 256) as u8)
    }
}

/// Combines a least significant byte with a most significant one,
/// little-endian order: the low byte comes first.
pub fn le_combine(ls: u8, ms: u8) -> (r: u16)
    ensures
        r == word(ms, ls),
        r as int == ms as int * 256 + ls as int,
{
    (ms as u16) * 256 + (ls as u16)
}

/// A byte buffer of `n` zeros.
pub fn zeros(n: usize) -> (r: Vec<u8>)
    ensures
        r@ == Seq::new(n as nat, |i: int| 0u8),
{
    let mut v: Vec<u8> = Vec::with_capacity(n);
    let mut i: usize = 0;
    while i < n
        invariant
            i <= n,
            v@ == Seq::new(i as nat, |j: int| 0u8),
        decreases n - i,
    {
        v.push(0);
        i = i + 1;
    }
    v
}

} // verus!
