//! Bit-level helpers shared by the device models: single-bit reads and
//! updates of 32-bit registers, and widening of load results to `usize`.

use vstd::prelude::*;

verus! {

/// True iff bit `n` of `x` is set; meaningful for `n < 32`.
pub open spec fn bit32(x: u32, n: u32) -> bool {
    x & (1u32 << n) != 0
}

/// `x` with bit `n` set to `bit` and every other bit unchanged.
pub open spec fn with_bit32(x: u32, n: u32, bit: bool) -> u32 {
    if bit {
        x | (1u32 << n)
    } else {
        x & !(1u32 << n)
    }
}

/// Updating one bit changes that bit and no other.
pub proof fn lemma_with_bit32(x: u32, n: u32, bit: bool, i: u32)
    by (bit_vector)
    requires
        n < 32,
        i < 32,
    ensures
        bit32(with_bit32(x, n, bit), i) == (if i == n {
            bit
        } else {
            bit32(x, i)
        }),
{
}

/// A bit of `e & p & !c` is set iff it is set in `e` and in `p` and clear in `c`.
pub proof fn lemma_bit32_and3(e: u32, p: u32, c: u32, i: u32)
    by (bit_vector)
    requires
        i < 32,
    ensures
        bit32(e & p & !c, i) == (bit32(e, i) && bit32(p, i) && !bit32(c, i)),
{
}

/// Testing a bit by shifting agrees with `bit32`.
pub proof fn lemma_bit32_shift_test(x: u32, i: u32)
    by (bit_vector)
    requires
        i < 32,
    ensures
        (((x >> i) & 1) == 1) == bit32(x, i),
{
}

/// In `(p & !s) | (l & s)`, bits selected by `s` come from `l`, the rest from `p`.
pub proof fn lemma_bit32_merge(p: u32, l: u32, s: u32, i: u32)
    by (bit_vector)
    requires
        i < 32,
    ensures
        bit32((p & !s) | (l & s), i) == (if bit32(s, i) {
            bit32(l, i)
        } else {
            bit32(p, i)
        }),
{
}

/// Sets or clears bit `n` of the register `reg`, leaving the other bits alone.
pub fn atomic_set_bit(reg: &mut u32, n: u8, bit: bool)
    requires
        n < 32,
    ensures
        *final(reg) == with_bit32(*old(reg), n as u32, bit),
{
    let mask: u32 = 1u32 << (n as u32);
    if bit {
        *reg = *reg | mask;
    } else {
        *reg = *reg & !mask;
    }
}

/// True iff some bit of `reg` at position `n` or above is set.
pub fn get_bit(reg: u32, n: u8) -> (r: bool)
    requires
        n < 32,
    ensures
        r == ((reg >> (n as u32)) > 0),
{
    (reg >> (n as u32)) > 0
}

/// Widening of a load result to `usize`, with optional sign extension.
pub trait BitExtendToUsize: Sized {
    /// The zero- or sign-extension of `self` to the width of `usize`.
    spec fn to_usize_spec(self, sign_ext: bool) -> usize;

    /// Widens `self`; with `sign_ext`, the value's top bit fills the upper bits.
    fn to_usize(self, sign_ext: bool) -> (r: usize)
        ensures
            r == self.to_usize_spec(sign_ext),
    ;
}

impl BitExtendToUsize for u8 {
    open spec fn to_usize_spec(self, sign_ext: bool) -> usize {
        if sign_ext && self & 0x80u8 != 0 {
            (self as usize) | (!0usize ^ (!0u8 as usize))
        } else {
            self as usize
        }
    }

    fn to_usize(self, sign_ext: bool) -> (r: usize) {
        if sign_ext && self & 0x80u8 != 0 {
            (self as usize) | (!0usize ^ (!0u8 as usize))
        } else {
            self as usize
        }
    }
}

impl BitExtendToUsize for u16 {
    open spec fn to_usize_spec(self, sign_ext: bool) -> usize {
        if sign_ext && self & 0x8000u16 != 0 {
            (self as usize) | (!0usize ^ (!0u16 as usize))
        } else {
            self as usize
        }
    }

    fn to_usize(self, sign_ext: bool) -> (r: usize) {
        if sign_ext && self & 0x8000u16 != 0 {
            (self as usize) | (!0usize ^ (!0u16 as usize))
        } else {
            self as usize
        }
    }
}

impl BitExtendToUsize for u32 {
    open spec fn to_usize_spec(self, sign_ext: bool) -> usize {
        if sign_ext && self & 0x8000_0000u32 != 0 {
            (self as usize) | (!0usize ^ (!0u32 as usize))
        } else {
            self as usize
        }
    }

    fn to_usize(self, sign_ext: bool) -> (r: usize) {
        if sign_ext && self & 0x8000_0000u32 != 0 {
            (self as usize) | (!0usize ^ (!0u32 as usize))
        } else {
            self as usize
        }
    }
}

impl BitExtendToUsize for u64 {
    open spec fn to_usize_spec(self, sign_ext: bool) -> usize {
        if sign_ext && self & 0x8000_0000_0000_0000u64 != 0 {
            (self as usize) | (!0usize ^ (!0u64 as usize))
        } else {
            self as usize
        }
    }

    fn to_usize(self, sign_ext: bool) -> (r: usize) {
        if sign_ext && self & 0x8000_0000_0000_0000u64 != 0 {
            (self as usize) | (!0usize ^ (!0u64 as usize))
        } else {
            self as usize
        }
    }
}

} // verus!
