use vstd::arithmetic::power2::{lemma2_to64, pow2};
use vstd::prelude::*;

verus! {

/// Two to the power `n`, for the bit positions `0..=32` of a word.
pub open spec fn exp2(n: u32) -> u64 {
    if n == 0 {
        0x1
    } else if n == 1 {
        0x2
    } else if n == 2 {
        0x4
    } else if n == 3 {
        0x8
    } else if n == 4 {
        0x10
    } else if n == 5 {
        0x20
    } else if n == 6 {
        0x40
    } else if n == 7 {
        0x80
    } else if n == 8 {
        0x100
    } else if n == 9 {
        0x200
    } else if n == 10 {
        0x400
    } else if n == 11 {
        0x800
    } else if n == 12 {
        0x1000
    } else if n == 13 {
        0x2000
    } else if n == 14 {
        0x4000
    } else if n == 15 {
        0x8000
    } else if n == 16 {
        0x1_0000
    } else if n == 17 {
        0x2_0000
    } else if n == 18 {
        0x4_0000
    } else if n == 19 {
        0x8_0000
    } else if n == 20 {
        0x10_0000
    } else if n == 21 {
        0x20_0000
    } else if n == 22 {
        0x40_0000
    } else if n == 23 {
        0x80_0000
    } else if n == 24 {
        0x100_0000
    } else if n == 25 {
        0x200_0000
    } else if n == 26 {
        0x400_0000
    } else if n == 27 {
        0x800_0000
    } else if n == 28 {
        0x1000_0000
    } else if n == 29 {
        0x2000_0000
    } else if n == 30 {
        0x4000_0000
    } else if n == 31 {
        0x8000_0000
    } else {
        0x1_0000_0000
    }
}

/// `exp2` is the shift of one, and shifting right divides by it.
pub proof fn lemma_exp2_shift(v: u32, n: u32)
    by (bit_vector)
    requires
        n < 32,
    ensures
        exp2(n) == (1u32 << n),
        v >> n == v / (1u32 << n),
{
}

/// `exp2` is the power of two.
pub proof fn lemma_exp2_is_pow2(n: u32)
    requires
        n <= 32,
    ensures
        exp2(n) == pow2(n as nat),
{
    lemma2_to64();
}

/// The word whose bits below bit `n` are set, and no others.
pub open spec fn low_bits(n: u32) -> u32 {
    (exp2(n) - 1) as u32
}

/// The integer that a word stands for when read as two's complement.
pub open spec fn signed(v: u32) -> int {
    if v < 0x8000_0000 {
        v as int
    } else {
        v - 0x1_0000_0000
    }
}

/// `a + b` modulo the word size.
pub open spec fn wrapping_sum(a: u32, b: u32) -> u32 {
    if a + b < 0x1_0000_0000 {
        (a + b) as u32
    } else {
        (a + b - 0x1_0000_0000) as u32
    }
}

/// `a - b` modulo the word size.
pub open spec fn wrapping_difference(a: u32, b: u32) -> u32 {
    if a >= b {
        (a - b) as u32
    } else {
        (a - b + 0x1_0000_0000) as u32
    }
}

/// Reads a word as two's complement.
pub fn as_signed(v: u32) -> (r: i32)
    ensures
        r == signed(v),
        r == v as i32,
{
    assert((v as i32) as int == if v < 0x8000_0000u32 {
        v as int
    } else {
        v as int - 0x1_0000_0000
    }) by (bit_vector);
    #[verifier::truncate]
    (v as i32)
}

/// The part of `word` that starts at the bit of weight `weight` and takes `span` values.
pub open spec fn field(word: u32, weight: int, span: int) -> u32 {
    ((word as int / weight) % span) as u32
}

/// `word` with that part replaced by `value` modulo `span`.
pub open spec fn with_field(word: u32, weight: int, span: int, value: u32) -> u32 {
    (word - ((word as int / weight) % span) * weight + (value as int % span) * weight) as u32
}

/// Shifting right by whole bytes divides by a power of 256.
pub proof fn lemma_byte_shift_right(v: u32, diff: u32, shift: u32)
    by (bit_vector)
    requires
        diff < 4,
        shift == 8 * diff,
    ensures
        diff == 0 ==> v >> shift == v,
        diff == 1 ==> v >> shift == v / 0x100,
        diff == 2 ==> v >> shift == v / 0x1_0000,
        diff == 3 ==> v >> shift == v / 0x100_0000,
{
}

} // verus!
