//! Bit fields of a code word and two's-complement sign extension, stated
//! over the integers.

use vstd::prelude::*;
use vstd::arithmetic::power2::pow2;

verus! {

/// Two to the power `n`, written out for the exponents that fields of
/// code words need.
#[verifier::inline]
pub open spec fn two_to(n: nat) -> int {
    if n == 0 {
        0x1
    } else if n == 1 {
        0x2
    } else if n == 2 {
        0x4
    } else if n == 3 {
        0x8
    } else if n == 4 {
        0x10
    } else if n == 5 {
        0x20
    } else if n == 6 {
        0x40
    } else if n == 7 {
        0x80
    } else if n == 8 {
        0x100
    } else if n == 9 {
        0x200
    } else if n == 10 {
        0x400
    } else if n == 11 {
        0x800
    } else if n == 12 {
        0x1000
    } else if n == 13 {
        0x2000
    } else if n == 14 {
        0x4000
    } else if n == 15 {
        0x8000
    } else if n == 16 {
        0x10000
    } else if n == 17 {
        0x20000
    } else if n == 18 {
        0x40000
    } else if n == 19 {
        0x80000
    } else if n == 20 {
        0x100000
    } else if n == 21 {
        0x200000
    } else if n == 22 {
        0x400000
    } else if n == 23 {
        0x800000
    } else if n == 24 {
        0x1000000
    } else if n == 25 {
        0x2000000
    } else if n == 26 {
        0x4000000
    } else if n == 27 {
        0x8000000
    } else if n == 28 {
        0x10000000
    } else if n == 29 {
        0x20000000
    } else if n == 30 {
        0x40000000
    } else if n == 31 {
        0x80000000
    } else if n == 32 {
        0x100000000
    } else {
        pow2(n) as int
    }
}

/// The field `word[hi:lo]`: the bits of `word` from position `lo` up to and
/// including position `hi`, read as an unsigned number.
#[verifier::inline]
pub open spec fn bits(word: int, hi: nat, lo: nat) -> int
    recommends
        0 <= word,
        lo <= hi,
{
    (word / two_to(lo)) % two_to((hi + 1 - lo) as nat)
}

/// The bit `word[i]` as a truth value.
pub open spec fn bit(word: int, i: nat) -> bool {
    bits(word, i, i) == 1
}

/// The value of an unsigned `width`-bit number when its top bit is taken as
/// the sign.
#[verifier::inline]
pub open spec fn sext(value: int, width: nat) -> int
    recommends
        0 < width,
        0 <= value < pow2(width),
{
    if value < two_to((width - 1) as nat) {
        value
    } else {
        value - two_to(width)
    }
}

} // verus!
