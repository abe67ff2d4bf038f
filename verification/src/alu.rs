//! The arithmetic of the executor.
//!
//! Registers hold 64-bit patterns.  An operation reads them as unsigned
//! numbers or, through `signed64`, as two's-complement numbers, computes
//! over the integers and wraps the result into 64 bits.  The word forms
//! compute on the low 32 bits and sign-extend the 32-bit result.

use vstd::prelude::*;

verus! {

/// The two's-complement reading of a 64-bit pattern.
pub open spec fn signed64(x: u64) -> int {
    if x < 0x8000_0000_0000_0000 {
        x as int
    } else {
        x - 0x1_0000_0000_0000_0000
    }
}

/// The two's-complement reading of a 32-bit pattern.
pub open spec fn signed32(x: u32) -> int {
    if x < 0x8000_0000 {
        x as int
    } else {
        x - 0x1_0000_0000
    }
}

/// The two's-complement reading of a 16-bit pattern.
pub open spec fn signed16(x: u16) -> int {
    if x < 0x8000 {
        x as int
    } else {
        x - 0x1_0000
    }
}

/// The two's-complement reading of an 8-bit pattern.
pub open spec fn signed8(x: u8) -> int {
    if x < 0x80 {
        x as int
    } else {
        x - 0x100
    }
}

/// The 64-bit pattern of an integer: its residue modulo `2^64`.
pub open spec fn wrap64(i: int) -> u64 {
    (i % 0x1_0000_0000_0000_0000) as u64
}

/// The 32-bit pattern of an integer: its residue modulo `2^32`.
pub open spec fn wrap32(i: int) -> u32 {
    (i % 0x1_0000_0000) as u32
}

/// The quotient rounded toward zero.
pub open spec fn trunc_div(x: int, d: int) -> int
    recommends
        d != 0,
{
    if x >= 0 {
        if d > 0 {
            x / d
        } else {
            -(x / (-d))
        }
    } else {
        if d > 0 {
            -((-x) / d)
        } else {
            (-x) / (-d)
        }
    }
}

/// The remainder that goes with `trunc_div`; it has the sign of `x`.
pub open spec fn trunc_rem(x: int, d: int) -> int
    recommends
        d != 0,
{
    x - d * trunc_div(x, d)
}

/// What the casts between the integer types compute.
proof fn lemma_casts(a: u64, b: i64, c: u32, d: i32, e: u16, f: u8)
    by (bit_vector)
    ensures
        a as i64 == (if a < 0x8000_0000_0000_0000 {
            a as int
        } else {
            a - 0x1_0000_0000_0000_0000
        }),
        b as u64 == (if b >= 0 {
            b as int
        } else {
            b + 0x1_0000_0000_0000_0000
        }),
        a as u32 == a % 0x1_0000_0000,
        a as u16 == a % 0x1_0000,
        a as u8 == a % 0x100,
        c as i32 == (if c < 0x8000_0000 {
            c as int
        } else {
            c - 0x1_0000_0000
        }),
        d as u32 == (if d >= 0 {
            d as int
        } else {
            d + 0x1_0000_0000
        }),
        d as i64 as u64 == (if d >= 0 {
            d as int
        } else {
            d + 0x1_0000_0000_0000_0000
        }),
        c as i32 as i64 as u64 == (if c < 0x8000_0000 {
            c as int
        } else {
            c + 0xffff_ffff_0000_0000
        }),
        e as i16 as i64 as u64 == (if e < 0x8000 {
            e as int
        } else {
            e + 0xffff_ffff_ffff_0000
        }),
        f as i8 as i64 as u64 == (if f < 0x80 {
            f as int
        } else {
            f + 0xffff_ffff_ffff_ff00
        }),
{
}

/// A masked shift amount is the amount modulo the width.
proof fn lemma_shift_masks(b: u64)
    by (bit_vector)
    ensures
        b & 0b111111 == b % 64,
        b & 0b11111 == b % 32,
{
}

/// The 64-bit pattern of a sign-extended 32-bit immediate.
pub open spec fn spec_sext_imm(imm: i32) -> u64 {
    wrap64(imm as int)
}

/// Computes `spec_sext_imm`.
#[verifier::when_used_as_spec(spec_sext_imm)]
pub fn sext_imm(imm: i32) -> (r: u64)
    ensures
        r == spec_sext_imm(imm),
{
    proof {
        lemma_casts(0, 0, 0, imm, 0, 0);
    }
    imm as i64 as u64
}

/// The low 32 bits of a register.
pub open spec fn spec_low_word(x: u64) -> u32 {
    wrap32(x as int)
}

/// Computes `spec_low_word`.
#[verifier::when_used_as_spec(spec_low_word)]
pub fn low_word(x: u64) -> (r: u32)
    ensures
        r == spec_low_word(x),
{
    proof {
        lemma_casts(x, 0, 0, 0, 0, 0);
    }
    x as u32
}

/// The low 16 bits of a register.
pub open spec fn spec_low_half(x: u64) -> u16 {
    (x % 0x1_0000) as u16
}

/// Computes `spec_low_half`.
#[verifier::when_used_as_spec(spec_low_half)]
pub fn low_half(x: u64) -> (r: u16)
    ensures
        r == spec_low_half(x),
{
    proof {
        lemma_casts(x, 0, 0, 0, 0, 0);
    }
    x as u16
}

/// The low 8 bits of a register.
pub open spec fn spec_low_byte(x: u64) -> u8 {
    (x % 0x100) as u8
}

/// Computes `spec_low_byte`.
#[verifier::when_used_as_spec(spec_low_byte)]
pub fn low_byte(x: u64) -> (r: u8)
    ensures
        r == spec_low_byte(x),
{
    proof {
        lemma_casts(x, 0, 0, 0, 0, 0);
    }
    x as u8
}

/// A 32-bit pattern sign-extended to 64 bits.
pub open spec fn spec_sext_word(x: u32) -> u64 {
    wrap64(signed32(x))
}

/// Computes `spec_sext_word`.
#[verifier::when_used_as_spec(spec_sext_word)]
pub fn sext_word(x: u32) -> (r: u64)
    ensures
        r == spec_sext_word(x),
{
    proof {
        lemma_casts(0, 0, x, 0, 0, 0);
    }
    x as i32 as i64 as u64
}

/// A 16-bit pattern sign-extended to 64 bits.
pub open spec fn spec_sext_half(x: u16) -> u64 {
    wrap64(signed16(x))
}

/// Computes `spec_sext_half`.
#[verifier::when_used_as_spec(spec_sext_half)]
pub fn sext_half(x: u16) -> (r: u64)
    ensures
        r == spec_sext_half(x),
{
    proof {
        lemma_casts(0, 0, 0, 0, x, 0);
    }
    x as i16 as i64 as u64
}

/// An 8-bit pattern sign-extended to 64 bits.
pub open spec fn spec_sext_byte(x: u8) -> u64 {
    wrap64(signed8(x))
}

/// Computes `spec_sext_byte`.
#[verifier::when_used_as_spec(spec_sext_byte)]
pub fn sext_byte(x: u8) -> (r: u64)
    ensures
        r == spec_sext_byte(x),
{
    proof {
        lemma_casts(0, 0, 0, 0, 0, x);
    }
    x as i8 as i64 as u64
}

/// `ADD`: the sum modulo `2^64`.
pub open spec fn spec_add64(a: u64, b: u64) -> u64 {
    wrap64(a + b)
}

/// Computes `spec_add64`.
#[verifier::when_used_as_spec(spec_add64)]
pub fn add64(a: u64, b: u64) -> (r: u64)
    ensures
        r == spec_add64(a, b),
{
    a.wrapping_add(b)
}

/// `SUB`: the difference modulo `2^64`.
pub open spec fn spec_sub64(a: u64, b: u64) -> u64 {
    wrap64(a - b)
}

/// Computes `spec_sub64`.
#[verifier::when_used_as_spec(spec_sub64)]
pub fn sub64(a: u64, b: u64) -> (r: u64)
    ensures
        r == spec_sub64(a, b),
{
    a.wrapping_sub(b)
}

/// `SLT`: 1 where `a` is below `b` as signed numbers, else 0.
pub open spec fn spec_slt(a: u64, b: u64) -> u64 {
    if signed64(a) < signed64(b) {
        1
    } else {
        0
    }
}

/// Computes `spec_slt`.
#[verifier::when_used_as_spec(spec_slt)]
pub fn slt(a: u64, b: u64) -> (r: u64)
    ensures
        r == spec_slt(a, b),
{
    proof {
        lemma_casts(a, 0, 0, 0, 0, 0);
        lemma_casts(b, 0, 0, 0, 0, 0);
    }
    if (a as i64) < (b as i64) {
        1
    } else {
        0
    }
}

/// `SLTU`: 1 where `a` is below `b` as unsigned numbers, else 0.
pub open spec fn spec_sltu(a: u64, b: u64) -> u64 {
    if a < b {
        1
    } else {
        0
    }
}

/// Computes `spec_sltu`.
#[verifier::when_used_as_spec(spec_sltu)]
pub fn sltu(a: u64, b: u64) -> (r: u64)
    ensures
        r == spec_sltu(a, b),
{
    if a < b {
        1
    } else {
        0
    }
}

/// `SLL`: `a` shifted left by the low six bits of `b`.
pub open spec fn spec_sll(a: u64, b: u64) -> u64 {
    a << (b % 64)
}

/// Computes `spec_sll`.
#[verifier::when_used_as_spec(spec_sll)]
pub fn sll(a: u64, b: u64) -> (r: u64)
    ensures
        r == spec_sll(a, b),
{
    proof {
        lemma_shift_masks(b);
    }
    let shamt: u64 = b & 0b111111;
    a << shamt
}

/// `SRL`: `a` shifted right by the low six bits of `b`, zeros coming in.
pub open spec fn spec_srl(a: u64, b: u64) -> u64 {
    a >> (b % 64)
}

/// Computes `spec_srl`.
#[verifier::when_used_as_spec(spec_srl)]
pub fn srl(a: u64, b: u64) -> (r: u64)
    ensures
        r == spec_srl(a, b),
{
    proof {
        lemma_shift_masks(b);
    }
    let shamt: u64 = b & 0b111111;
    a >> shamt
}

/// `SRA`: `a` shifted right by the low six bits of `b`, copies of the sign
/// bit coming in.
pub open spec fn spec_sra(a: u64, b: u64) -> u64 {
    ((a as i64) >> (b % 64)) as u64
}

/// Computes `spec_sra`.
#[verifier::when_used_as_spec(spec_sra)]
pub fn sra(a: u64, b: u64) -> (r: u64)
    ensures
        r == spec_sra(a, b),
{
    proof {
        lemma_shift_masks(b);
    }
    let shamt: u64 = b & 0b111111;
    ((a as i64) >> shamt) as u64
}

/// The product of a signed 64-bit number and a number that is a signed or
/// an unsigned 64-bit number fits in 128 bits with a sign.
proof fn lemma_product_signed(x: int, y: int)
    by (nonlinear_arith)
    requires
        -0x8000_0000_0000_0000 <= x < 0x8000_0000_0000_0000,
        -0x8000_0000_0000_0000 <= y < 0x1_0000_0000_0000_0000,
    ensures
        -0x8000_0000_0000_0000_0000_0000_0000_0000 <= x * y
            < 0x8000_0000_0000_0000_0000_0000_0000_0000,
{
}

/// The product of two unsigned 64-bit numbers fits in 128 bits.
proof fn lemma_product_unsigned(x: int, y: int)
    by (nonlinear_arith)
    requires
        0 <= x < 0x1_0000_0000_0000_0000,
        0 <= y < 0x1_0000_0000_0000_0000,
    ensures
        0 <= x * y < 0x1_0000_0000_0000_0000_0000_0000_0000_0000,
{
}

/// The upper half of a signed 128-bit number.
proof fn lemma_high_signed(p: i128)
    by (bit_vector)
    ensures
        (p >> 64u32) as u64 == (p / 0x1_0000_0000_0000_0000) % 0x1_0000_0000_0000_0000,
{
}

/// The upper half of an unsigned 128-bit number.
proof fn lemma_high_unsigned(p: u128)
    by (bit_vector)
    ensures
        (p >> 64u32) as u64 == p / 0x1_0000_0000_0000_0000,
        p / 0x1_0000_0000_0000_0000 < 0x1_0000_0000_0000_0000,
{
}

/// `MUL`: the low 64 bits of the product.
pub open spec fn spec_mul64(a: u64, b: u64) -> u64 {
    wrap64(a * b)
}

/// Computes `spec_mul64`.
#[verifier::when_used_as_spec(spec_mul64)]
pub fn mul64(a: u64, b: u64) -> (r: u64)
    ensures
        r == spec_mul64(a, b),
{
    proof {
        assert(0 <= a * b) by (nonlinear_arith);
    }
    a.wrapping_mul(b)
}

/// `MULH`: bits 127 to 64 of the product of the two operands read as
/// signed numbers.
pub open spec fn spec_mulh(a: u64, b: u64) -> u64 {
    wrap64((signed64(a) * signed64(b)) / 0x1_0000_0000_0000_0000)
}

/// Computes `spec_mulh`.
#[verifier::when_used_as_spec(spec_mulh)]
pub fn mulh(a: u64, b: u64) -> (r: u64)
    ensures
        r == spec_mulh(a, b),
{
    let x: i128 = a as i64 as i128;
    let y: i128 = b as i64 as i128;
    proof {
        lemma_casts(a, 0, 0, 0, 0, 0);
        lemma_casts(b, 0, 0, 0, 0, 0);
        lemma_product_signed(x as int, y as int);
    }
    let p: i128 = x * y;
    proof {
        lemma_high_signed(p);
    }
    (p >> 64u32) as u64
}

/// `MULHSU`: bits 127 to 64 of the product of `a` read as a signed and `b`
/// read as an unsigned number.
pub open spec fn spec_mulhsu(a: u64, b: u64) -> u64 {
    wrap64((signed64(a) * b) / 0x1_0000_0000_0000_0000)
}

/// Computes `spec_mulhsu`.
#[verifier::when_used_as_spec(spec_mulhsu)]
pub fn mulhsu(a: u64, b: u64) -> (r: u64)
    ensures
        r == spec_mulhsu(a, b),
{
    let x: i128 = a as i64 as i128;
    let y: i128 = b as i128;
    proof {
        lemma_casts(a, 0, 0, 0, 0, 0);
        lemma_product_signed(x as int, y as int);
    }
    let p: i128 = x * y;
    proof {
        lemma_high_signed(p);
    }
    (p >> 64u32) as u64
}

/// `MULHU`: bits 127 to 64 of the product of the two operands read as
/// unsigned numbers.
pub open spec fn spec_mulhu(a: u64, b: u64) -> u64 {
    ((a * b) / 0x1_0000_0000_0000_0000) as u64
}

/// Computes `spec_mulhu`.
#[verifier::when_used_as_spec(spec_mulhu)]
pub fn mulhu(a: u64, b: u64) -> (r: u64)
    ensures
        r == spec_mulhu(a, b),
{
    let x: u128 = a as u128;
    let y: u128 = b as u128;
    proof {
        lemma_product_unsigned(x as int, y as int);
    }
    let p: u128 = x * y;
    proof {
        lemma_high_unsigned(p);
    }
    (p >> 64u32) as u64
}

/// The remainder of the magnitudes, with the sign of the dividend, is what
/// is left of the dividend after the truncated quotient.
proof fn lemma_trunc_rem(x: int, d: int)
    requires
        d != 0,
    ensures
        trunc_rem(x, d) == (if x >= 0 {
            if d > 0 {
                x % d
            } else {
                x % (-d)
            }
        } else {
            if d > 0 {
                -((-x) % d)
            } else {
                -((-x) % (-d))
            }
        }),
{
    let ax = if x >= 0 {
        x
    } else {
        -x
    };
    let ad = if d >= 0 {
        d
    } else {
        -d
    };
    vstd::arithmetic::div_mod::lemma_fundamental_div_mod(ax, ad);
    if ax == 0 {
        vstd::arithmetic::div_mod::lemma_small_mod(0, ad as nat);
    }
    assert(d * (-(ax / ad)) == -(d * (ax / ad))) by (nonlinear_arith);
    assert((-d) * (ax / ad) == -(d * (ax / ad))) by (nonlinear_arith);
}

/// The truncated quotient is no larger in magnitude than the dividend, and
/// smaller where the divisor is neither 1 nor -1.
proof fn lemma_quotient_bounds(x: int, d: int)
    requires
        d != 0,
    ensures
        x >= 0 ==> -x <= trunc_div(x, d) <= x,
        x < 0 ==> x <= trunc_div(x, d) <= -x,
        x < 0 && d < -1 ==> trunc_div(x, d) < -x,
{
    let ax = if x >= 0 {
        x
    } else {
        -x
    };
    let ad = if d >= 0 {
        d
    } else {
        -d
    };
    vstd::arithmetic::div_mod::lemma_div_pos_is_pos(ax, ad);
    vstd::arithmetic::div_mod::lemma_div_nonincreasing(ax, ad);
    if ax > 0 && ad > 1 {
        vstd::arithmetic::div_mod::lemma_div_decreases(ax, ad);
    }
}

/// The quotient rounded toward zero of two signed 64-bit numbers, where it
/// is a signed 64-bit number.
fn quotient64(x: i64, y: i64) -> (q: i64)
    requires
        y != 0,
        !(x == i64::MIN && y == -1),
    ensures
        q == trunc_div(x as int, y as int),
{
    proof {
        lemma_quotient_bounds(x as int, y as int);
    }
    match x.checked_div(y) {
        Some(q) => {
            return q;
        },
        None => {
            return 0;
        },
    }
}

/// The remainder that goes with `quotient64`.
fn remainder64(x: i64, y: i64) -> (r: i64)
    requires
        y != 0,
        !(x == i64::MIN && y == -1),
    ensures
        r == trunc_rem(x as int, y as int),
{
    proof {
        lemma_trunc_rem(x as int, y as int);
    }
    match x.checked_rem(y) {
        Some(r) => {
            return r;
        },
        None => {
            return 0;
        },
    }
}

/// The quotient rounded toward zero of two signed 32-bit numbers, where it
/// is a signed 32-bit number.
fn quotient32(x: i32, y: i32) -> (q: i32)
    requires
        y != 0,
        !(x == i32::MIN && y == -1),
    ensures
        q == trunc_div(x as int, y as int),
{
    proof {
        lemma_quotient_bounds(x as int, y as int);
    }
    match x.checked_div(y) {
        Some(q) => {
            return q;
        },
        None => {
            return 0;
        },
    }
}

/// The remainder that goes with `quotient32`.
fn remainder32(x: i32, y: i32) -> (r: i32)
    requires
        y != 0,
        !(x == i32::MIN && y == -1),
    ensures
        r == trunc_rem(x as int, y as int),
{
    proof {
        lemma_trunc_rem(x as int, y as int);
    }
    match x.checked_rem(y) {
        Some(r) => {
            return r;
        },
        None => {
            return 0;
        },
    }
}

/// The one signed division that overflows: the quotient of the least
/// number by -1 is one more than the greatest, and nothing remains.
proof fn lemma_overflowing_division(x: int)
    ensures
        trunc_div(x, -1) == -x,
        trunc_rem(x, -1) == 0,
{
    if x >= 0 {
        vstd::arithmetic::div_mod::lemma_div_basics(x);
    } else {
        vstd::arithmetic::div_mod::lemma_div_basics(-x);
    }
}

/// `DIV`: the signed quotient rounded toward zero, wrapped into 64 bits;
/// all ones where the divisor is zero.
pub open spec fn spec_div(a: u64, b: u64) -> u64 {
    if b == 0 {
        u64::MAX
    } else {
        wrap64(trunc_div(signed64(a), signed64(b)))
    }
}

/// Computes `spec_div`.
#[verifier::when_used_as_spec(spec_div)]
pub fn div(a: u64, b: u64) -> (r: u64)
    ensures
        r == spec_div(a, b),
{
    let x: i64 = a as i64;
    let y: i64 = b as i64;
    proof {
        lemma_casts(a, 0, 0, 0, 0, 0);
        lemma_casts(b, 0, 0, 0, 0, 0);
    }
    if y == 0 {
        return u64::MAX;
    }
    if x == i64::MIN && y == -1 {
        proof {
            lemma_overflowing_division(x as int);
        }
        return a;
    }
    let q: i64 = quotient64(x, y);
    proof {
        lemma_casts(0, q, 0, 0, 0, 0);
    }
    q as u64
}

/// `DIVU`: the unsigned quotient; all ones where the divisor is zero.
pub open spec fn spec_divu(a: u64, b: u64) -> u64 {
    if b == 0 {
        u64::MAX
    } else {
        a / b
    }
}

/// Computes `spec_divu`.
#[verifier::when_used_as_spec(spec_divu)]
pub fn divu(a: u64, b: u64) -> (r: u64)
    ensures
        r == spec_divu(a, b),
{
    if b == 0 {
        u64::MAX
    } else {
        a / b
    }
}

/// `REM`: the signed remainder that goes with `DIV`, wrapped into 64 bits;
/// the dividend where the divisor is zero.
pub open spec fn spec_rem(a: u64, b: u64) -> u64 {
    if b == 0 {
        a
    } else {
        wrap64(trunc_rem(signed64(a), signed64(b)))
    }
}

/// Computes `spec_rem`.
#[verifier::when_used_as_spec(spec_rem)]
pub fn rem(a: u64, b: u64) -> (r: u64)
    ensures
        r == spec_rem(a, b),
{
    let x: i64 = a as i64;
    let y: i64 = b as i64;
    proof {
        lemma_casts(a, 0, 0, 0, 0, 0);
        lemma_casts(b, 0, 0, 0, 0, 0);
    }
    if y == 0 {
        return a;
    }
    if x == i64::MIN && y == -1 {
        proof {
            lemma_overflowing_division(x as int);
        }
        return 0;
    }
    let q: i64 = remainder64(x, y);
    proof {
        lemma_casts(0, q, 0, 0, 0, 0);
    }
    q as u64
}

/// `REMU`: the unsigned remainder; the dividend where the divisor is zero.
pub open spec fn spec_remu(a: u64, b: u64) -> u64 {
    if b == 0 {
        a
    } else {
        a % b
    }
}

/// Computes `spec_remu`.
#[verifier::when_used_as_spec(spec_remu)]
pub fn remu(a: u64, b: u64) -> (r: u64)
    ensures
        r == spec_remu(a, b),
{
    if b == 0 {
        a
    } else {
        a % b
    }
}

/// `ADDW`: the sum of the low words modulo `2^32`, sign-extended.
pub open spec fn spec_addw(a: u64, b: u64) -> u64 {
    sext_word(wrap32(low_word(a) + low_word(b)))
}

/// Computes `spec_addw`.
#[verifier::when_used_as_spec(spec_addw)]
pub fn addw(a: u64, b: u64) -> (r: u64)
    ensures
        r == spec_addw(a, b),
{
    let x: u32 = low_word(a);
    let y: u32 = low_word(b);
    sext_word(x.wrapping_add(y))
}

/// `SUBW`: the difference of the low words modulo `2^32`, sign-extended.
pub open spec fn spec_subw(a: u64, b: u64) -> u64 {
    sext_word(wrap32(low_word(a) - low_word(b)))
}

/// Computes `spec_subw`.
#[verifier::when_used_as_spec(spec_subw)]
pub fn subw(a: u64, b: u64) -> (r: u64)
    ensures
        r == spec_subw(a, b),
{
    let x: u32 = low_word(a);
    let y: u32 = low_word(b);
    sext_word(x.wrapping_sub(y))
}

/// `SLLW`: the low word shifted left by the low five bits of `b`,
/// sign-extended.
pub open spec fn spec_sllw(a: u64, b: u64) -> u64 {
    sext_word(low_word(a) << (b % 32))
}

/// Computes `spec_sllw`.
#[verifier::when_used_as_spec(spec_sllw)]
pub fn sllw(a: u64, b: u64) -> (r: u64)
    ensures
        r == spec_sllw(a, b),
{
    proof {
        lemma_shift_masks(b);
    }
    let x: u32 = low_word(a);
    let shamt: u64 = b & 0b11111;
    sext_word(x << shamt)
}

/// `SRLW`: the low word shifted right by the low five bits of `b`, zeros
/// coming in, sign-extended.
pub open spec fn spec_srlw(a: u64, b: u64) -> u64 {
    sext_word(low_word(a) >> (b % 32))
}

/// Computes `spec_srlw`.
#[verifier::when_used_as_spec(spec_srlw)]
pub fn srlw(a: u64, b: u64) -> (r: u64)
    ensures
        r == spec_srlw(a, b),
{
    proof {
        lemma_shift_masks(b);
    }
    let x: u32 = low_word(a);
    let shamt: u64 = b & 0b11111;
    sext_word(x >> shamt)
}

/// `SRAW`: the low word shifted right by the low five bits of `b`, copies
/// of its sign bit coming in, sign-extended.
pub open spec fn spec_sraw(a: u64, b: u64) -> u64 {
    sext_word(((low_word(a) as i32) >> (b % 32)) as u32)
}

/// Computes `spec_sraw`.
#[verifier::when_used_as_spec(spec_sraw)]
pub fn sraw(a: u64, b: u64) -> (r: u64)
    ensures
        r == spec_sraw(a, b),
{
    proof {
        lemma_shift_masks(b);
    }
    let x: u32 = low_word(a);
    let shamt: u64 = b & 0b11111;
    sext_word(((x as i32) >> shamt) as u32)
}

/// `MULW`: the low 32 bits of the product of the low words, sign-extended.
pub open spec fn spec_mulw(a: u64, b: u64) -> u64 {
    sext_word(wrap32(low_word(a) * low_word(b)))
}

/// Computes `spec_mulw`.
#[verifier::when_used_as_spec(spec_mulw)]
pub fn mulw(a: u64, b: u64) -> (r: u64)
    ensures
        r == spec_mulw(a, b),
{
    let x: u32 = low_word(a);
    let y: u32 = low_word(b);
    proof {
        assert(0 <= x * y) by (nonlinear_arith);
    }
    sext_word(x.wrapping_mul(y))
}

/// `DIVW`: the signed quotient of the low words rounded toward zero,
/// wrapped into 32 bits and sign-extended; all ones where the divisor is
/// zero.
pub open spec fn spec_divw(a: u64, b: u64) -> u64 {
    if low_word(b) == 0 {
        u64::MAX
    } else {
        sext_word(wrap32(trunc_div(signed32(low_word(a)), signed32(low_word(b)))))
    }
}

/// Computes `spec_divw`.
#[verifier::when_used_as_spec(spec_divw)]
pub fn divw(a: u64, b: u64) -> (r: u64)
    ensures
        r == spec_divw(a, b),
{
    let ua: u32 = low_word(a);
    let ub: u32 = low_word(b);
    let x: i32 = ua as i32;
    let y: i32 = ub as i32;
    proof {
        lemma_casts(0, 0, ua, 0, 0, 0);
        lemma_casts(0, 0, ub, 0, 0, 0);
    }
    if y == 0 {
        return u64::MAX;
    }
    if x == i32::MIN && y == -1 {
        proof {
            lemma_overflowing_division(x as int);
        }
        return sext_word(ua);
    }
    let q: i32 = quotient32(x, y);
    proof {
        lemma_casts(0, 0, 0, q, 0, 0);
    }
    sext_word(q as u32)
}

/// `DIVUW`: the unsigned quotient of the low words, sign-extended; all ones
/// where the divisor is zero.
pub open spec fn spec_divuw(a: u64, b: u64) -> u64 {
    if low_word(b) == 0 {
        u64::MAX
    } else {
        sext_word(low_word(a) / low_word(b))
    }
}

/// Computes `spec_divuw`.
#[verifier::when_used_as_spec(spec_divuw)]
pub fn divuw(a: u64, b: u64) -> (r: u64)
    ensures
        r == spec_divuw(a, b),
{
    let x: u32 = low_word(a);
    let y: u32 = low_word(b);
    if y == 0 {
        u64::MAX
    } else {
        sext_word(x / y)
    }
}

/// `REMW`: the signed remainder of the low words that goes with `DIVW`,
/// sign-extended; the sign-extended low word of the dividend where the
/// divisor is zero.
pub open spec fn spec_remw(a: u64, b: u64) -> u64 {
    if low_word(b) == 0 {
        sext_word(low_word(a))
    } else {
        sext_word(wrap32(trunc_rem(signed32(low_word(a)), signed32(low_word(b)))))
    }
}

/// Computes `spec_remw`.
#[verifier::when_used_as_spec(spec_remw)]
pub fn remw(a: u64, b: u64) -> (r: u64)
    ensures
        r == spec_remw(a, b),
{
    let ua: u32 = low_word(a);
    let ub: u32 = low_word(b);
    let x: i32 = ua as i32;
    let y: i32 = ub as i32;
    proof {
        lemma_casts(0, 0, ua, 0, 0, 0);
        lemma_casts(0, 0, ub, 0, 0, 0);
    }
    if y == 0 {
        return sext_word(ua);
    }
    if x == i32::MIN && y == -1 {
        proof {
            lemma_overflowing_division(x as int);
        }
        return sext_word(0);
    }
    let q: i32 = remainder32(x, y);
    proof {
        lemma_casts(0, 0, 0, q, 0, 0);
    }
    sext_word(q as u32)
}

/// `REMUW`: the unsigned remainder of the low words, sign-extended; the
/// sign-extended low word of the dividend where the divisor is zero.
pub open spec fn spec_remuw(a: u64, b: u64) -> u64 {
    if low_word(b) == 0 {
        sext_word(low_word(a))
    } else {
        sext_word(low_word(a) % low_word(b))
    }
}

/// Computes `spec_remuw`.
#[verifier::when_used_as_spec(spec_remuw)]
pub fn remuw(a: u64, b: u64) -> (r: u64)
    ensures
        r == spec_remuw(a, b),
{
    let x: u32 = low_word(a);
    let y: u32 = low_word(b);
    if y == 0 {
        sext_word(x)
    } else {
        sext_word(x % y)
    }
}

/// The sum of two words modulo `2^32`.
pub open spec fn spec_add32(a: u32, b: u32) -> u32 {
    wrap32(a + b)
}

/// Computes `spec_add32`.
#[verifier::when_used_as_spec(spec_add32)]
pub fn add32(a: u32, b: u32) -> (r: u32)
    ensures
        r == spec_add32(a, b),
{
    a.wrapping_add(b)
}

/// The smaller of two words read as unsigned numbers.
pub open spec fn spec_min_unsigned(a: u32, b: u32) -> u32 {
    if a <= b {
        a
    } else {
        b
    }
}

/// Computes `spec_min_unsigned`.
#[verifier::when_used_as_spec(spec_min_unsigned)]
pub fn min_unsigned(a: u32, b: u32) -> (r: u32)
    ensures
        r == spec_min_unsigned(a, b),
{
    if a <= b {
        a
    } else {
        b
    }
}

/// The larger of two words read as unsigned numbers.
pub open spec fn spec_max_unsigned(a: u32, b: u32) -> u32 {
    if a >= b {
        a
    } else {
        b
    }
}

/// Computes `spec_max_unsigned`.
#[verifier::when_used_as_spec(spec_max_unsigned)]
pub fn max_unsigned(a: u32, b: u32) -> (r: u32)
    ensures
        r == spec_max_unsigned(a, b),
{
    if a >= b {
        a
    } else {
        b
    }
}

/// The smaller of two words read as signed numbers.
pub open spec fn spec_min_signed(a: u32, b: u32) -> u32 {
    if signed32(a) <= signed32(b) {
        a
    } else {
        b
    }
}

/// Computes `spec_min_signed`.
#[verifier::when_used_as_spec(spec_min_signed)]
pub fn min_signed(a: u32, b: u32) -> (r: u32)
    ensures
        r == spec_min_signed(a, b),
{
    proof {
        lemma_casts(0, 0, a, 0, 0, 0);
        lemma_casts(0, 0, b, 0, 0, 0);
    }
    if (a as i32) <= (b as i32) {
        a
    } else {
        b
    }
}

/// The larger of two words read as signed numbers.
pub open spec fn spec_max_signed(a: u32, b: u32) -> u32 {
    if signed32(a) >= signed32(b) {
        a
    } else {
        b
    }
}

/// Computes `spec_max_signed`.
#[verifier::when_used_as_spec(spec_max_signed)]
pub fn max_signed(a: u32, b: u32) -> (r: u32)
    ensures
        r == spec_max_signed(a, b),
{
    proof {
        lemma_casts(0, 0, a, 0, 0, 0);
        lemma_casts(0, 0, b, 0, 0, 0);
    }
    if (a as i32) >= (b as i32) {
        a
    } else {
        b
    }
}

/// An unsigned immediate below `2^31` is its own sign extension.
pub proof fn lemma_small_immediate(uimm: u32)
    requires
        uimm < 0x8000_0000,
    ensures
        sext_imm(uimm as i32) == uimm as u64,
        (uimm as i32) as u64 == uimm as u64,
{
}

/// Shifting by nothing changes nothing.
proof fn lemma_shift_by_zero(x: u64)
    by (bit_vector)
    ensures
        x << 0u64 == x,
        x >> 0u64 == x,
{
}

/// Adding a zero immediate, and shifting left or right by zero, give the
/// operand back.
pub proof fn lemma_identities(x: u64)
    ensures
        add64(x, sext_imm(0)) == x,
        add64(0, x) == x,
        sll(x, 0) == x,
        srl(x, 0) == x,
{
    lemma_shift_by_zero(x);
}

/// Only the low six bits of the amount count in a doubleword shift, and
/// only the low five in a word shift.
pub proof fn lemma_shift_amount_masked(a: u64, b: u64)
    ensures
        sll(a, b) == sll(a, b & 0b111111),
        srl(a, b) == srl(a, b & 0b111111),
        sra(a, b) == sra(a, b & 0b111111),
        sllw(a, b) == sllw(a, b & 0b11111),
        srlw(a, b) == srlw(a, b & 0b11111),
        sraw(a, b) == sraw(a, b & 0b11111),
{
    lemma_shift_masks(b);
}

/// Division by zero gives all ones, and the remainder of a division by
/// zero is the dividend; for the word forms, by a zero low word, with the
/// low word of the dividend sign-extended.
pub proof fn lemma_division_by_zero(a: u64, b: u64)
    ensures
        div(a, 0) == u64::MAX,
        divu(a, 0) == u64::MAX,
        rem(a, 0) == a,
        remu(a, 0) == a,
        low_word(b) == 0 ==> divw(a, b) == u64::MAX,
        low_word(b) == 0 ==> divuw(a, b) == u64::MAX,
        low_word(b) == 0 ==> remw(a, b) == sext_word(low_word(a)),
        low_word(b) == 0 ==> remuw(a, b) == sext_word(low_word(a)),
{
}

/// The signed division that overflows: the least number divided by -1 is
/// the least number again, and the remainder is zero, in both widths.
pub proof fn lemma_division_overflow(a: u64, b: u64)
    ensures
        div(0x8000_0000_0000_0000, u64::MAX) == 0x8000_0000_0000_0000,
        rem(0x8000_0000_0000_0000, u64::MAX) == 0,
        low_word(a) == 0x8000_0000 && low_word(b) == 0xffff_ffff ==> divw(a, b)
            == 0xffff_ffff_8000_0000,
        low_word(a) == 0x8000_0000 && low_word(b) == 0xffff_ffff ==> remw(a, b) == 0,
{
    lemma_overflowing_division(-0x8000_0000_0000_0000);
    lemma_overflowing_division(-0x8000_0000);
}

} // verus!
