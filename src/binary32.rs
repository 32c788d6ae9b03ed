//! Reading IEEE-754 binary32 values from their bit patterns.
//!
//! The galaxy settings that are real numbers reach the library as the bits
//! of an `f32`; the rules that decide on them only need the sign, the
//! exponent and the significand, which this module reads with integer
//! arithmetic.
use vstd::arithmetic::power2::{lemma2_to64, lemma_pow2_strictly_increases, pow2};
use vstd::bits::{lemma_u32_shr_is_div, lemma_u64_shl_is_mul};
use vstd::prelude::*;

verus! {

/// Bits of the smallest pattern that is not a positive finite number (`+inf`).
pub const POSITIVE_INFINITY_BITS: u32 = 0x7F80_0000;

/// Number of explicit significand bits.
pub const FRACTION_WIDTH: u32 = 23;

/// Exponent bias of binary32.
pub const EXPONENT_BIAS: u32 = 127;

/// A positive, finite, nonzero value: sign bit clear, not `+0`, and an
/// exponent field that is not all ones (no infinity, no NaN).  In binary32
/// these are exactly the patterns strictly between `+0` and `+inf`.
pub open spec fn is_positive_finite(bits: u32) -> bool {
    0 < bits < POSITIVE_INFINITY_BITS
}

/// A positive value other than NaN: a positive finite number or `+inf`.
pub open spec fn is_positive(bits: u32) -> bool {
    0 < bits <= POSITIVE_INFINITY_BITS
}

/// The biased exponent field.
pub open spec fn exponent_of(bits: u32) -> nat {
    ((bits as nat) / pow2(FRACTION_WIDTH as nat)) % 256
}

/// The significand of a normal number, implicit leading one included.
pub open spec fn significand_of(bits: u32) -> nat {
    (bits as nat) % pow2(FRACTION_WIDTH as nat) + pow2(FRACTION_WIDTH as nat)
}

/// The value of a positive finite pattern rounded toward zero to an integer:
/// the significand scaled by two to the power of (exponent - bias - 23).
/// Subnormal patterns and every value below one round to zero.
pub open spec fn truncated(bits: u32) -> nat {
    let e = exponent_of(bits);
    let m = significand_of(bits);
    if e < 127 {
        0
    } else if e < 150 {
        m / pow2((150 - e) as nat)
    } else {
        m * pow2((e - 150) as nat)
    }
}

/// What Rust's `as u32` makes of a positive `f32`: the truncated value,
/// saturated at `u32::MAX`.  For `+inf` (exponent field all ones) the
/// formula of `truncated` exceeds `u32::MAX`, so it saturates as the cast does.
pub open spec fn as_u32(bits: u32) -> u32 {
    if truncated(bits) > u32::MAX {
        u32::MAX
    } else {
        truncated(bits) as u32
    }
}

/// Whether a pattern holds a positive finite number.
pub fn positive_finite(bits: u32) -> (r: bool)
    ensures
        r == is_positive_finite(bits),
{
    0 < bits && bits < POSITIVE_INFINITY_BITS
}

/// Whether a pattern holds a positive value, `+inf` included.
pub fn positive(bits: u32) -> (r: bool)
    ensures
        r == is_positive(bits),
{
    0 < bits && bits <= POSITIVE_INFINITY_BITS
}

/// The integer part of a positive value, as `as u32` computes it.
pub fn truncate_to_u32(bits: u32) -> (r: u32)
    requires
        is_positive(bits),
    ensures
        r == as_u32(bits),
{
    proof {
        lemma2_to64();
    }
    let e: u32 = (bits / 0x80_0000) % 256;
    let m: u32 = bits % 0x80_0000 + 0x80_0000;
    assert(e == exponent_of(bits) && m == significand_of(bits));
    if e < EXPONENT_BIAS {
        0
    } else if e < 150 {
        let s: u32 = 150 - e;
        proof {
            lemma_u32_shr_is_div(m, s);
        }
        m >> s
    } else if e < 159 {
        let s: u64 = (e - 150) as u64;
        proof {
            if s < 8 {
                lemma_pow2_strictly_increases(s as nat, 8);
            }
            assert((m as u64) * pow2(s as nat) <= 0x100_0000 * 0x100) by (nonlinear_arith)
                requires
                    m < 0x100_0000,
                    pow2(s as nat) <= 0x100,
            ;
            lemma_u64_shl_is_mul(m as u64, s);
        }
        let v: u64 = (m as u64) << s;
        if v > u32::MAX as u64 {
            u32::MAX
        } else {
            v as u32
        }
    } else {
        proof {
            let s: nat = (e - 150) as nat;
            if s > 9 {
                lemma_pow2_strictly_increases(9, s);
            }
            assert(m * pow2(s) >= 0x80_0000 * 0x200) by (nonlinear_arith)
                requires
                    m >= 0x80_0000,
                    pow2(s) >= 0x200,
            ;
        }
        u32::MAX
    }
}

} // verus!
