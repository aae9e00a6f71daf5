//! Single-precision values as bit patterns.
//!
//! A `u32` here is the IEEE 754 binary32 encoding of a value: one sign bit,
//! eight exponent bits, twenty-three fraction bits. Everything in this module
//! is integer arithmetic on that encoding.

use vstd::prelude::*;

verus! {

/// The bit pattern of `+0.0`.
pub const ZERO: u32 = 0;

/// The bit pattern of `-0.0`.
pub const NEG_ZERO: u32 = 0x8000_0000;

/// The bit pattern of `1.0`.
pub const ONE: u32 = 0x3f80_0000;

/// The bit pattern of `+infinity`; every larger magnitude is a NaN.
pub const INFINITY: u32 = 0x7f80_0000;

/// The weight of the sign bit.
pub const SIGN: u32 = 0x8000_0000;

/// Whether the sign bit is set.
pub open spec fn is_negative(bits: u32) -> bool {
    bits >= SIGN
}

/// The pattern without its sign bit, as a number.
pub open spec fn magnitude(bits: u32) -> int {
    if bits >= SIGN {
        bits - SIGN
    } else {
        bits as int
    }
}

/// Whether the pattern encodes a NaN.
pub open spec fn is_nan(bits: u32) -> bool {
    magnitude(bits) > INFINITY
}

/// The place of a value that is no NaN on the number line: patterns of larger
/// values have larger ordinals, and both zeros have ordinal 0.
pub open spec fn ordinal(bits: u32) -> int {
    if is_negative(bits) {
        -magnitude(bits)
    } else {
        magnitude(bits)
    }
}

/// The place of a pattern in the IEEE 754 total order: negative NaNs first,
/// then the negative values up to `-0.0`, then `+0.0` and the positive values,
/// then the positive NaNs.
pub open spec fn total_key(bits: u32) -> int {
    if is_negative(bits) {
        -1 - magnitude(bits)
    } else {
        magnitude(bits)
    }
}

/// Numeric `<`: false as soon as one side is a NaN.
pub open spec fn lt(a: u32, b: u32) -> bool {
    !is_nan(a) && !is_nan(b) && ordinal(a) < ordinal(b)
}

/// Numeric `==`: false as soon as one side is a NaN; the two zeros are equal.
pub open spec fn eq(a: u32, b: u32) -> bool {
    !is_nan(a) && !is_nan(b) && ordinal(a) == ordinal(b)
}

/// The pattern of the negated value: the sign bit flipped.
pub open spec fn negated(bits: u32) -> u32 {
    if bits >= SIGN {
        (bits - SIGN) as u32
    } else {
        (bits + SIGN) as u32
    }
}

/// The smaller of two values; where one is a NaN, the other; of two equal
/// values, such as the two zeros, the first.
pub open spec fn minimum(a: u32, b: u32) -> u32 {
    if is_nan(a) {
        b
    } else if is_nan(b) {
        a
    } else if ordinal(b) < ordinal(a) {
        b
    } else {
        a
    }
}

/// The larger of two values; where one is a NaN, the other; of two equal
/// values, such as the two zeros, the first.
pub open spec fn maximum(a: u32, b: u32) -> u32 {
    if is_nan(a) {
        b
    } else if is_nan(b) {
        a
    } else if ordinal(a) < ordinal(b) {
        b
    } else {
        a
    }
}

/// Whether the pattern encodes a NaN.
pub fn bits_is_nan(bits: u32) -> (r: bool)
    ensures
        r == is_nan(bits),
{
    let mag: u32 = if bits >= SIGN {
        bits - SIGN
    } else {
        bits
    };
    mag > INFINITY
}

/// The ordinal of a pattern, see [`ordinal`].
pub fn bits_ordinal(bits: u32) -> (r: i64)
    ensures
        r == ordinal(bits),
{
    if bits >= SIGN {
        let mag: u32 = bits - SIGN;
        let m: i64 = mag as i64;
        -m
    } else {
        bits as i64
    }
}

/// The key of a pattern in the total order, see [`total_key`].
pub fn bits_total_key(bits: u32) -> (r: i64)
    ensures
        r == total_key(bits),
{
    if bits >= SIGN {
        let mag: u32 = bits - SIGN;
        let m: i64 = mag as i64;
        -1 - m
    } else {
        bits as i64
    }
}

/// Numeric `<` on two patterns.
pub fn bits_lt(a: u32, b: u32) -> (r: bool)
    ensures
        r == lt(a, b),
{
    !bits_is_nan(a) && !bits_is_nan(b) && bits_ordinal(a) < bits_ordinal(b)
}

/// Numeric `>` on two patterns.
pub fn bits_gt(a: u32, b: u32) -> (r: bool)
    ensures
        r == lt(b, a),
{
    bits_lt(b, a)
}

/// Numeric `==` on two patterns.
pub fn bits_eq(a: u32, b: u32) -> (r: bool)
    ensures
        r == eq(a, b),
{
    !bits_is_nan(a) && !bits_is_nan(b) && bits_ordinal(a) == bits_ordinal(b)
}

/// The pattern of the negated value.
pub fn bits_neg(bits: u32) -> (r: u32)
    ensures
        r == negated(bits),
{
    if bits >= SIGN {
        bits - SIGN
    } else {
        bits + SIGN
    }
}

/// The smaller of two values; where one is a NaN, the other.
pub fn bits_min(a: u32, b: u32) -> (r: u32)
    ensures
        r == minimum(a, b),
{
    if bits_is_nan(a) {
        b
    } else if bits_is_nan(b) {
        a
    } else if bits_ordinal(b) < bits_ordinal(a) {
        b
    } else {
        a
    }
}

/// The larger of two values; where one is a NaN, the other.
pub fn bits_max(a: u32, b: u32) -> (r: u32)
    ensures
        r == maximum(a, b),
{
    if bits_is_nan(a) {
        b
    } else if bits_is_nan(b) {
        a
    } else if bits_ordinal(a) < bits_ordinal(b) {
        b
    } else {
        a
    }
}

/// Two patterns with the same key in the total order are the same pattern.
pub proof fn lemma_total_key_injective(a: u32, b: u32)
    requires
        total_key(a) == total_key(b),
    ensures
        a == b,
{
}

/// On values that are no NaN the total order agrees with the numeric order,
/// and puts `-0.0` before `+0.0`.
pub proof fn lemma_total_key_refines_lt(a: u32, b: u32)
    requires
        lt(a, b),
    ensures
        total_key(a) < total_key(b),
{
}

/// Negation reverses the total order.
pub proof fn lemma_negated_reverses(a: u32, b: u32)
    ensures
        total_key(negated(a)) == -1 - total_key(a),
        total_key(a) <= total_key(b) <==> total_key(negated(b)) <= total_key(negated(a)),
        negated(negated(a)) == a,
{
}

} // verus!
