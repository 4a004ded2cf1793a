//! IEEE-754 comparison and negation over bit patterns. The
//! interpreter carries floats and doubles as their big-endian bit
//! patterns; ordering, equality of the two zeros, NaN detection and
//! sign negation are all functions of the bits alone, so they are
//! implemented here in integer logic: a value is NaN when its exponent
//! field is all ones and its fraction field is not zero, and two
//! non-NaN values order as sign-magnitude integers, with the two
//! zeros equal.
use vstd::prelude::*;

verus! {

/// True of the 32-bit patterns that denote NaN.
pub open spec fn float_is_nan(bits: u32) -> bool {
    (bits >> 23) & 0xFF == 0xFF && bits & 0x7FFFFF != 0
}

/// True of the 64-bit patterns that denote NaN.
pub open spec fn double_is_nan(bits: u64) -> bool {
    (bits >> 52) & 0x7FF == 0x7FF && bits & 0xFFFFFFFFFFFFF != 0
}

/// The order key of a non-NaN 32-bit pattern: its magnitude, negated
/// when the sign bit is set. Keys order exactly as the values do, and
/// give the two zeros the same key.
pub open spec fn float_key(bits: u32) -> int {
    if bits & 0x80000000 != 0 {
        -((bits & 0x7FFFFFFF) as int)
    } else {
        (bits & 0x7FFFFFFF) as int
    }
}

/// The order key of a non-NaN 64-bit pattern.
pub open spec fn double_key(bits: u64) -> int {
    if bits & 0x8000000000000000 != 0 {
        -((bits & 0x7FFFFFFFFFFFFFFF) as int)
    } else {
        (bits & 0x7FFFFFFFFFFFFFFF) as int
    }
}

/// What a float comparison instruction pushes (JVMS 6.5, fcmpg and
/// fcmpl): 1, minus 1 or 0 for the strict orderings of `a`, value 1,
/// against `b`, value 2, and `nan_result` when either operand is
/// NaN.
pub open spec fn float_cmp(a: u32, b: u32, nan_result: i32) -> i32 {
    if float_is_nan(a) || float_is_nan(b) {
        nan_result
    } else if float_key(a) > float_key(b) {
        1
    } else if float_key(a) < float_key(b) {
        (-1) as i32
    } else {
        0
    }
}

/// What a double comparison instruction pushes (JVMS 6.5, dcmpg and
/// dcmpl).
pub open spec fn double_cmp(a: u64, b: u64, nan_result: i32) -> i32 {
    if double_is_nan(a) || double_is_nan(b) {
        nan_result
    } else if double_key(a) > double_key(b) {
        1
    } else if double_key(a) < double_key(b) {
        (-1) as i32
    } else {
        0
    }
}

/// Whether a 32-bit pattern denotes NaN.
pub fn float_bits_is_nan(bits: u32) -> (r: bool)
    ensures
        r == float_is_nan(bits),
{
    ((bits >> 23) & 0xFF) == 0xFF && (bits & 0x7FFFFF) != 0
}

/// Whether a 64-bit pattern denotes NaN.
pub fn double_bits_is_nan(bits: u64) -> (r: bool)
    ensures
        r == double_is_nan(bits),
{
    ((bits >> 52) & 0x7FF) == 0x7FF && (bits & 0xFFFFFFFFFFFFF) != 0
}

/// Compares two 32-bit patterns as floats, pushing `nan_result` on
/// any NaN operand.
pub fn float_bits_cmp(a: u32, b: u32, nan_result: i32) -> (r: i32)
    ensures
        r == float_cmp(a, b, nan_result),
{
    if float_bits_is_nan(a) || float_bits_is_nan(b) {
        return nan_result;
    }
    let ma = (a & 0x7FFFFFFF) as i64;
    let mb = (b & 0x7FFFFFFF) as i64;
    let ka: i64 = if (a & 0x80000000) != 0 { -ma } else { ma };
    let kb: i64 = if (b & 0x80000000) != 0 { -mb } else { mb };
    if ka > kb {
        1
    } else if ka < kb {
        (-1) as i32
    } else {
        0
    }
}

/// Compares two 64-bit patterns as doubles, pushing `nan_result` on
/// any NaN operand.
pub fn double_bits_cmp(a: u64, b: u64, nan_result: i32) -> (r: i32)
    ensures
        r == double_cmp(a, b, nan_result),
{
    if double_bits_is_nan(a) || double_bits_is_nan(b) {
        return nan_result;
    }
    proof {
        assert(a & 0x7FFFFFFFFFFFFFFF <= 0x7FFFFFFFFFFFFFFF && b & 0x7FFFFFFFFFFFFFFF
            <= 0x7FFFFFFFFFFFFFFF) by (bit_vector);
    }
    let ma = (a & 0x7FFFFFFFFFFFFFFF) as i64;
    let mb = (b & 0x7FFFFFFFFFFFFFFF) as i64;
    let ka: i64 = if (a & 0x8000000000000000) != 0 { -ma } else { ma };
    let kb: i64 = if (b & 0x8000000000000000) != 0 { -mb } else { mb };
    if ka > kb {
        1
    } else if ka < kb {
        (-1) as i32
    } else {
        0
    }
}

/// Negates a float: the sign bit flips and nothing else changes.
pub fn float_bits_neg(bits: u32) -> (r: u32)
    ensures
        r == bits ^ 0x80000000u32,
{
    bits ^ 0x80000000
}

/// Negates a double: the sign bit flips and nothing else changes.
pub fn double_bits_neg(bits: u64) -> (r: u64)
    ensures
        r == bits ^ 0x8000000000000000u64,
{
    bits ^ 0x8000000000000000
}

} // verus!
