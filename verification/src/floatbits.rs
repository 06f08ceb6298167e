//! IEEE-754 operations defined on raw bit patterns.
//!
//! Float columns are carried as `u32`/`u64` bit patterns, and the float
//! operations the evaluator supports are exactly those whose IEEE-754
//! meaning is a short function of the bits: classification (`IsNaN`,
//! `IsInf`, `IsFin`), sign manipulation (`Neg`, `Abs`), and ordering.
//!
//! The encoding facts used: the top bit is the sign; the magnitude (the
//! bits below the sign) orders finite and infinite values of one sign by
//! their numeric order; a magnitude above that of infinity is a NaN; the
//! two zeros have magnitude zero.  Ordering two non-NaN values therefore
//! compares sign first, then magnitude (reversed for negatives), which the
//! `*_key` functions express by mapping a pattern to a signed integer key.
//! NaN compares unequal to everything, and ordered comparisons involving
//! NaN are false.

use vstd::prelude::*;

verus! {

/// Sign bit of an `f32` pattern.
pub const F32_SIGN: u32 = 0x8000_0000;

/// Magnitude of the infinities in an `f32` pattern.
pub const F32_INF_MAG: u32 = 0x7F80_0000;

/// Sign bit of an `f64` pattern.
pub const F64_SIGN: u64 = 0x8000_0000_0000_0000;

/// Magnitude of the infinities in an `f64` pattern.
pub const F64_INF_MAG: u64 = 0x7FF0_0000_0000_0000;

/// Magnitude (absolute value) of an `f32` bit pattern.
pub open spec fn spec_f32_mag(b: u32) -> int {
    if b >= F32_SIGN {
        b - F32_SIGN
    } else {
        b as int
    }
}

/// True of the bit patterns of `f32` NaNs.
pub open spec fn spec_f32_is_nan(b: u32) -> bool {
    spec_f32_mag(b) > F32_INF_MAG
}

/// True of the bit patterns of the two `f32` infinities.
pub open spec fn spec_f32_is_inf(b: u32) -> bool {
    spec_f32_mag(b) == F32_INF_MAG
}

/// True of the bit patterns of finite `f32` values.
pub open spec fn spec_f32_is_fin(b: u32) -> bool {
    spec_f32_mag(b) < F32_INF_MAG
}

/// Order key of an `f32` bit pattern: two non-NaN patterns compare, as
/// IEEE-754 values, exactly as their keys compare as integers (the two
/// zeros share the key `0`).
pub open spec fn spec_f32_key(b: u32) -> int {
    if b >= F32_SIGN {
        -spec_f32_mag(b)
    } else {
        spec_f32_mag(b)
    }
}

/// The bit pattern of the negation: the sign bit flipped.
pub open spec fn spec_f32_neg(b: u32) -> u32 {
    if b >= F32_SIGN {
        (b - F32_SIGN) as u32
    } else {
        (b + F32_SIGN) as u32
    }
}

/// The bit pattern of the absolute value: the sign bit cleared.
pub open spec fn spec_f32_abs(b: u32) -> u32 {
    if b >= F32_SIGN {
        (b - F32_SIGN) as u32
    } else {
        b
    }
}

/// IEEE-754 `<` on `f32` bit patterns; false when either side is NaN.
pub open spec fn spec_f32_lt(a: u32, b: u32) -> bool {
    !spec_f32_is_nan(a) && !spec_f32_is_nan(b) && spec_f32_key(a) < spec_f32_key(b)
}

/// IEEE-754 `==` on `f32` bit patterns; false when either side is NaN,
/// true of the two zeros.
pub open spec fn spec_f32_eq(a: u32, b: u32) -> bool {
    !spec_f32_is_nan(a) && !spec_f32_is_nan(b) && spec_f32_key(a) == spec_f32_key(b)
}

/// Minimum of two `f32` bit patterns: the other operand when one is NaN,
/// else the one with the smaller key (the left one when they tie).
pub open spec fn spec_f32_min(a: u32, b: u32) -> u32 {
    if spec_f32_is_nan(a) {
        b
    } else if spec_f32_is_nan(b) {
        a
    } else if spec_f32_key(a) <= spec_f32_key(b) {
        a
    } else {
        b
    }
}

/// Maximum of two `f32` bit patterns, dual to `spec_f32_min`.
pub open spec fn spec_f32_max(a: u32, b: u32) -> u32 {
    if spec_f32_is_nan(a) {
        b
    } else if spec_f32_is_nan(b) {
        a
    } else if spec_f32_key(a) >= spec_f32_key(b) {
        a
    } else {
        b
    }
}

/// Magnitude (absolute value) of an `f64` bit pattern.
pub open spec fn spec_f64_mag(b: u64) -> int {
    if b >= F64_SIGN {
        b - F64_SIGN
    } else {
        b as int
    }
}

/// True of the bit patterns of `f64` NaNs.
pub open spec fn spec_f64_is_nan(b: u64) -> bool {
    spec_f64_mag(b) > F64_INF_MAG
}

/// True of the bit patterns of the two `f64` infinities.
pub open spec fn spec_f64_is_inf(b: u64) -> bool {
    spec_f64_mag(b) == F64_INF_MAG
}

/// True of the bit patterns of finite `f64` values.
pub open spec fn spec_f64_is_fin(b: u64) -> bool {
    spec_f64_mag(b) < F64_INF_MAG
}

/// Order key of an `f64` bit pattern, as for `spec_f32_key`.
pub open spec fn spec_f64_key(b: u64) -> int {
    if b >= F64_SIGN {
        -spec_f64_mag(b)
    } else {
        spec_f64_mag(b)
    }
}

/// The bit pattern of the negation: the sign bit flipped.
pub open spec fn spec_f64_neg(b: u64) -> u64 {
    if b >= F64_SIGN {
        (b - F64_SIGN) as u64
    } else {
        (b + F64_SIGN) as u64
    }
}

/// The bit pattern of the absolute value: the sign bit cleared.
pub open spec fn spec_f64_abs(b: u64) -> u64 {
    if b >= F64_SIGN {
        (b - F64_SIGN) as u64
    } else {
        b
    }
}

/// IEEE-754 `<` on `f64` bit patterns; false when either side is NaN.
pub open spec fn spec_f64_lt(a: u64, b: u64) -> bool {
    !spec_f64_is_nan(a) && !spec_f64_is_nan(b) && spec_f64_key(a) < spec_f64_key(b)
}

/// IEEE-754 `==` on `f64` bit patterns; false when either side is NaN,
/// true of the two zeros.
pub open spec fn spec_f64_eq(a: u64, b: u64) -> bool {
    !spec_f64_is_nan(a) && !spec_f64_is_nan(b) && spec_f64_key(a) == spec_f64_key(b)
}

/// Minimum of two `f64` bit patterns, as for `spec_f32_min`.
pub open spec fn spec_f64_min(a: u64, b: u64) -> u64 {
    if spec_f64_is_nan(a) {
        b
    } else if spec_f64_is_nan(b) {
        a
    } else if spec_f64_key(a) <= spec_f64_key(b) {
        a
    } else {
        b
    }
}

/// Maximum of two `f64` bit patterns, dual to `spec_f64_min`.
pub open spec fn spec_f64_max(a: u64, b: u64) -> u64 {
    if spec_f64_is_nan(a) {
        b
    } else if spec_f64_is_nan(b) {
        a
    } else if spec_f64_key(a) >= spec_f64_key(b) {
        a
    } else {
        b
    }
}

/// Magnitude of an `f32` bit pattern.
pub fn f32_mag(b: u32) -> (r: u32)
    ensures
        r == spec_f32_mag(b),
{
    if b >= F32_SIGN {
        b - F32_SIGN
    } else {
        b
    }
}

/// True of the bit patterns of `f32` NaNs.
pub fn f32_is_nan(b: u32) -> (r: bool)
    ensures
        r == spec_f32_is_nan(b),
{
    f32_mag(b) > F32_INF_MAG
}

/// True of the bit patterns of the two `f32` infinities.
pub fn f32_is_inf(b: u32) -> (r: bool)
    ensures
        r == spec_f32_is_inf(b),
{
    f32_mag(b) == F32_INF_MAG
}

/// True of the bit patterns of finite `f32` values.
pub fn f32_is_fin(b: u32) -> (r: bool)
    ensures
        r == spec_f32_is_fin(b),
{
    f32_mag(b) < F32_INF_MAG
}

/// Flips the sign bit.
pub fn f32_neg(b: u32) -> (r: u32)
    ensures
        r == spec_f32_neg(b),
{
    if b >= F32_SIGN {
        b - F32_SIGN
    } else {
        b + F32_SIGN
    }
}

/// Compares the order keys of two `f32` bit patterns.
pub fn f32_key_lt(a: u32, b: u32) -> (r: bool)
    ensures
        r == (spec_f32_key(a) < spec_f32_key(b)),
{
    if a >= F32_SIGN {
        if b >= F32_SIGN {
            b < a
        } else {
            a != F32_SIGN || b != 0
        }
    } else {
        if b >= F32_SIGN {
            false
        } else {
            a < b
        }
    }
}

/// Compares the order keys of two `f32` bit patterns for equality.
pub fn f32_key_eq(a: u32, b: u32) -> (r: bool)
    ensures
        r == (spec_f32_key(a) == spec_f32_key(b)),
{
    a == b || (f32_mag(a) == 0 && f32_mag(b) == 0)
}

/// Minimum of two `f32` bit patterns, as `spec_f32_min` states.
pub fn f32_min(a: u32, b: u32) -> (r: u32)
    ensures
        r == spec_f32_min(a, b),
{
    if f32_is_nan(a) {
        b
    } else if f32_is_nan(b) {
        a
    } else if !f32_key_lt(b, a) {
        a
    } else {
        b
    }
}

/// Maximum of two `f32` bit patterns, as `spec_f32_max` states.
pub fn f32_max(a: u32, b: u32) -> (r: u32)
    ensures
        r == spec_f32_max(a, b),
{
    if f32_is_nan(a) {
        b
    } else if f32_is_nan(b) {
        a
    } else if !f32_key_lt(a, b) {
        a
    } else {
        b
    }
}

/// Magnitude of an `f64` bit pattern.
pub fn f64_mag(b: u64) -> (r: u64)
    ensures
        r == spec_f64_mag(b),
{
    if b >= F64_SIGN {
        b - F64_SIGN
    } else {
        b
    }
}

/// True of the bit patterns of `f64` NaNs.
pub fn f64_is_nan(b: u64) -> (r: bool)
    ensures
        r == spec_f64_is_nan(b),
{
    f64_mag(b) > F64_INF_MAG
}

/// True of the bit patterns of the two `f64` infinities.
pub fn f64_is_inf(b: u64) -> (r: bool)
    ensures
        r == spec_f64_is_inf(b),
{
    f64_mag(b) == F64_INF_MAG
}

/// True of the bit patterns of finite `f64` values.
pub fn f64_is_fin(b: u64) -> (r: bool)
    ensures
        r == spec_f64_is_fin(b),
{
    f64_mag(b) < F64_INF_MAG
}

/// Flips the sign bit.
pub fn f64_neg(b: u64) -> (r: u64)
    ensures
        r == spec_f64_neg(b),
{
    if b >= F64_SIGN {
        b - F64_SIGN
    } else {
        b + F64_SIGN
    }
}

/// Compares the order keys of two `f64` bit patterns.
pub fn f64_key_lt(a: u64, b: u64) -> (r: bool)
    ensures
        r == (spec_f64_key(a) < spec_f64_key(b)),
{
    if a >= F64_SIGN {
        if b >= F64_SIGN {
            b < a
        } else {
            a != F64_SIGN || b != 0
        }
    } else {
        if b >= F64_SIGN {
            false
        } else {
            a < b
        }
    }
}

/// Compares the order keys of two `f64` bit patterns for equality.
pub fn f64_key_eq(a: u64, b: u64) -> (r: bool)
    ensures
        r == (spec_f64_key(a) == spec_f64_key(b)),
{
    a == b || (f64_mag(a) == 0 && f64_mag(b) == 0)
}

/// Minimum of two `f64` bit patterns, as `spec_f64_min` states.
pub fn f64_min(a: u64, b: u64) -> (r: u64)
    ensures
        r == spec_f64_min(a, b),
{
    if f64_is_nan(a) {
        b
    } else if f64_is_nan(b) {
        a
    } else if !f64_key_lt(b, a) {
        a
    } else {
        b
    }
}

/// Maximum of two `f64` bit patterns, as `spec_f64_max` states.
pub fn f64_max(a: u64, b: u64) -> (r: u64)
    ensures
        r == spec_f64_max(a, b),
{
    if f64_is_nan(a) {
        b
    } else if f64_is_nan(b) {
        a
    } else if !f64_key_lt(a, b) {
        a
    } else {
        b
    }
}

} // verus!
