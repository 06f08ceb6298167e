//! Scalar kernels: one application of an opcode to tagged scalars.
//!
//! These functions give the element-level meaning of every opcode; the
//! chunked drivers apply them across columns, and the constant-constant
//! shape of the evaluator applies them directly.  Integer arithmetic
//! wraps; integer division and remainder truncate, and the pairs whose
//! result Rust's checked operations decline (a zero divisor, or `MIN`
//! divided by `-1`) are reported as unsupported rather than trapping.
//! Float operations are defined on the IEEE-754 bit patterns.

use vstd::prelude::*;

use crate::floatbits::{
    f32_is_fin, f32_is_inf, f32_is_nan, f32_key_eq, f32_key_lt, f32_mag, f32_min, f32_max, f32_neg,
    f64_is_fin, f64_is_inf, f64_is_nan, f64_key_eq, f64_key_lt, f64_mag, f64_min, f64_max, f64_neg,
    spec_f32_abs, spec_f32_eq, spec_f32_is_fin, spec_f32_is_inf, spec_f32_is_nan, spec_f32_lt,
    spec_f32_max, spec_f32_min, spec_f32_neg, spec_f64_abs, spec_f64_eq, spec_f64_is_fin,
    spec_f64_is_inf, spec_f64_is_nan, spec_f64_lt, spec_f64_max, spec_f64_min, spec_f64_neg,
};
use crate::operands::{lemma_const_ty_inversion, Const};
use crate::scalarty::ScalarTy;
use vstd::arithmetic::div_mod::{
    lemma_div_basics, lemma_div_is_ordered, lemma_div_is_ordered_by_denominator,
    lemma_div_is_strictly_smaller, lemma_div_nonincreasing, lemma_div_pos_is_pos,
    lemma_mod_division_less_than_divisor,
};
use crate::ops::{
    bool_binop_supported, bool_unop_supported, spec_bool_binop_supported,
    spec_bool_unop_supported, spec_val_binop_supported, spec_val_unop_supported,
    val_binop_supported, val_unop_supported, BoolBinOpCode, BoolUnOpCode, OpError, ValBinOpCode,
    ValUnOpCode,
};

verus! {

/// Wrapping addition on matching integer constants.
pub open spec fn spec_add(a: Const, b: Const) -> Result<Const, OpError> {
    match (a, b) {
        (Const::ConstU8(x), Const::ConstU8(y)) => Ok(Const::ConstU8(x.wrapping_add(y))),
        (Const::ConstU16(x), Const::ConstU16(y)) => Ok(Const::ConstU16(x.wrapping_add(y))),
        (Const::ConstU32(x), Const::ConstU32(y)) => Ok(Const::ConstU32(x.wrapping_add(y))),
        (Const::ConstU64(x), Const::ConstU64(y)) => Ok(Const::ConstU64(x.wrapping_add(y))),
        (Const::ConstU128(x), Const::ConstU128(y)) => Ok(Const::ConstU128(x.wrapping_add(y))),
        (Const::ConstI8(x), Const::ConstI8(y)) => Ok(Const::ConstI8(x.wrapping_add(y))),
        (Const::ConstI16(x), Const::ConstI16(y)) => Ok(Const::ConstI16(x.wrapping_add(y))),
        (Const::ConstI32(x), Const::ConstI32(y)) => Ok(Const::ConstI32(x.wrapping_add(y))),
        (Const::ConstI64(x), Const::ConstI64(y)) => Ok(Const::ConstI64(x.wrapping_add(y))),
        (Const::ConstI128(x), Const::ConstI128(y)) => Ok(Const::ConstI128(x.wrapping_add(y))),
        _ => Err(OpError::Unsupported),
    }
}

/// Wrapping subtraction on matching integer constants.
pub open spec fn spec_sub(a: Const, b: Const) -> Result<Const, OpError> {
    match (a, b) {
        (Const::ConstU8(x), Const::ConstU8(y)) => Ok(Const::ConstU8(x.wrapping_sub(y))),
        (Const::ConstU16(x), Const::ConstU16(y)) => Ok(Const::ConstU16(x.wrapping_sub(y))),
        (Const::ConstU32(x), Const::ConstU32(y)) => Ok(Const::ConstU32(x.wrapping_sub(y))),
        (Const::ConstU64(x), Const::ConstU64(y)) => Ok(Const::ConstU64(x.wrapping_sub(y))),
        (Const::ConstU128(x), Const::ConstU128(y)) => Ok(Const::ConstU128(x.wrapping_sub(y))),
        (Const::ConstI8(x), Const::ConstI8(y)) => Ok(Const::ConstI8(x.wrapping_sub(y))),
        (Const::ConstI16(x), Const::ConstI16(y)) => Ok(Const::ConstI16(x.wrapping_sub(y))),
        (Const::ConstI32(x), Const::ConstI32(y)) => Ok(Const::ConstI32(x.wrapping_sub(y))),
        (Const::ConstI64(x), Const::ConstI64(y)) => Ok(Const::ConstI64(x.wrapping_sub(y))),
        (Const::ConstI128(x), Const::ConstI128(y)) => Ok(Const::ConstI128(x.wrapping_sub(y))),
        _ => Err(OpError::Unsupported),
    }
}

/// Wrapping multiplication on matching integer constants.
pub open spec fn spec_mul(a: Const, b: Const) -> Result<Const, OpError> {
    match (a, b) {
        (Const::ConstU8(x), Const::ConstU8(y)) => Ok(Const::ConstU8(x.wrapping_mul(y))),
        (Const::ConstU16(x), Const::ConstU16(y)) => Ok(Const::ConstU16(x.wrapping_mul(y))),
        (Const::ConstU32(x), Const::ConstU32(y)) => Ok(Const::ConstU32(x.wrapping_mul(y))),
        (Const::ConstU64(x), Const::ConstU64(y)) => Ok(Const::ConstU64(x.wrapping_mul(y))),
        (Const::ConstU128(x), Const::ConstU128(y)) => Ok(Const::ConstU128(x.wrapping_mul(y))),
        (Const::ConstI8(x), Const::ConstI8(y)) => Ok(Const::ConstI8(x.wrapping_mul(y))),
        (Const::ConstI16(x), Const::ConstI16(y)) => Ok(Const::ConstI16(x.wrapping_mul(y))),
        (Const::ConstI32(x), Const::ConstI32(y)) => Ok(Const::ConstI32(x.wrapping_mul(y))),
        (Const::ConstI64(x), Const::ConstI64(y)) => Ok(Const::ConstI64(x.wrapping_mul(y))),
        (Const::ConstI128(x), Const::ConstI128(y)) => Ok(Const::ConstI128(x.wrapping_mul(y))),
        _ => Err(OpError::Unsupported),
    }
}

/// Truncating integer division; division by zero and overflowing
/// division are reported as unsupported.
pub open spec fn spec_div(a: Const, b: Const) -> Result<Const, OpError> {
    match (a, b) {
        (Const::ConstU8(x), Const::ConstU8(y)) => match x.checked_div(y) {
            Some(v) => Ok(Const::ConstU8(v)),
            None => Err(OpError::Unsupported),
        },
        (Const::ConstU16(x), Const::ConstU16(y)) => match x.checked_div(y) {
            Some(v) => Ok(Const::ConstU16(v)),
            None => Err(OpError::Unsupported),
        },
        (Const::ConstU32(x), Const::ConstU32(y)) => match x.checked_div(y) {
            Some(v) => Ok(Const::ConstU32(v)),
            None => Err(OpError::Unsupported),
        },
        (Const::ConstU64(x), Const::ConstU64(y)) => match x.checked_div(y) {
            Some(v) => Ok(Const::ConstU64(v)),
            None => Err(OpError::Unsupported),
        },
        (Const::ConstU128(x), Const::ConstU128(y)) => match x.checked_div(y) {
            Some(v) => Ok(Const::ConstU128(v)),
            None => Err(OpError::Unsupported),
        },
        (Const::ConstI8(x), Const::ConstI8(y)) => match x.checked_div(y) {
            Some(v) => Ok(Const::ConstI8(v)),
            None => Err(OpError::Unsupported),
        },
        (Const::ConstI16(x), Const::ConstI16(y)) => match x.checked_div(y) {
            Some(v) => Ok(Const::ConstI16(v)),
            None => Err(OpError::Unsupported),
        },
        (Const::ConstI32(x), Const::ConstI32(y)) => match x.checked_div(y) {
            Some(v) => Ok(Const::ConstI32(v)),
            None => Err(OpError::Unsupported),
        },
        (Const::ConstI64(x), Const::ConstI64(y)) => match x.checked_div(y) {
            Some(v) => Ok(Const::ConstI64(v)),
            None => Err(OpError::Unsupported),
        },
        (Const::ConstI128(x), Const::ConstI128(y)) => match x.checked_div(y) {
            Some(v) => Ok(Const::ConstI128(v)),
            None => Err(OpError::Unsupported),
        },
        _ => Err(OpError::Unsupported),
    }
}

/// Truncating integer remainder; a zero divisor and the overflowing
/// pair are reported as unsupported.
pub open spec fn spec_rem(a: Const, b: Const) -> Result<Const, OpError> {
    match (a, b) {
        (Const::ConstU8(x), Const::ConstU8(y)) => match x.checked_rem(y) {
            Some(v) => Ok(Const::ConstU8(v)),
            None => Err(OpError::Unsupported),
        },
        (Const::ConstU16(x), Const::ConstU16(y)) => match x.checked_rem(y) {
            Some(v) => Ok(Const::ConstU16(v)),
            None => Err(OpError::Unsupported),
        },
        (Const::ConstU32(x), Const::ConstU32(y)) => match x.checked_rem(y) {
            Some(v) => Ok(Const::ConstU32(v)),
            None => Err(OpError::Unsupported),
        },
        (Const::ConstU64(x), Const::ConstU64(y)) => match x.checked_rem(y) {
            Some(v) => Ok(Const::ConstU64(v)),
            None => Err(OpError::Unsupported),
        },
        (Const::ConstU128(x), Const::ConstU128(y)) => match x.checked_rem(y) {
            Some(v) => Ok(Const::ConstU128(v)),
            None => Err(OpError::Unsupported),
        },
        (Const::ConstI8(x), Const::ConstI8(y)) => match x.checked_rem(y) {
            Some(v) => Ok(Const::ConstI8(v)),
            None => Err(OpError::Unsupported),
        },
        (Const::ConstI16(x), Const::ConstI16(y)) => match x.checked_rem(y) {
            Some(v) => Ok(Const::ConstI16(v)),
            None => Err(OpError::Unsupported),
        },
        (Const::ConstI32(x), Const::ConstI32(y)) => match x.checked_rem(y) {
            Some(v) => Ok(Const::ConstI32(v)),
            None => Err(OpError::Unsupported),
        },
        (Const::ConstI64(x), Const::ConstI64(y)) => match x.checked_rem(y) {
            Some(v) => Ok(Const::ConstI64(v)),
            None => Err(OpError::Unsupported),
        },
        (Const::ConstI128(x), Const::ConstI128(y)) => match x.checked_rem(y) {
            Some(v) => Ok(Const::ConstI128(v)),
            None => Err(OpError::Unsupported),
        },
        _ => Err(OpError::Unsupported),
    }
}

/// The smaller of two matching numeric constants (floats at the bit
/// level, taking the other operand when one side is NaN).
pub open spec fn spec_min(a: Const, b: Const) -> Result<Const, OpError> {
    match (a, b) {
        (Const::ConstU8(x), Const::ConstU8(y)) => Ok(Const::ConstU8(if x <= y { x } else { y })),
        (Const::ConstU16(x), Const::ConstU16(y)) => Ok(Const::ConstU16(if x <= y { x } else { y })),
        (Const::ConstU32(x), Const::ConstU32(y)) => Ok(Const::ConstU32(if x <= y { x } else { y })),
        (Const::ConstU64(x), Const::ConstU64(y)) => Ok(Const::ConstU64(if x <= y { x } else { y })),
        (Const::ConstU128(x), Const::ConstU128(y)) => Ok(Const::ConstU128(if x <= y { x } else { y })),
        (Const::ConstI8(x), Const::ConstI8(y)) => Ok(Const::ConstI8(if x <= y { x } else { y })),
        (Const::ConstI16(x), Const::ConstI16(y)) => Ok(Const::ConstI16(if x <= y { x } else { y })),
        (Const::ConstI32(x), Const::ConstI32(y)) => Ok(Const::ConstI32(if x <= y { x } else { y })),
        (Const::ConstI64(x), Const::ConstI64(y)) => Ok(Const::ConstI64(if x <= y { x } else { y })),
        (Const::ConstI128(x), Const::ConstI128(y)) => Ok(Const::ConstI128(if x <= y { x } else { y })),
        (Const::ConstF32(x), Const::ConstF32(y)) => Ok(Const::ConstF32(spec_f32_min(x, y))),
        (Const::ConstF64(x), Const::ConstF64(y)) => Ok(Const::ConstF64(spec_f64_min(x, y))),
        _ => Err(OpError::Unsupported),
    }
}

/// The larger of two matching numeric constants, dual to `spec_min`.
pub open spec fn spec_max(a: Const, b: Const) -> Result<Const, OpError> {
    match (a, b) {
        (Const::ConstU8(x), Const::ConstU8(y)) => Ok(Const::ConstU8(if x >= y { x } else { y })),
        (Const::ConstU16(x), Const::ConstU16(y)) => Ok(Const::ConstU16(if x >= y { x } else { y })),
        (Const::ConstU32(x), Const::ConstU32(y)) => Ok(Const::ConstU32(if x >= y { x } else { y })),
        (Const::ConstU64(x), Const::ConstU64(y)) => Ok(Const::ConstU64(if x >= y { x } else { y })),
        (Const::ConstU128(x), Const::ConstU128(y)) => Ok(Const::ConstU128(if x >= y { x } else { y })),
        (Const::ConstI8(x), Const::ConstI8(y)) => Ok(Const::ConstI8(if x >= y { x } else { y })),
        (Const::ConstI16(x), Const::ConstI16(y)) => Ok(Const::ConstI16(if x >= y { x } else { y })),
        (Const::ConstI32(x), Const::ConstI32(y)) => Ok(Const::ConstI32(if x >= y { x } else { y })),
        (Const::ConstI64(x), Const::ConstI64(y)) => Ok(Const::ConstI64(if x >= y { x } else { y })),
        (Const::ConstI128(x), Const::ConstI128(y)) => Ok(Const::ConstI128(if x >= y { x } else { y })),
        (Const::ConstF32(x), Const::ConstF32(y)) => Ok(Const::ConstF32(spec_f32_max(x, y))),
        (Const::ConstF64(x), Const::ConstF64(y)) => Ok(Const::ConstF64(spec_f64_max(x, y))),
        _ => Err(OpError::Unsupported),
    }
}

/// Bitwise and on matching integer constants.
pub open spec fn spec_bitand(a: Const, b: Const) -> Result<Const, OpError> {
    match (a, b) {
        (Const::ConstU8(x), Const::ConstU8(y)) => Ok(Const::ConstU8(x & y)),
        (Const::ConstU16(x), Const::ConstU16(y)) => Ok(Const::ConstU16(x & y)),
        (Const::ConstU32(x), Const::ConstU32(y)) => Ok(Const::ConstU32(x & y)),
        (Const::ConstU64(x), Const::ConstU64(y)) => Ok(Const::ConstU64(x & y)),
        (Const::ConstU128(x), Const::ConstU128(y)) => Ok(Const::ConstU128(x & y)),
        (Const::ConstI8(x), Const::ConstI8(y)) => Ok(Const::ConstI8(x & y)),
        (Const::ConstI16(x), Const::ConstI16(y)) => Ok(Const::ConstI16(x & y)),
        (Const::ConstI32(x), Const::ConstI32(y)) => Ok(Const::ConstI32(x & y)),
        (Const::ConstI64(x), Const::ConstI64(y)) => Ok(Const::ConstI64(x & y)),
        (Const::ConstI128(x), Const::ConstI128(y)) => Ok(Const::ConstI128(x & y)),
        _ => Err(OpError::Unsupported),
    }
}

/// Bitwise or on matching integer constants.
pub open spec fn spec_bitor(a: Const, b: Const) -> Result<Const, OpError> {
    match (a, b) {
        (Const::ConstU8(x), Const::ConstU8(y)) => Ok(Const::ConstU8(x | y)),
        (Const::ConstU16(x), Const::ConstU16(y)) => Ok(Const::ConstU16(x | y)),
        (Const::ConstU32(x), Const::ConstU32(y)) => Ok(Const::ConstU32(x | y)),
        (Const::ConstU64(x), Const::ConstU64(y)) => Ok(Const::ConstU64(x | y)),
        (Const::ConstU128(x), Const::ConstU128(y)) => Ok(Const::ConstU128(x | y)),
        (Const::ConstI8(x), Const::ConstI8(y)) => Ok(Const::ConstI8(x | y)),
        (Const::ConstI16(x), Const::ConstI16(y)) => Ok(Const::ConstI16(x | y)),
        (Const::ConstI32(x), Const::ConstI32(y)) => Ok(Const::ConstI32(x | y)),
        (Const::ConstI64(x), Const::ConstI64(y)) => Ok(Const::ConstI64(x | y)),
        (Const::ConstI128(x), Const::ConstI128(y)) => Ok(Const::ConstI128(x | y)),
        _ => Err(OpError::Unsupported),
    }
}

/// Bitwise xor on matching integer constants.
pub open spec fn spec_bitxor(a: Const, b: Const) -> Result<Const, OpError> {
    match (a, b) {
        (Const::ConstU8(x), Const::ConstU8(y)) => Ok(Const::ConstU8(x ^ y)),
        (Const::ConstU16(x), Const::ConstU16(y)) => Ok(Const::ConstU16(x ^ y)),
        (Const::ConstU32(x), Const::ConstU32(y)) => Ok(Const::ConstU32(x ^ y)),
        (Const::ConstU64(x), Const::ConstU64(y)) => Ok(Const::ConstU64(x ^ y)),
        (Const::ConstU128(x), Const::ConstU128(y)) => Ok(Const::ConstU128(x ^ y)),
        (Const::ConstI8(x), Const::ConstI8(y)) => Ok(Const::ConstI8(x ^ y)),
        (Const::ConstI16(x), Const::ConstI16(y)) => Ok(Const::ConstI16(x ^ y)),
        (Const::ConstI32(x), Const::ConstI32(y)) => Ok(Const::ConstI32(x ^ y)),
        (Const::ConstI64(x), Const::ConstI64(y)) => Ok(Const::ConstI64(x ^ y)),
        (Const::ConstI128(x), Const::ConstI128(y)) => Ok(Const::ConstI128(x ^ y)),
        _ => Err(OpError::Unsupported),
    }
}

/// Strict order on two matching numeric constants; floats follow
/// IEEE-754 (false when either side is NaN).
pub open spec fn spec_elem_lt(a: Const, b: Const) -> bool {
    match (a, b) {
        (Const::ConstU8(x), Const::ConstU8(y)) => x < y,
        (Const::ConstU16(x), Const::ConstU16(y)) => x < y,
        (Const::ConstU32(x), Const::ConstU32(y)) => x < y,
        (Const::ConstU64(x), Const::ConstU64(y)) => x < y,
        (Const::ConstU128(x), Const::ConstU128(y)) => x < y,
        (Const::ConstI8(x), Const::ConstI8(y)) => x < y,
        (Const::ConstI16(x), Const::ConstI16(y)) => x < y,
        (Const::ConstI32(x), Const::ConstI32(y)) => x < y,
        (Const::ConstI64(x), Const::ConstI64(y)) => x < y,
        (Const::ConstI128(x), Const::ConstI128(y)) => x < y,
        (Const::ConstF32(x), Const::ConstF32(y)) => spec_f32_lt(x, y),
        (Const::ConstF64(x), Const::ConstF64(y)) => spec_f64_lt(x, y),
        _ => false,
    }
}

/// Equality of two matching numeric constants; floats follow IEEE-754
/// (NaN is unequal to everything, the two zeros are equal).
pub open spec fn spec_elem_eq(a: Const, b: Const) -> bool {
    match (a, b) {
        (Const::ConstU8(x), Const::ConstU8(y)) => x == y,
        (Const::ConstU16(x), Const::ConstU16(y)) => x == y,
        (Const::ConstU32(x), Const::ConstU32(y)) => x == y,
        (Const::ConstU64(x), Const::ConstU64(y)) => x == y,
        (Const::ConstU128(x), Const::ConstU128(y)) => x == y,
        (Const::ConstI8(x), Const::ConstI8(y)) => x == y,
        (Const::ConstI16(x), Const::ConstI16(y)) => x == y,
        (Const::ConstI32(x), Const::ConstI32(y)) => x == y,
        (Const::ConstI64(x), Const::ConstI64(y)) => x == y,
        (Const::ConstI128(x), Const::ConstI128(y)) => x == y,
        (Const::ConstF32(x), Const::ConstF32(y)) => spec_f32_eq(x, y),
        (Const::ConstF64(x), Const::ConstF64(y)) => spec_f64_eq(x, y),
        _ => false,
    }
}

/// Wrapping negation of signed integers; sign-bit flip of floats.
pub open spec fn spec_neg(a: Const) -> Result<Const, OpError> {
    match a {
        Const::ConstI8(x) => Ok(Const::ConstI8((0 as i8).wrapping_sub(x))),
        Const::ConstI16(x) => Ok(Const::ConstI16((0 as i16).wrapping_sub(x))),
        Const::ConstI32(x) => Ok(Const::ConstI32((0 as i32).wrapping_sub(x))),
        Const::ConstI64(x) => Ok(Const::ConstI64((0 as i64).wrapping_sub(x))),
        Const::ConstI128(x) => Ok(Const::ConstI128((0 as i128).wrapping_sub(x))),
        Const::ConstF32(x) => Ok(Const::ConstF32(spec_f32_neg(x))),
        Const::ConstF64(x) => Ok(Const::ConstF64(spec_f64_neg(x))),
        _ => Err(OpError::Unsupported),
    }
}

/// Bitwise complement of an integer: in two's complement, `MAX - x` for
/// unsigned types and `-1 - x` for signed ones.
pub open spec fn spec_not(a: Const) -> Result<Const, OpError> {
    match a {
        Const::ConstU8(x) => Ok(Const::ConstU8((u8::MAX - x) as u8)),
        Const::ConstU16(x) => Ok(Const::ConstU16((u16::MAX - x) as u16)),
        Const::ConstU32(x) => Ok(Const::ConstU32((u32::MAX - x) as u32)),
        Const::ConstU64(x) => Ok(Const::ConstU64((u64::MAX - x) as u64)),
        Const::ConstU128(x) => Ok(Const::ConstU128((u128::MAX - x) as u128)),
        Const::ConstI8(x) => Ok(Const::ConstI8((-1 - x) as i8)),
        Const::ConstI16(x) => Ok(Const::ConstI16((-1 - x) as i16)),
        Const::ConstI32(x) => Ok(Const::ConstI32((-1 - x) as i32)),
        Const::ConstI64(x) => Ok(Const::ConstI64((-1 - x) as i64)),
        Const::ConstI128(x) => Ok(Const::ConstI128((-1 - x) as i128)),
        _ => Err(OpError::Unsupported),
    }
}

/// Absolute value of a float: the sign bit cleared.
pub open spec fn spec_abs(a: Const) -> Result<Const, OpError> {
    match a {
        Const::ConstF32(x) => Ok(Const::ConstF32(spec_f32_abs(x))),
        Const::ConstF64(x) => Ok(Const::ConstF64(spec_f64_abs(x))),
        _ => Err(OpError::Unsupported),
    }
}

/// True of the integer division pairs whose result is defined: the
/// divisor is non-zero and, for signed types, the pair is not
/// `(MIN, -1)`.  Irrelevant for non-integer pairs.
pub open spec fn spec_div_values_ok(a: Const, b: Const) -> bool {
    match (a, b) {
        (Const::ConstU8(_), Const::ConstU8(y)) => y != 0,
        (Const::ConstU16(_), Const::ConstU16(y)) => y != 0,
        (Const::ConstU32(_), Const::ConstU32(y)) => y != 0,
        (Const::ConstU64(_), Const::ConstU64(y)) => y != 0,
        (Const::ConstU128(_), Const::ConstU128(y)) => y != 0,
        (Const::ConstI8(x), Const::ConstI8(y)) => y != 0 && !(x == i8::MIN && y == -1),
        (Const::ConstI16(x), Const::ConstI16(y)) => y != 0 && !(x == i16::MIN && y == -1),
        (Const::ConstI32(x), Const::ConstI32(y)) => y != 0 && !(x == i32::MIN && y == -1),
        (Const::ConstI64(x), Const::ConstI64(y)) => y != 0 && !(x == i64::MIN && y == -1),
        (Const::ConstI128(x), Const::ConstI128(y)) => y != 0 && !(x == i128::MIN && y == -1),
        _ => true,
    }
}

/// The value-level side condition of a binary value opcode: division and
/// remainder need `spec_div_values_ok`.
pub open spec fn spec_val_binop_values_ok(op: ValBinOpCode, a: Const, b: Const) -> bool {
    (op == ValBinOpCode::Div || op == ValBinOpCode::Rem) ==> spec_div_values_ok(a, b)
}

/// One application of a binary value opcode to two scalars: unsupported
/// unless the types match and the support matrix allows the combination,
/// otherwise the scalar operation of `op`.
pub open spec fn spec_val_binop(op: ValBinOpCode, a: Const, b: Const) -> Result<Const, OpError> {
    if a.spec_ty() != b.spec_ty() || !spec_val_binop_supported(op, a.spec_ty()) {
        Err(OpError::Unsupported)
    } else {
        match op {
            ValBinOpCode::Add => spec_add(a, b),
            ValBinOpCode::Sub => spec_sub(a, b),
            ValBinOpCode::Mul => spec_mul(a, b),
            ValBinOpCode::Div => spec_div(a, b),
            ValBinOpCode::Rem => spec_rem(a, b),
            ValBinOpCode::Min => spec_min(a, b),
            ValBinOpCode::Max => spec_max(a, b),
            ValBinOpCode::Pow => Err(OpError::Unsupported),
            ValBinOpCode::BitAnd => spec_bitand(a, b),
            ValBinOpCode::BitOr => spec_bitor(a, b),
            ValBinOpCode::BitXor => spec_bitxor(a, b),
        }
    }
}

/// One application of a binary predicate opcode: unsupported unless the
/// types match and are numeric, otherwise the comparison, derived from
/// the strict order and the equality of the two scalars.
pub open spec fn spec_bool_binop(op: BoolBinOpCode, a: Const, b: Const) -> Result<Const, OpError> {
    if a.spec_ty() != b.spec_ty() || !spec_bool_binop_supported(op, a.spec_ty()) {
        Err(OpError::Unsupported)
    } else {
        let ltv = spec_elem_lt(a, b);
        let eqv = spec_elem_eq(a, b);
        let gtv = spec_elem_lt(b, a);
        Ok(Const::ConstBool(match op {
            BoolBinOpCode::Lt => ltv,
            BoolBinOpCode::Le => ltv || eqv,
            BoolBinOpCode::Eq => eqv,
            BoolBinOpCode::Ne => !eqv,
            BoolBinOpCode::Ge => gtv || eqv,
            BoolBinOpCode::Gt => gtv,
        }))
    }
}

/// One application of a unary value opcode.
pub open spec fn spec_val_unop(op: ValUnOpCode, a: Const) -> Result<Const, OpError> {
    if !spec_val_unop_supported(op, a.spec_ty()) {
        Err(OpError::Unsupported)
    } else {
        match op {
            ValUnOpCode::Neg => spec_neg(a),
            ValUnOpCode::BitNot => spec_not(a),
            ValUnOpCode::Abs => spec_abs(a),
            _ => Err(OpError::Unsupported),
        }
    }
}

/// One application of a unary predicate opcode: the IEEE-754
/// classification of a float.
pub open spec fn spec_bool_unop(op: BoolUnOpCode, a: Const) -> Result<Const, OpError> {
    if !spec_bool_unop_supported(op, a.spec_ty()) {
        Err(OpError::Unsupported)
    } else {
        match (op, a) {
            (BoolUnOpCode::IsNaN, Const::ConstF32(x)) => Ok(Const::ConstBool(spec_f32_is_nan(x))),
            (BoolUnOpCode::IsNaN, Const::ConstF64(x)) => Ok(Const::ConstBool(spec_f64_is_nan(x))),
            (BoolUnOpCode::IsInf, Const::ConstF32(x)) => Ok(Const::ConstBool(spec_f32_is_inf(x))),
            (BoolUnOpCode::IsInf, Const::ConstF64(x)) => Ok(Const::ConstBool(spec_f64_is_inf(x))),
            (BoolUnOpCode::IsFin, Const::ConstF32(x)) => Ok(Const::ConstBool(spec_f32_is_fin(x))),
            (BoolUnOpCode::IsFin, Const::ConstF64(x)) => Ok(Const::ConstBool(spec_f64_is_fin(x))),
            _ => Err(OpError::Unsupported),
        }
    }
}

fn add_const(a: &Const, b: &Const) -> (r: Result<Const, OpError>)
    ensures
        r == spec_add(*a, *b),
{
    match (a, b) {
        (Const::ConstU8(x), Const::ConstU8(y)) => Ok(Const::ConstU8(x.wrapping_add(*y))),
        (Const::ConstU16(x), Const::ConstU16(y)) => Ok(Const::ConstU16(x.wrapping_add(*y))),
        (Const::ConstU32(x), Const::ConstU32(y)) => Ok(Const::ConstU32(x.wrapping_add(*y))),
        (Const::ConstU64(x), Const::ConstU64(y)) => Ok(Const::ConstU64(x.wrapping_add(*y))),
        (Const::ConstU128(x), Const::ConstU128(y)) => Ok(Const::ConstU128(x.wrapping_add(*y))),
        (Const::ConstI8(x), Const::ConstI8(y)) => Ok(Const::ConstI8(x.wrapping_add(*y))),
        (Const::ConstI16(x), Const::ConstI16(y)) => Ok(Const::ConstI16(x.wrapping_add(*y))),
        (Const::ConstI32(x), Const::ConstI32(y)) => Ok(Const::ConstI32(x.wrapping_add(*y))),
        (Const::ConstI64(x), Const::ConstI64(y)) => Ok(Const::ConstI64(x.wrapping_add(*y))),
        (Const::ConstI128(x), Const::ConstI128(y)) => Ok(Const::ConstI128(x.wrapping_add(*y))),
        _ => Err(OpError::Unsupported),
    }
}

fn sub_const(a: &Const, b: &Const) -> (r: Result<Const, OpError>)
    ensures
        r == spec_sub(*a, *b),
{
    match (a, b) {
        (Const::ConstU8(x), Const::ConstU8(y)) => Ok(Const::ConstU8(x.wrapping_sub(*y))),
        (Const::ConstU16(x), Const::ConstU16(y)) => Ok(Const::ConstU16(x.wrapping_sub(*y))),
        (Const::ConstU32(x), Const::ConstU32(y)) => Ok(Const::ConstU32(x.wrapping_sub(*y))),
        (Const::ConstU64(x), Const::ConstU64(y)) => Ok(Const::ConstU64(x.wrapping_sub(*y))),
        (Const::ConstU128(x), Const::ConstU128(y)) => Ok(Const::ConstU128(x.wrapping_sub(*y))),
        (Const::ConstI8(x), Const::ConstI8(y)) => Ok(Const::ConstI8(x.wrapping_sub(*y))),
        (Const::ConstI16(x), Const::ConstI16(y)) => Ok(Const::ConstI16(x.wrapping_sub(*y))),
        (Const::ConstI32(x), Const::ConstI32(y)) => Ok(Const::ConstI32(x.wrapping_sub(*y))),
        (Const::ConstI64(x), Const::ConstI64(y)) => Ok(Const::ConstI64(x.wrapping_sub(*y))),
        (Const::ConstI128(x), Const::ConstI128(y)) => Ok(Const::ConstI128(x.wrapping_sub(*y))),
        _ => Err(OpError::Unsupported),
    }
}

fn mul_const(a: &Const, b: &Const) -> (r: Result<Const, OpError>)
    ensures
        r == spec_mul(*a, *b),
{
    match (a, b) {
        (Const::ConstU8(x), Const::ConstU8(y)) => Ok(Const::ConstU8(x.wrapping_mul(*y))),
        (Const::ConstU16(x), Const::ConstU16(y)) => Ok(Const::ConstU16(x.wrapping_mul(*y))),
        (Const::ConstU32(x), Const::ConstU32(y)) => Ok(Const::ConstU32(x.wrapping_mul(*y))),
        (Const::ConstU64(x), Const::ConstU64(y)) => Ok(Const::ConstU64(x.wrapping_mul(*y))),
        (Const::ConstU128(x), Const::ConstU128(y)) => Ok(Const::ConstU128(x.wrapping_mul(*y))),
        (Const::ConstI8(x), Const::ConstI8(y)) => Ok(Const::ConstI8(x.wrapping_mul(*y))),
        (Const::ConstI16(x), Const::ConstI16(y)) => Ok(Const::ConstI16(x.wrapping_mul(*y))),
        (Const::ConstI32(x), Const::ConstI32(y)) => Ok(Const::ConstI32(x.wrapping_mul(*y))),
        (Const::ConstI64(x), Const::ConstI64(y)) => Ok(Const::ConstI64(x.wrapping_mul(*y))),
        (Const::ConstI128(x), Const::ConstI128(y)) => Ok(Const::ConstI128(x.wrapping_mul(*y))),
        _ => Err(OpError::Unsupported),
    }
}

fn div_const(a: &Const, b: &Const) -> (r: Result<Const, OpError>)
    ensures
        r == spec_div(*a, *b),
{
    match (a, b) {
        (Const::ConstU8(x), Const::ConstU8(y)) => match x.checked_div(*y) {
            Some(v) => Ok(Const::ConstU8(v)),
            None => Err(OpError::Unsupported),
        },
        (Const::ConstU16(x), Const::ConstU16(y)) => match x.checked_div(*y) {
            Some(v) => Ok(Const::ConstU16(v)),
            None => Err(OpError::Unsupported),
        },
        (Const::ConstU32(x), Const::ConstU32(y)) => match x.checked_div(*y) {
            Some(v) => Ok(Const::ConstU32(v)),
            None => Err(OpError::Unsupported),
        },
        (Const::ConstU64(x), Const::ConstU64(y)) => match x.checked_div(*y) {
            Some(v) => Ok(Const::ConstU64(v)),
            None => Err(OpError::Unsupported),
        },
        (Const::ConstU128(x), Const::ConstU128(y)) => match x.checked_div(*y) {
            Some(v) => Ok(Const::ConstU128(v)),
            None => Err(OpError::Unsupported),
        },
        (Const::ConstI8(x), Const::ConstI8(y)) => match x.checked_div(*y) {
            Some(v) => Ok(Const::ConstI8(v)),
            None => Err(OpError::Unsupported),
        },
        (Const::ConstI16(x), Const::ConstI16(y)) => match x.checked_div(*y) {
            Some(v) => Ok(Const::ConstI16(v)),
            None => Err(OpError::Unsupported),
        },
        (Const::ConstI32(x), Const::ConstI32(y)) => match x.checked_div(*y) {
            Some(v) => Ok(Const::ConstI32(v)),
            None => Err(OpError::Unsupported),
        },
        (Const::ConstI64(x), Const::ConstI64(y)) => match x.checked_div(*y) {
            Some(v) => Ok(Const::ConstI64(v)),
            None => Err(OpError::Unsupported),
        },
        (Const::ConstI128(x), Const::ConstI128(y)) => match x.checked_div(*y) {
            Some(v) => Ok(Const::ConstI128(v)),
            None => Err(OpError::Unsupported),
        },
        _ => Err(OpError::Unsupported),
    }
}

fn rem_const(a: &Const, b: &Const) -> (r: Result<Const, OpError>)
    ensures
        r == spec_rem(*a, *b),
{
    match (a, b) {
        (Const::ConstU8(x), Const::ConstU8(y)) => match x.checked_rem(*y) {
            Some(v) => Ok(Const::ConstU8(v)),
            None => Err(OpError::Unsupported),
        },
        (Const::ConstU16(x), Const::ConstU16(y)) => match x.checked_rem(*y) {
            Some(v) => Ok(Const::ConstU16(v)),
            None => Err(OpError::Unsupported),
        },
        (Const::ConstU32(x), Const::ConstU32(y)) => match x.checked_rem(*y) {
            Some(v) => Ok(Const::ConstU32(v)),
            None => Err(OpError::Unsupported),
        },
        (Const::ConstU64(x), Const::ConstU64(y)) => match x.checked_rem(*y) {
            Some(v) => Ok(Const::ConstU64(v)),
            None => Err(OpError::Unsupported),
        },
        (Const::ConstU128(x), Const::ConstU128(y)) => match x.checked_rem(*y) {
            Some(v) => Ok(Const::ConstU128(v)),
            None => Err(OpError::Unsupported),
        },
        (Const::ConstI8(x), Const::ConstI8(y)) => match x.checked_rem(*y) {
            Some(v) => Ok(Const::ConstI8(v)),
            None => Err(OpError::Unsupported),
        },
        (Const::ConstI16(x), Const::ConstI16(y)) => match x.checked_rem(*y) {
            Some(v) => Ok(Const::ConstI16(v)),
            None => Err(OpError::Unsupported),
        },
        (Const::ConstI32(x), Const::ConstI32(y)) => match x.checked_rem(*y) {
            Some(v) => Ok(Const::ConstI32(v)),
            None => Err(OpError::Unsupported),
        },
        (Const::ConstI64(x), Const::ConstI64(y)) => match x.checked_rem(*y) {
            Some(v) => Ok(Const::ConstI64(v)),
            None => Err(OpError::Unsupported),
        },
        (Const::ConstI128(x), Const::ConstI128(y)) => match x.checked_rem(*y) {
            Some(v) => Ok(Const::ConstI128(v)),
            None => Err(OpError::Unsupported),
        },
        _ => Err(OpError::Unsupported),
    }
}

fn min_const(a: &Const, b: &Const) -> (r: Result<Const, OpError>)
    ensures
        r == spec_min(*a, *b),
{
    match (a, b) {
        (Const::ConstU8(x), Const::ConstU8(y)) => Ok(Const::ConstU8(if *x <= *y { *x } else { *y })),
        (Const::ConstU16(x), Const::ConstU16(y)) => Ok(Const::ConstU16(if *x <= *y { *x } else { *y })),
        (Const::ConstU32(x), Const::ConstU32(y)) => Ok(Const::ConstU32(if *x <= *y { *x } else { *y })),
        (Const::ConstU64(x), Const::ConstU64(y)) => Ok(Const::ConstU64(if *x <= *y { *x } else { *y })),
        (Const::ConstU128(x), Const::ConstU128(y)) => Ok(Const::ConstU128(if *x <= *y { *x } else { *y })),
        (Const::ConstI8(x), Const::ConstI8(y)) => Ok(Const::ConstI8(if *x <= *y { *x } else { *y })),
        (Const::ConstI16(x), Const::ConstI16(y)) => Ok(Const::ConstI16(if *x <= *y { *x } else { *y })),
        (Const::ConstI32(x), Const::ConstI32(y)) => Ok(Const::ConstI32(if *x <= *y { *x } else { *y })),
        (Const::ConstI64(x), Const::ConstI64(y)) => Ok(Const::ConstI64(if *x <= *y { *x } else { *y })),
        (Const::ConstI128(x), Const::ConstI128(y)) => Ok(Const::ConstI128(if *x <= *y { *x } else { *y })),
        (Const::ConstF32(x), Const::ConstF32(y)) => Ok(Const::ConstF32(f32_min(*x, *y))),
        (Const::ConstF64(x), Const::ConstF64(y)) => Ok(Const::ConstF64(f64_min(*x, *y))),
        _ => Err(OpError::Unsupported),
    }
}

fn max_const(a: &Const, b: &Const) -> (r: Result<Const, OpError>)
    ensures
        r == spec_max(*a, *b),
{
    match (a, b) {
        (Const::ConstU8(x), Const::ConstU8(y)) => Ok(Const::ConstU8(if *x >= *y { *x } else { *y })),
        (Const::ConstU16(x), Const::ConstU16(y)) => Ok(Const::ConstU16(if *x >= *y { *x } else { *y })),
        (Const::ConstU32(x), Const::ConstU32(y)) => Ok(Const::ConstU32(if *x >= *y { *x } else { *y })),
        (Const::ConstU64(x), Const::ConstU64(y)) => Ok(Const::ConstU64(if *x >= *y { *x } else { *y })),
        (Const::ConstU128(x), Const::ConstU128(y)) => Ok(Const::ConstU128(if *x >= *y { *x } else { *y })),
        (Const::ConstI8(x), Const::ConstI8(y)) => Ok(Const::ConstI8(if *x >= *y { *x } else { *y })),
        (Const::ConstI16(x), Const::ConstI16(y)) => Ok(Const::ConstI16(if *x >= *y { *x } else { *y })),
        (Const::ConstI32(x), Const::ConstI32(y)) => Ok(Const::ConstI32(if *x >= *y { *x } else { *y })),
        (Const::ConstI64(x), Const::ConstI64(y)) => Ok(Const::ConstI64(if *x >= *y { *x } else { *y })),
        (Const::ConstI128(x), Const::ConstI128(y)) => Ok(Const::ConstI128(if *x >= *y { *x } else { *y })),
        (Const::ConstF32(x), Const::ConstF32(y)) => Ok(Const::ConstF32(f32_max(*x, *y))),
        (Const::ConstF64(x), Const::ConstF64(y)) => Ok(Const::ConstF64(f64_max(*x, *y))),
        _ => Err(OpError::Unsupported),
    }
}

fn bitand_const(a: &Const, b: &Const) -> (r: Result<Const, OpError>)
    ensures
        r == spec_bitand(*a, *b),
{
    match (a, b) {
        (Const::ConstU8(x), Const::ConstU8(y)) => Ok(Const::ConstU8(*x & *y)),
        (Const::ConstU16(x), Const::ConstU16(y)) => Ok(Const::ConstU16(*x & *y)),
        (Const::ConstU32(x), Const::ConstU32(y)) => Ok(Const::ConstU32(*x & *y)),
        (Const::ConstU64(x), Const::ConstU64(y)) => Ok(Const::ConstU64(*x & *y)),
        (Const::ConstU128(x), Const::ConstU128(y)) => Ok(Const::ConstU128(*x & *y)),
        (Const::ConstI8(x), Const::ConstI8(y)) => Ok(Const::ConstI8(*x & *y)),
        (Const::ConstI16(x), Const::ConstI16(y)) => Ok(Const::ConstI16(*x & *y)),
        (Const::ConstI32(x), Const::ConstI32(y)) => Ok(Const::ConstI32(*x & *y)),
        (Const::ConstI64(x), Const::ConstI64(y)) => Ok(Const::ConstI64(*x & *y)),
        (Const::ConstI128(x), Const::ConstI128(y)) => Ok(Const::ConstI128(*x & *y)),
        _ => Err(OpError::Unsupported),
    }
}

fn bitor_const(a: &Const, b: &Const) -> (r: Result<Const, OpError>)
    ensures
        r == spec_bitor(*a, *b),
{
    match (a, b) {
        (Const::ConstU8(x), Const::ConstU8(y)) => Ok(Const::ConstU8(*x | *y)),
        (Const::ConstU16(x), Const::ConstU16(y)) => Ok(Const::ConstU16(*x | *y)),
        (Const::ConstU32(x), Const::ConstU32(y)) => Ok(Const::ConstU32(*x | *y)),
        (Const::ConstU64(x), Const::ConstU64(y)) => Ok(Const::ConstU64(*x | *y)),
        (Const::ConstU128(x), Const::ConstU128(y)) => Ok(Const::ConstU128(*x | *y)),
        (Const::ConstI8(x), Const::ConstI8(y)) => Ok(Const::ConstI8(*x | *y)),
        (Const::ConstI16(x), Const::ConstI16(y)) => Ok(Const::ConstI16(*x | *y)),
        (Const::ConstI32(x), Const::ConstI32(y)) => Ok(Const::ConstI32(*x | *y)),
        (Const::ConstI64(x), Const::ConstI64(y)) => Ok(Const::ConstI64(*x | *y)),
        (Const::ConstI128(x), Const::ConstI128(y)) => Ok(Const::ConstI128(*x | *y)),
        _ => Err(OpError::Unsupported),
    }
}

fn bitxor_const(a: &Const, b: &Const) -> (r: Result<Const, OpError>)
    ensures
        r == spec_bitxor(*a, *b),
{
    match (a, b) {
        (Const::ConstU8(x), Const::ConstU8(y)) => Ok(Const::ConstU8(*x ^ *y)),
        (Const::ConstU16(x), Const::ConstU16(y)) => Ok(Const::ConstU16(*x ^ *y)),
        (Const::ConstU32(x), Const::ConstU32(y)) => Ok(Const::ConstU32(*x ^ *y)),
        (Const::ConstU64(x), Const::ConstU64(y)) => Ok(Const::ConstU64(*x ^ *y)),
        (Const::ConstU128(x), Const::ConstU128(y)) => Ok(Const::ConstU128(*x ^ *y)),
        (Const::ConstI8(x), Const::ConstI8(y)) => Ok(Const::ConstI8(*x ^ *y)),
        (Const::ConstI16(x), Const::ConstI16(y)) => Ok(Const::ConstI16(*x ^ *y)),
        (Const::ConstI32(x), Const::ConstI32(y)) => Ok(Const::ConstI32(*x ^ *y)),
        (Const::ConstI64(x), Const::ConstI64(y)) => Ok(Const::ConstI64(*x ^ *y)),
        (Const::ConstI128(x), Const::ConstI128(y)) => Ok(Const::ConstI128(*x ^ *y)),
        _ => Err(OpError::Unsupported),
    }
}

fn elem_lt(a: &Const, b: &Const) -> (r: bool)
    ensures
        r == spec_elem_lt(*a, *b),
{
    match (a, b) {
        (Const::ConstU8(x), Const::ConstU8(y)) => *x < *y,
        (Const::ConstU16(x), Const::ConstU16(y)) => *x < *y,
        (Const::ConstU32(x), Const::ConstU32(y)) => *x < *y,
        (Const::ConstU64(x), Const::ConstU64(y)) => *x < *y,
        (Const::ConstU128(x), Const::ConstU128(y)) => *x < *y,
        (Const::ConstI8(x), Const::ConstI8(y)) => *x < *y,
        (Const::ConstI16(x), Const::ConstI16(y)) => *x < *y,
        (Const::ConstI32(x), Const::ConstI32(y)) => *x < *y,
        (Const::ConstI64(x), Const::ConstI64(y)) => *x < *y,
        (Const::ConstI128(x), Const::ConstI128(y)) => *x < *y,
        (Const::ConstF32(x), Const::ConstF32(y)) => !f32_is_nan(*x) && !f32_is_nan(*y)
            && f32_key_lt(*x, *y),
        (Const::ConstF64(x), Const::ConstF64(y)) => !f64_is_nan(*x) && !f64_is_nan(*y)
            && f64_key_lt(*x, *y),
        _ => false,
    }
}

fn elem_eq(a: &Const, b: &Const) -> (r: bool)
    ensures
        r == spec_elem_eq(*a, *b),
{
    match (a, b) {
        (Const::ConstU8(x), Const::ConstU8(y)) => *x == *y,
        (Const::ConstU16(x), Const::ConstU16(y)) => *x == *y,
        (Const::ConstU32(x), Const::ConstU32(y)) => *x == *y,
        (Const::ConstU64(x), Const::ConstU64(y)) => *x == *y,
        (Const::ConstU128(x), Const::ConstU128(y)) => *x == *y,
        (Const::ConstI8(x), Const::ConstI8(y)) => *x == *y,
        (Const::ConstI16(x), Const::ConstI16(y)) => *x == *y,
        (Const::ConstI32(x), Const::ConstI32(y)) => *x == *y,
        (Const::ConstI64(x), Const::ConstI64(y)) => *x == *y,
        (Const::ConstI128(x), Const::ConstI128(y)) => *x == *y,
        (Const::ConstF32(x), Const::ConstF32(y)) => !f32_is_nan(*x) && !f32_is_nan(*y)
            && f32_key_eq(*x, *y),
        (Const::ConstF64(x), Const::ConstF64(y)) => !f64_is_nan(*x) && !f64_is_nan(*y)
            && f64_key_eq(*x, *y),
        _ => false,
    }
}

fn neg_const(a: &Const) -> (r: Result<Const, OpError>)
    ensures
        r == spec_neg(*a),
{
    match a {
        Const::ConstI8(x) => Ok(Const::ConstI8((0 as i8).wrapping_sub(*x))),
        Const::ConstI16(x) => Ok(Const::ConstI16((0 as i16).wrapping_sub(*x))),
        Const::ConstI32(x) => Ok(Const::ConstI32((0 as i32).wrapping_sub(*x))),
        Const::ConstI64(x) => Ok(Const::ConstI64((0 as i64).wrapping_sub(*x))),
        Const::ConstI128(x) => Ok(Const::ConstI128((0 as i128).wrapping_sub(*x))),
        Const::ConstF32(x) => Ok(Const::ConstF32(f32_neg(*x))),
        Const::ConstF64(x) => Ok(Const::ConstF64(f64_neg(*x))),
        _ => Err(OpError::Unsupported),
    }
}

fn not_const(a: &Const) -> (r: Result<Const, OpError>)
    ensures
        r == spec_not(*a),
{
    match a {
        Const::ConstU8(x) => Ok(Const::ConstU8(u8::MAX - *x)),
        Const::ConstU16(x) => Ok(Const::ConstU16(u16::MAX - *x)),
        Const::ConstU32(x) => Ok(Const::ConstU32(u32::MAX - *x)),
        Const::ConstU64(x) => Ok(Const::ConstU64(u64::MAX - *x)),
        Const::ConstU128(x) => Ok(Const::ConstU128(u128::MAX - *x)),
        Const::ConstI8(x) => Ok(Const::ConstI8(-1 - *x)),
        Const::ConstI16(x) => Ok(Const::ConstI16(-1 - *x)),
        Const::ConstI32(x) => Ok(Const::ConstI32(-1 - *x)),
        Const::ConstI64(x) => Ok(Const::ConstI64(-1 - *x)),
        Const::ConstI128(x) => Ok(Const::ConstI128(-1 - *x)),
        _ => Err(OpError::Unsupported),
    }
}

fn abs_const(a: &Const) -> (r: Result<Const, OpError>)
    ensures
        r == spec_abs(*a),
{
    match a {
        Const::ConstF32(x) => Ok(Const::ConstF32(f32_mag(*x))),
        Const::ConstF64(x) => Ok(Const::ConstF64(f64_mag(*x))),
        _ => Err(OpError::Unsupported),
    }
}

/// Applies a binary value opcode to two scalars, as `spec_val_binop`
/// states.
pub fn val_binop_const(op: ValBinOpCode, a: &Const, b: &Const) -> (r: Result<Const, OpError>)
    ensures
        r == spec_val_binop(op, *a, *b),
{
    if a.get_scalar_ty() != b.get_scalar_ty() || !val_binop_supported(op, a.get_scalar_ty()) {
        return Err(OpError::Unsupported);
    }
    match op {
        ValBinOpCode::Add => add_const(a, b),
        ValBinOpCode::Sub => sub_const(a, b),
        ValBinOpCode::Mul => mul_const(a, b),
        ValBinOpCode::Div => div_const(a, b),
        ValBinOpCode::Rem => rem_const(a, b),
        ValBinOpCode::Min => min_const(a, b),
        ValBinOpCode::Max => max_const(a, b),
        ValBinOpCode::Pow => Err(OpError::Unsupported),
        ValBinOpCode::BitAnd => bitand_const(a, b),
        ValBinOpCode::BitOr => bitor_const(a, b),
        ValBinOpCode::BitXor => bitxor_const(a, b),
    }
}

/// Applies a binary predicate opcode to two scalars, as `spec_bool_binop`
/// states.
pub fn bool_binop_const(op: BoolBinOpCode, a: &Const, b: &Const) -> (r: Result<Const, OpError>)
    ensures
        r == spec_bool_binop(op, *a, *b),
{
    if a.get_scalar_ty() != b.get_scalar_ty() || !bool_binop_supported(op, a.get_scalar_ty()) {
        return Err(OpError::Unsupported);
    }
    let ltv = elem_lt(a, b);
    let eqv = elem_eq(a, b);
    let gtv = elem_lt(b, a);
    Ok(Const::ConstBool(match op {
        BoolBinOpCode::Lt => ltv,
        BoolBinOpCode::Le => ltv || eqv,
        BoolBinOpCode::Eq => eqv,
        BoolBinOpCode::Ne => !eqv,
        BoolBinOpCode::Ge => gtv || eqv,
        BoolBinOpCode::Gt => gtv,
    }))
}

/// Applies a unary value opcode to a scalar, as `spec_val_unop` states.
pub fn val_unop_const(op: ValUnOpCode, a: &Const) -> (r: Result<Const, OpError>)
    ensures
        r == spec_val_unop(op, *a),
{
    if !val_unop_supported(op, a.get_scalar_ty()) {
        return Err(OpError::Unsupported);
    }
    match op {
        ValUnOpCode::Neg => neg_const(a),
        ValUnOpCode::BitNot => not_const(a),
        ValUnOpCode::Abs => abs_const(a),
        _ => Err(OpError::Unsupported),
    }
}

/// Applies a unary predicate opcode to a scalar, as `spec_bool_unop`
/// states.
pub fn bool_unop_const(op: BoolUnOpCode, a: &Const) -> (r: Result<Const, OpError>)
    ensures
        r == spec_bool_unop(op, *a),
{
    if !bool_unop_supported(op, a.get_scalar_ty()) {
        return Err(OpError::Unsupported);
    }
    match (op, a) {
        (BoolUnOpCode::IsNaN, Const::ConstF32(x)) => Ok(Const::ConstBool(f32_is_nan(*x))),
        (BoolUnOpCode::IsNaN, Const::ConstF64(x)) => Ok(Const::ConstBool(f64_is_nan(*x))),
        (BoolUnOpCode::IsInf, Const::ConstF32(x)) => Ok(Const::ConstBool(f32_is_inf(*x))),
        (BoolUnOpCode::IsInf, Const::ConstF64(x)) => Ok(Const::ConstBool(f64_is_inf(*x))),
        (BoolUnOpCode::IsFin, Const::ConstF32(x)) => Ok(Const::ConstBool(f32_is_fin(*x))),
        (BoolUnOpCode::IsFin, Const::ConstF64(x)) => Ok(Const::ConstBool(f64_is_fin(*x))),
        _ => {
            proof {
                lemma_const_ty_inversion(*a);
            }
            unreached()
        },
    }
}


/// Truncating division, the formula behind Rust's signed `checked_div`.
spec fn trunc_div_val(x: int, d: int) -> int {
    if x == 0 {
        0
    } else if x > 0 && d > 0 {
        x / d
    } else if x < 0 && d < 0 {
        (x * -1) / (d * -1)
    } else if x < 0 {
        ((x * -1) / d) * -1
    } else {
        (x / (d * -1)) * -1
    }
}

/// For operands of a signed type with minimum `-half`, truncating
/// division stays in range except for `MIN / -1`, which yields `half`.
proof fn lemma_trunc_div_range(x: int, d: int, half: int)
    requires
        half >= 2,
        -half <= x < half,
        -half <= d < half,
        d != 0,
    ensures
        !(x == -half && d == -1) ==> -half <= trunc_div_val(x, d) < half,
        (x == -half && d == -1) ==> trunc_div_val(x, d) == half,
{
    if x == 0 {
    } else if x > 0 && d > 0 {
        lemma_div_pos_is_pos(x, d);
        lemma_div_nonincreasing(x, d);
    } else if x < 0 && d < 0 {
        let p = x * -1;
        let n = d * -1;
        lemma_div_pos_is_pos(p, n);
        lemma_div_basics(p);
        if n >= 2 {
            lemma_div_is_ordered_by_denominator(p, 2, n);
            lemma_div_is_ordered(p, half, 2);
            lemma_div_is_strictly_smaller(half, 2);
        }
    } else if x < 0 {
        let p = x * -1;
        lemma_div_pos_is_pos(p, d);
        lemma_div_nonincreasing(p, d);
    } else {
        let n = d * -1;
        lemma_div_pos_is_pos(x, n);
        lemma_div_nonincreasing(x, n);
    }
}

/// Truncating remainder, the formula behind Rust's signed `checked_rem`,
/// always stays in range: its magnitude is below the divisor's.
proof fn lemma_trunc_rem_range(x: int, d: int, half: int)
    requires
        half >= 2,
        -half <= x < half,
        -half <= d < half,
        d != 0,
    ensures
        x > 0 && d > 0 ==> 0 <= x % d < half,
        x < 0 && d < 0 ==> -half < ((x * -1) % (d * -1)) * -1 <= 0,
        x < 0 && d > 0 ==> -half < ((x * -1) % d) * -1 <= 0,
        x > 0 && d < 0 ==> 0 <= x % (d * -1) < half,
{
    if x > 0 && d > 0 {
        lemma_mod_division_less_than_divisor(x, d);
    } else if x < 0 && d < 0 {
        lemma_mod_division_less_than_divisor(x * -1, d * -1);
    } else if x < 0 && d > 0 {
        lemma_mod_division_less_than_divisor(x * -1, d);
    } else if x > 0 && d < 0 {
        lemma_mod_division_less_than_divisor(x, d * -1);
    }
}

proof fn lemma_add_shape(a: Const, b: Const)
    ensures
        (spec_add(a, b) is Ok) == (a.spec_ty() == b.spec_ty() && {
            let t = a.spec_ty();
            t.spec_is_int()
        }),
        spec_add(a, b) matches Ok(v) ==> v.spec_ty() == a.spec_ty(),
{
    lemma_const_ty_inversion(a);
    lemma_const_ty_inversion(b);
}

proof fn lemma_sub_shape(a: Const, b: Const)
    ensures
        (spec_sub(a, b) is Ok) == (a.spec_ty() == b.spec_ty() && {
            let t = a.spec_ty();
            t.spec_is_int()
        }),
        spec_sub(a, b) matches Ok(v) ==> v.spec_ty() == a.spec_ty(),
{
    lemma_const_ty_inversion(a);
    lemma_const_ty_inversion(b);
}

proof fn lemma_mul_shape(a: Const, b: Const)
    ensures
        (spec_mul(a, b) is Ok) == (a.spec_ty() == b.spec_ty() && {
            let t = a.spec_ty();
            t.spec_is_int()
        }),
        spec_mul(a, b) matches Ok(v) ==> v.spec_ty() == a.spec_ty(),
{
    lemma_const_ty_inversion(a);
    lemma_const_ty_inversion(b);
}

proof fn lemma_bitand_shape(a: Const, b: Const)
    ensures
        (spec_bitand(a, b) is Ok) == (a.spec_ty() == b.spec_ty() && {
            let t = a.spec_ty();
            t.spec_is_int()
        }),
        spec_bitand(a, b) matches Ok(v) ==> v.spec_ty() == a.spec_ty(),
{
    lemma_const_ty_inversion(a);
    lemma_const_ty_inversion(b);
}

proof fn lemma_bitor_shape(a: Const, b: Const)
    ensures
        (spec_bitor(a, b) is Ok) == (a.spec_ty() == b.spec_ty() && {
            let t = a.spec_ty();
            t.spec_is_int()
        }),
        spec_bitor(a, b) matches Ok(v) ==> v.spec_ty() == a.spec_ty(),
{
    lemma_const_ty_inversion(a);
    lemma_const_ty_inversion(b);
}

proof fn lemma_bitxor_shape(a: Const, b: Const)
    ensures
        (spec_bitxor(a, b) is Ok) == (a.spec_ty() == b.spec_ty() && {
            let t = a.spec_ty();
            t.spec_is_int()
        }),
        spec_bitxor(a, b) matches Ok(v) ==> v.spec_ty() == a.spec_ty(),
{
    lemma_const_ty_inversion(a);
    lemma_const_ty_inversion(b);
}

proof fn lemma_min_shape(a: Const, b: Const)
    ensures
        (spec_min(a, b) is Ok) == (a.spec_ty() == b.spec_ty() && {
            let t = a.spec_ty();
            t.spec_is_int() || t.spec_is_float()
        }),
        spec_min(a, b) matches Ok(v) ==> v.spec_ty() == a.spec_ty(),
{
    lemma_const_ty_inversion(a);
    lemma_const_ty_inversion(b);
}

proof fn lemma_max_shape(a: Const, b: Const)
    ensures
        (spec_max(a, b) is Ok) == (a.spec_ty() == b.spec_ty() && {
            let t = a.spec_ty();
            t.spec_is_int() || t.spec_is_float()
        }),
        spec_max(a, b) matches Ok(v) ==> v.spec_ty() == a.spec_ty(),
{
    lemma_const_ty_inversion(a);
    lemma_const_ty_inversion(b);
}

proof fn lemma_div_shape(a: Const, b: Const)
    ensures
        (spec_div(a, b) is Ok) == (a.spec_ty() == b.spec_ty() && a.spec_ty().spec_is_int()
            && spec_div_values_ok(a, b)),
        spec_div(a, b) matches Ok(v) ==> v.spec_ty() == a.spec_ty(),
{
    lemma_const_ty_inversion(a);
    lemma_const_ty_inversion(b);
    match (a, b) {
        (Const::ConstU8(x), Const::ConstU8(y)) => {}
        (Const::ConstU16(x), Const::ConstU16(y)) => {}
        (Const::ConstU32(x), Const::ConstU32(y)) => {}
        (Const::ConstU64(x), Const::ConstU64(y)) => {}
        (Const::ConstU128(x), Const::ConstU128(y)) => {}
        (Const::ConstI8(x), Const::ConstI8(y)) => {
            if y != 0 {
                lemma_trunc_div_range(x as int, y as int, 0x80);
                assert(trunc_div_val(x as int, y as int) == {
                    let xi = x as int;
                    let di = y as int;
                    if xi == 0 {
                        0
                    } else if xi > 0 && di > 0 {
                        xi / di
                    } else if xi < 0 && di < 0 {
                        ((xi * -1) / (di * -1))
                    } else if xi < 0 {
                        ((xi * -1) / di) * -1
                    } else {
                        (xi / (di * -1)) * -1
                    }
                });
            }
        }
        (Const::ConstI16(x), Const::ConstI16(y)) => {
            if y != 0 {
                lemma_trunc_div_range(x as int, y as int, 0x8000);
                assert(trunc_div_val(x as int, y as int) == {
                    let xi = x as int;
                    let di = y as int;
                    if xi == 0 {
                        0
                    } else if xi > 0 && di > 0 {
                        xi / di
                    } else if xi < 0 && di < 0 {
                        ((xi * -1) / (di * -1))
                    } else if xi < 0 {
                        ((xi * -1) / di) * -1
                    } else {
                        (xi / (di * -1)) * -1
                    }
                });
            }
        }
        (Const::ConstI32(x), Const::ConstI32(y)) => {
            if y != 0 {
                lemma_trunc_div_range(x as int, y as int, 0x8000_0000);
                assert(trunc_div_val(x as int, y as int) == {
                    let xi = x as int;
                    let di = y as int;
                    if xi == 0 {
                        0
                    } else if xi > 0 && di > 0 {
                        xi / di
                    } else if xi < 0 && di < 0 {
                        ((xi * -1) / (di * -1))
                    } else if xi < 0 {
                        ((xi * -1) / di) * -1
                    } else {
                        (xi / (di * -1)) * -1
                    }
                });
            }
        }
        (Const::ConstI64(x), Const::ConstI64(y)) => {
            if y != 0 {
                lemma_trunc_div_range(x as int, y as int, 0x8000_0000_0000_0000);
                assert(trunc_div_val(x as int, y as int) == {
                    let xi = x as int;
                    let di = y as int;
                    if xi == 0 {
                        0
                    } else if xi > 0 && di > 0 {
                        xi / di
                    } else if xi < 0 && di < 0 {
                        ((xi * -1) / (di * -1))
                    } else if xi < 0 {
                        ((xi * -1) / di) * -1
                    } else {
                        (xi / (di * -1)) * -1
                    }
                });
            }
        }
        (Const::ConstI128(x), Const::ConstI128(y)) => {
            if y != 0 {
                lemma_trunc_div_range(x as int, y as int, 0x8000_0000_0000_0000_0000_0000_0000_0000);
                assert(trunc_div_val(x as int, y as int) == {
                    let xi = x as int;
                    let di = y as int;
                    if xi == 0 {
                        0
                    } else if xi > 0 && di > 0 {
                        xi / di
                    } else if xi < 0 && di < 0 {
                        ((xi * -1) / (di * -1))
                    } else if xi < 0 {
                        ((xi * -1) / di) * -1
                    } else {
                        (xi / (di * -1)) * -1
                    }
                });
            }
        }
        _ => {},
    }
}

proof fn lemma_rem_shape(a: Const, b: Const)
    ensures
        (spec_rem(a, b) is Ok) == (a.spec_ty() == b.spec_ty() && a.spec_ty().spec_is_int()
            && spec_div_values_ok(a, b)),
        spec_rem(a, b) matches Ok(v) ==> v.spec_ty() == a.spec_ty(),
{
    lemma_const_ty_inversion(a);
    lemma_const_ty_inversion(b);
    match (a, b) {
        (Const::ConstU8(x), Const::ConstU8(y)) => {}
        (Const::ConstU16(x), Const::ConstU16(y)) => {}
        (Const::ConstU32(x), Const::ConstU32(y)) => {}
        (Const::ConstU64(x), Const::ConstU64(y)) => {}
        (Const::ConstU128(x), Const::ConstU128(y)) => {}
        (Const::ConstI8(x), Const::ConstI8(y)) => {
            if y != 0 {
                lemma_trunc_rem_range(x as int, y as int, 0x80);
            }
        }
        (Const::ConstI16(x), Const::ConstI16(y)) => {
            if y != 0 {
                lemma_trunc_rem_range(x as int, y as int, 0x8000);
            }
        }
        (Const::ConstI32(x), Const::ConstI32(y)) => {
            if y != 0 {
                lemma_trunc_rem_range(x as int, y as int, 0x8000_0000);
            }
        }
        (Const::ConstI64(x), Const::ConstI64(y)) => {
            if y != 0 {
                lemma_trunc_rem_range(x as int, y as int, 0x8000_0000_0000_0000);
            }
        }
        (Const::ConstI128(x), Const::ConstI128(y)) => {
            if y != 0 {
                lemma_trunc_rem_range(x as int, y as int, 0x8000_0000_0000_0000_0000_0000_0000_0000);
            }
        }
        _ => {},
    }
}

/// A binary value opcode succeeds exactly when the operand types match,
/// the support matrix allows the combination, and the values satisfy the
/// division side condition; the result then carries the operands' type.
pub proof fn lemma_val_binop_shape(op: ValBinOpCode, a: Const, b: Const)
    ensures
        (spec_val_binop(op, a, b) is Ok) == (a.spec_ty() == b.spec_ty()
            && spec_val_binop_supported(op, a.spec_ty()) && spec_val_binop_values_ok(op, a, b)),
        spec_val_binop(op, a, b) matches Ok(v) ==> v.spec_ty() == a.spec_ty(),
{
    match op {
        ValBinOpCode::Add => lemma_add_shape(a, b),
        ValBinOpCode::Sub => lemma_sub_shape(a, b),
        ValBinOpCode::Mul => lemma_mul_shape(a, b),
        ValBinOpCode::Div => lemma_div_shape(a, b),
        ValBinOpCode::Rem => lemma_rem_shape(a, b),
        ValBinOpCode::Min => lemma_min_shape(a, b),
        ValBinOpCode::Max => lemma_max_shape(a, b),
        ValBinOpCode::Pow => {},
        ValBinOpCode::BitAnd => lemma_bitand_shape(a, b),
        ValBinOpCode::BitOr => lemma_bitor_shape(a, b),
        ValBinOpCode::BitXor => lemma_bitxor_shape(a, b),
    }
}

/// A binary predicate opcode succeeds exactly when the operand types
/// match and are numeric; the result is then a boolean.
pub proof fn lemma_bool_binop_shape(op: BoolBinOpCode, a: Const, b: Const)
    ensures
        (spec_bool_binop(op, a, b) is Ok) == (a.spec_ty() == b.spec_ty()
            && spec_bool_binop_supported(op, a.spec_ty())),
        spec_bool_binop(op, a, b) matches Ok(v) ==> v.spec_ty() == ScalarTy::TBool,
{
}

/// A unary value opcode succeeds exactly when the support matrix allows
/// it on the operand's type; the result then carries that type.
pub proof fn lemma_val_unop_shape(op: ValUnOpCode, a: Const)
    ensures
        (spec_val_unop(op, a) is Ok) == spec_val_unop_supported(op, a.spec_ty()),
        spec_val_unop(op, a) matches Ok(v) ==> v.spec_ty() == a.spec_ty(),
{
    lemma_const_ty_inversion(a);
}

/// A unary predicate opcode succeeds exactly when the operand is a
/// float; the result is then a boolean.
pub proof fn lemma_bool_unop_shape(op: BoolUnOpCode, a: Const)
    ensures
        (spec_bool_unop(op, a) is Ok) == spec_bool_unop_supported(op, a.spec_ty()),
        spec_bool_unop(op, a) matches Ok(v) ==> v.spec_ty() == ScalarTy::TBool,
{
    lemma_const_ty_inversion(a);
}

/// Decides `spec_div_values_ok` executably.
pub fn div_values_ok(a: &Const, b: &Const) -> (r: bool)
    ensures
        r == spec_div_values_ok(*a, *b),
{
    match (a, b) {
        (Const::ConstU8(_), Const::ConstU8(y)) => *y != 0,
        (Const::ConstU16(_), Const::ConstU16(y)) => *y != 0,
        (Const::ConstU32(_), Const::ConstU32(y)) => *y != 0,
        (Const::ConstU64(_), Const::ConstU64(y)) => *y != 0,
        (Const::ConstU128(_), Const::ConstU128(y)) => *y != 0,
        (Const::ConstI8(x), Const::ConstI8(y)) => *y != 0 && !(*x == i8::MIN && *y == -1),
        (Const::ConstI16(x), Const::ConstI16(y)) => *y != 0 && !(*x == i16::MIN && *y == -1),
        (Const::ConstI32(x), Const::ConstI32(y)) => *y != 0 && !(*x == i32::MIN && *y == -1),
        (Const::ConstI64(x), Const::ConstI64(y)) => *y != 0 && !(*x == i64::MIN && *y == -1),
        (Const::ConstI128(x), Const::ConstI128(y)) => *y != 0 && !(*x == i128::MIN && *y == -1),
        _ => true,
    }
}

/// Decides `spec_val_binop_values_ok` executably.
pub fn val_binop_values_ok(op: ValBinOpCode, a: &Const, b: &Const) -> (r: bool)
    ensures
        r == spec_val_binop_values_ok(op, *a, *b),
{
    if matches!(op, ValBinOpCode::Div) || matches!(op, ValBinOpCode::Rem) {
        div_values_ok(a, b)
    } else {
        true
    }
}

} // verus!
