//! Conversion kernels: casting a scalar between the thirteen types.
//!
//! Supported conversions:
//! - identity, for every type, returning the value unchanged;
//! - integer to integer, truncating two's-complement casts;
//! - boolean to numeric (`false` to zero, `true` to one) and numeric to
//!   boolean (zero to `false`, anything else to `true`; for floats both
//!   zeros map to `false` and NaN, being non-zero, to `true`).
//!
//! Conversions between integers and floats, and between the two float
//! widths, would need IEEE-754 rounding, which this evaluator does not
//! define; they are reported as unsupported.

use vstd::prelude::*;

use crate::floatbits::{f32_mag, f64_mag, spec_f32_mag, spec_f64_mag};
use crate::operands::Const;
use crate::ops::OpError;
use crate::scalarty::ScalarTy;

verus! {

/// Bit pattern of `1.0f32`.
pub const F32_ONE: u32 = 0x3F80_0000;

/// Bit pattern of `1.0f64`.
pub const F64_ONE: u64 = 0x3FF0_0000_0000_0000;

/// The mathematical value of an integer or boolean constant (`true` counts
/// as one); irrelevant for float constants.
pub open spec fn spec_int_val(c: Const) -> int {
    match c {
        Const::ConstBool(b) => if b {
            1
        } else {
            0
        },
        Const::ConstU8(x) => x as int,
        Const::ConstU16(x) => x as int,
        Const::ConstU32(x) => x as int,
        Const::ConstU64(x) => x as int,
        Const::ConstU128(x) => x as int,
        Const::ConstI8(x) => x as int,
        Const::ConstI16(x) => x as int,
        Const::ConstI32(x) => x as int,
        Const::ConstI64(x) => x as int,
        Const::ConstI128(x) => x as int,
        Const::ConstF32(_) => 0,
        Const::ConstF64(_) => 0,
    }
}

/// The constant of integer type `ty` whose value is `v`, truncated
/// two's-complement into the width of `ty`; irrelevant for non-integer
/// `ty`.
pub open spec fn spec_make_int(ty: ScalarTy, v: int) -> Const {
    match ty {
        ScalarTy::TU8 => Const::ConstU8(v as u8),
        ScalarTy::TU16 => Const::ConstU16(v as u16),
        ScalarTy::TU32 => Const::ConstU32(v as u32),
        ScalarTy::TU64 => Const::ConstU64(v as u64),
        ScalarTy::TU128 => Const::ConstU128(v as u128),
        ScalarTy::TI8 => Const::ConstI8(v as i8),
        ScalarTy::TI16 => Const::ConstI16(v as i16),
        ScalarTy::TI32 => Const::ConstI32(v as i32),
        ScalarTy::TI64 => Const::ConstI64(v as i64),
        ScalarTy::TI128 => Const::ConstI128(v as i128),
        _ => Const::ConstBool(false),
    }
}

/// True of the conversions the evaluator defines.
pub open spec fn spec_conv_supported(src: ScalarTy, dst: ScalarTy) -> bool {
    src == dst || src == ScalarTy::TBool || dst == ScalarTy::TBool || (src.spec_is_int()
        && dst.spec_is_int())
}

/// Converts a scalar to type `ty`: the identity when the types agree,
/// otherwise a truncating integer cast or a boolean conversion; reports
/// any conversion that would need IEEE-754 rounding as unsupported.
pub open spec fn spec_conv(c: Const, ty: ScalarTy) -> Result<Const, OpError> {
    if c.spec_ty() == ty {
        Ok(c)
    } else if ty == ScalarTy::TBool {
        match c {
            Const::ConstF32(b) => Ok(Const::ConstBool(spec_f32_mag(b) != 0)),
            Const::ConstF64(b) => Ok(Const::ConstBool(spec_f64_mag(b) != 0)),
            _ => Ok(Const::ConstBool(spec_int_val(c) != 0)),
        }
    } else if c.spec_ty() == ScalarTy::TBool {
        if ty.spec_is_int() {
            Ok(spec_make_int(ty, spec_int_val(c)))
        } else if ty == ScalarTy::TF32 {
            Ok(Const::ConstF32(if spec_int_val(c) == 1 { F32_ONE } else { 0 }))
        } else {
            Ok(Const::ConstF64(if spec_int_val(c) == 1 { F64_ONE } else { 0 }))
        }
    } else if c.spec_ty().spec_is_int() && ty.spec_is_int() {
        Ok(spec_make_int(ty, spec_int_val(c)))
    } else {
        Err(OpError::Unsupported)
    }
}

/// A conversion succeeds exactly when `spec_conv_supported` allows it, the
/// converted value carries the requested type, and converting to the
/// value's own type is the identity.
pub proof fn lemma_conv_shape(c: Const, ty: ScalarTy)
    ensures
        (spec_conv(c, ty) is Ok) == spec_conv_supported(c.spec_ty(), ty),
        spec_conv(c, ty) matches Ok(v) ==> v.spec_ty() == ty,
        c.spec_ty() == ty ==> spec_conv(c, ty) == Ok::<Const, OpError>(c),
{
    match c {
        Const::ConstBool(_) => broadcast_conv_shape_ty(c, ty),
        Const::ConstU8(_) => broadcast_conv_shape_ty(c, ty),
        Const::ConstU16(_) => broadcast_conv_shape_ty(c, ty),
        Const::ConstU32(_) => broadcast_conv_shape_ty(c, ty),
        Const::ConstU64(_) => broadcast_conv_shape_ty(c, ty),
        Const::ConstU128(_) => broadcast_conv_shape_ty(c, ty),
        Const::ConstI8(_) => broadcast_conv_shape_ty(c, ty),
        Const::ConstI16(_) => broadcast_conv_shape_ty(c, ty),
        Const::ConstI32(_) => broadcast_conv_shape_ty(c, ty),
        Const::ConstI64(_) => broadcast_conv_shape_ty(c, ty),
        Const::ConstI128(_) => broadcast_conv_shape_ty(c, ty),
        Const::ConstF32(_) => broadcast_conv_shape_ty(c, ty),
        Const::ConstF64(_) => broadcast_conv_shape_ty(c, ty),
    }
}

proof fn broadcast_conv_shape_ty(c: Const, ty: ScalarTy)
    ensures
        (spec_conv(c, ty) is Ok) == spec_conv_supported(c.spec_ty(), ty),
        spec_conv(c, ty) matches Ok(v) ==> v.spec_ty() == ty,
        c.spec_ty() == ty ==> spec_conv(c, ty) == Ok::<Const, OpError>(c),
{
    match ty {
        ScalarTy::TBool => {},
        ScalarTy::TU8 => {},
        ScalarTy::TU16 => {},
        ScalarTy::TU32 => {},
        ScalarTy::TU64 => {},
        ScalarTy::TU128 => {},
        ScalarTy::TI8 => {},
        ScalarTy::TI16 => {},
        ScalarTy::TI32 => {},
        ScalarTy::TI64 => {},
        ScalarTy::TI128 => {},
        ScalarTy::TF32 => {},
        ScalarTy::TF64 => {},
    }
}

/// Decides `spec_conv_supported` executably.
pub fn conv_supported(src: ScalarTy, dst: ScalarTy) -> (r: bool)
    ensures
        r == spec_conv_supported(src, dst),
{
    src == dst || matches!(src, ScalarTy::TBool) || matches!(dst, ScalarTy::TBool) || (src.is_int()
        && dst.is_int())
}

/// True when the integer or boolean constant holds a non-zero value.
fn int_val_nonzero(c: &Const) -> (r: bool)
    requires
        c.spec_ty().spec_is_int() || c.spec_ty() == ScalarTy::TBool,
    ensures
        r == (spec_int_val(*c) != 0),
{
    match c {
        Const::ConstBool(b) => *b,
        Const::ConstU8(x) => *x != 0,
        Const::ConstU16(x) => *x != 0,
        Const::ConstU32(x) => *x != 0,
        Const::ConstU64(x) => *x != 0,
        Const::ConstU128(x) => *x != 0,
        Const::ConstI8(x) => *x != 0,
        Const::ConstI16(x) => *x != 0,
        Const::ConstI32(x) => *x != 0,
        Const::ConstI64(x) => *x != 0,
        Const::ConstI128(x) => *x != 0,
        Const::ConstF32(_) => false,
        Const::ConstF64(_) => false,
    }
}

/// Truncates an integer or boolean constant (`u128` sources aside) into
/// the integer type `ty`.
fn make_int_from_i128(ty: ScalarTy, w: i128) -> (r: Const)
    requires
        ty.spec_is_int(),
    ensures
        r == spec_make_int(ty, w as int),
{
    match ty {
        ScalarTy::TU8 => Const::ConstU8(#[verifier::truncate] (w as u8)),
        ScalarTy::TU16 => Const::ConstU16(#[verifier::truncate] (w as u16)),
        ScalarTy::TU32 => Const::ConstU32(#[verifier::truncate] (w as u32)),
        ScalarTy::TU64 => Const::ConstU64(#[verifier::truncate] (w as u64)),
        ScalarTy::TU128 => Const::ConstU128(#[verifier::truncate] (w as u128)),
        ScalarTy::TI8 => Const::ConstI8(#[verifier::truncate] (w as i8)),
        ScalarTy::TI16 => Const::ConstI16(#[verifier::truncate] (w as i16)),
        ScalarTy::TI32 => Const::ConstI32(#[verifier::truncate] (w as i32)),
        ScalarTy::TI64 => Const::ConstI64(#[verifier::truncate] (w as i64)),
        _ => Const::ConstI128(w),
    }
}

/// Truncates a `u128` constant value into the integer type `ty`.
fn make_int_from_u128(ty: ScalarTy, x: u128) -> (r: Const)
    requires
        ty.spec_is_int(),
    ensures
        r == spec_make_int(ty, x as int),
{
    match ty {
        ScalarTy::TU8 => Const::ConstU8(#[verifier::truncate] (x as u8)),
        ScalarTy::TU16 => Const::ConstU16(#[verifier::truncate] (x as u16)),
        ScalarTy::TU32 => Const::ConstU32(#[verifier::truncate] (x as u32)),
        ScalarTy::TU64 => Const::ConstU64(#[verifier::truncate] (x as u64)),
        ScalarTy::TU128 => Const::ConstU128(x),
        ScalarTy::TI8 => Const::ConstI8(#[verifier::truncate] (x as i8)),
        ScalarTy::TI16 => Const::ConstI16(#[verifier::truncate] (x as i16)),
        ScalarTy::TI32 => Const::ConstI32(#[verifier::truncate] (x as i32)),
        ScalarTy::TI64 => Const::ConstI64(#[verifier::truncate] (x as i64)),
        _ => Const::ConstI128(#[verifier::truncate] (x as i128)),
    }
}

/// Converts a scalar to type `ty`, as `spec_conv` states.
pub fn conv_scalar(c: &Const, ty: ScalarTy) -> (r: Result<Const, OpError>)
    ensures
        r == spec_conv(*c, ty),
{
    let cty = c.get_scalar_ty();
    if cty == ty {
        Ok(*c)
    } else if matches!(ty, ScalarTy::TBool) {
        match c {
            Const::ConstF32(b) => Ok(Const::ConstBool(f32_mag(*b) != 0)),
            Const::ConstF64(b) => Ok(Const::ConstBool(f64_mag(*b) != 0)),
            _ => Ok(Const::ConstBool(int_val_nonzero(c))),
        }
    } else if matches!(cty, ScalarTy::TBool) {
        let one = int_val_nonzero(c);
        if ty.is_int() {
            Ok(make_int_from_i128(ty, if one { 1 } else { 0 }))
        } else if matches!(ty, ScalarTy::TF32) {
            Ok(Const::ConstF32(if one { F32_ONE } else { 0 }))
        } else {
            Ok(Const::ConstF64(if one { F64_ONE } else { 0 }))
        }
    } else if cty.is_int() && ty.is_int() {
        match c {
            Const::ConstU128(x) => Ok(make_int_from_u128(ty, *x)),
            Const::ConstU8(x) => Ok(make_int_from_i128(ty, *x as i128)),
            Const::ConstU16(x) => Ok(make_int_from_i128(ty, *x as i128)),
            Const::ConstU32(x) => Ok(make_int_from_i128(ty, *x as i128)),
            Const::ConstU64(x) => Ok(make_int_from_i128(ty, *x as i128)),
            Const::ConstI8(x) => Ok(make_int_from_i128(ty, *x as i128)),
            Const::ConstI16(x) => Ok(make_int_from_i128(ty, *x as i128)),
            Const::ConstI32(x) => Ok(make_int_from_i128(ty, *x as i128)),
            Const::ConstI64(x) => Ok(make_int_from_i128(ty, *x as i128)),
            Const::ConstI128(x) => Ok(make_int_from_i128(ty, *x)),
            _ => unreached(),
        }
    } else {
        Err(OpError::Unsupported)
    }
}

/// Whether the mathematical value `v` is representable in the integer
/// type `ty`.
pub open spec fn spec_in_range(ty: ScalarTy, v: int) -> bool {
    match ty {
        ScalarTy::TU8 => 0 <= v <= u8::MAX,
        ScalarTy::TU16 => 0 <= v <= u16::MAX,
        ScalarTy::TU32 => 0 <= v <= u32::MAX,
        ScalarTy::TU64 => 0 <= v <= u64::MAX,
        ScalarTy::TU128 => 0 <= v <= u128::MAX,
        ScalarTy::TI8 => i8::MIN <= v <= i8::MAX,
        ScalarTy::TI16 => i16::MIN <= v <= i16::MAX,
        ScalarTy::TI32 => i32::MIN <= v <= i32::MAX,
        ScalarTy::TI64 => i64::MIN <= v <= i64::MAX,
        ScalarTy::TI128 => i128::MIN <= v <= i128::MAX,
        _ => false,
    }
}

/// Whether a constant holds the zero of its type (for floats, either
/// IEEE-754 zero).
pub open spec fn spec_const_is_zero(c: Const) -> bool {
    match c {
        Const::ConstBool(b) => !b,
        Const::ConstF32(b) => spec_f32_mag(b) == 0,
        Const::ConstF64(b) => spec_f64_mag(b) == 0,
        _ => spec_int_val(c) == 0,
    }
}

/// Whether a constant holds the one of its type.
pub open spec fn spec_const_is_one(c: Const) -> bool {
    match c {
        Const::ConstBool(b) => b,
        Const::ConstF32(b) => b == F32_ONE,
        Const::ConstF64(b) => b == F64_ONE,
        _ => spec_int_val(c) == 1,
    }
}

} // verus!
