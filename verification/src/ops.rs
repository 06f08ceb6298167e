//! Opcodes and the support matrix.
//!
//! Four opcode sets: value-returning and predicate-returning, unary and
//! binary.  For every `(opcode, scalar type)` combination the evaluator
//! either computes the operation or reports it as unsupported; the
//! `spec_*_supported` functions are the decision table.
//!
//! Supported combinations:
//! - `Add..Rem` on the ten integer types, with wrapping semantics; integer
//!   division or remainder by zero, and overflowing division, are reported
//!   as unsupported rather than trapping (a value-level refinement of the
//!   table below).
//! - `Min`/`Max` on integers and floats (floats at the bit level, taking
//!   the other operand when one side is NaN).
//! - `BitAnd`/`BitOr`/`BitXor`/`BitNot` on integers only.
//! - `Neg` on signed integers (wrapping) and floats (sign-bit flip);
//!   `Abs` on floats (sign-bit clear).
//! - Comparisons on all numeric types; float comparisons follow IEEE-754
//!   (NaN compares unequal to everything, ordered comparisons with NaN are
//!   false).
//! - `IsNaN`/`IsInf`/`IsFin` on floats.
//! - Booleans support no operation except conversion.
//! - Floating-point arithmetic that cannot be stated at the bit level
//!   (`Add..Rem`, `Pow`, `Ln`, `Exp`, `Sqrt`, `Sin`, `Cos` on floats) is
//!   not provided: those combinations are reported as unsupported.

use vstd::prelude::*;

use crate::scalarty::ScalarTy;

verus! {

/// The error a single kernel application reports: the combination of
/// opcode and scalar type (or, for integer division, the pair of values)
/// has no defined result.
#[derive(Clone, Copy, Debug, PartialEq, Eq, Structural)]
pub enum OpError {
    Unsupported,
}

/// Binary predicate opcodes: `(T, T) -> bool`.
#[derive(Clone, Copy, Debug, PartialEq, Eq, Structural)]
pub enum BoolBinOpCode {
    Lt,
    Le,
    Eq,
    Ne,
    Ge,
    Gt,
}

/// Unary predicate opcodes: `(T) -> bool`.
#[derive(Clone, Copy, Debug, PartialEq, Eq, Structural)]
pub enum BoolUnOpCode {
    IsNaN,
    IsInf,
    IsFin,
}

/// Binary value opcodes: `(T, T) -> T`.
#[derive(Clone, Copy, Debug, PartialEq, Eq, Structural)]
pub enum ValBinOpCode {
    Add,
    Sub,
    Mul,
    Div,
    Rem,
    Min,
    Max,
    Pow,
    BitAnd,
    BitOr,
    BitXor,
}

/// Unary value opcodes: `(T) -> T`.
#[derive(Clone, Copy, Debug, PartialEq, Eq, Structural)]
pub enum ValUnOpCode {
    Neg,
    BitNot,
    Abs,
    Ln,
    Exp,
    Sqrt,
    Sin,
    Cos,
}

/// The support matrix row for binary value opcodes.
pub open spec fn spec_val_binop_supported(op: ValBinOpCode, ty: ScalarTy) -> bool {
    match op {
        ValBinOpCode::Add => ty.spec_is_int(),
        ValBinOpCode::Sub => ty.spec_is_int(),
        ValBinOpCode::Mul => ty.spec_is_int(),
        ValBinOpCode::Div => ty.spec_is_int(),
        ValBinOpCode::Rem => ty.spec_is_int(),
        ValBinOpCode::Min => ty.spec_is_int() || ty.spec_is_float(),
        ValBinOpCode::Max => ty.spec_is_int() || ty.spec_is_float(),
        ValBinOpCode::Pow => false,
        ValBinOpCode::BitAnd => ty.spec_is_int(),
        ValBinOpCode::BitOr => ty.spec_is_int(),
        ValBinOpCode::BitXor => ty.spec_is_int(),
    }
}

/// The support matrix row for binary predicate opcodes: all numeric types.
pub open spec fn spec_bool_binop_supported(op: BoolBinOpCode, ty: ScalarTy) -> bool {
    ty.spec_is_int() || ty.spec_is_float()
}

/// The support matrix row for unary value opcodes.
pub open spec fn spec_val_unop_supported(op: ValUnOpCode, ty: ScalarTy) -> bool {
    match op {
        ValUnOpCode::Neg => ty.spec_is_signed() || ty.spec_is_float(),
        ValUnOpCode::BitNot => ty.spec_is_int(),
        ValUnOpCode::Abs => ty.spec_is_float(),
        ValUnOpCode::Ln => false,
        ValUnOpCode::Exp => false,
        ValUnOpCode::Sqrt => false,
        ValUnOpCode::Sin => false,
        ValUnOpCode::Cos => false,
    }
}

/// The support matrix row for unary predicate opcodes: floats only.
pub open spec fn spec_bool_unop_supported(op: BoolUnOpCode, ty: ScalarTy) -> bool {
    ty.spec_is_float()
}

/// Decides `spec_val_binop_supported` executably.
pub fn val_binop_supported(op: ValBinOpCode, ty: ScalarTy) -> (r: bool)
    ensures
        r == spec_val_binop_supported(op, ty),
{
    match op {
        ValBinOpCode::Add => ty.is_int(),
        ValBinOpCode::Sub => ty.is_int(),
        ValBinOpCode::Mul => ty.is_int(),
        ValBinOpCode::Div => ty.is_int(),
        ValBinOpCode::Rem => ty.is_int(),
        ValBinOpCode::Min => ty.is_int() || ty.is_float(),
        ValBinOpCode::Max => ty.is_int() || ty.is_float(),
        ValBinOpCode::Pow => false,
        ValBinOpCode::BitAnd => ty.is_int(),
        ValBinOpCode::BitOr => ty.is_int(),
        ValBinOpCode::BitXor => ty.is_int(),
    }
}

/// Decides `spec_bool_binop_supported` executably.
pub fn bool_binop_supported(op: BoolBinOpCode, ty: ScalarTy) -> (r: bool)
    ensures
        r == spec_bool_binop_supported(op, ty),
{
    ty.is_int() || ty.is_float()
}

/// Decides `spec_val_unop_supported` executably.
pub fn val_unop_supported(op: ValUnOpCode, ty: ScalarTy) -> (r: bool)
    ensures
        r == spec_val_unop_supported(op, ty),
{
    match op {
        ValUnOpCode::Neg => ty.is_signed() || ty.is_float(),
        ValUnOpCode::BitNot => ty.is_int(),
        ValUnOpCode::Abs => ty.is_float(),
        ValUnOpCode::Ln => false,
        ValUnOpCode::Exp => false,
        ValUnOpCode::Sqrt => false,
        ValUnOpCode::Sin => false,
        ValUnOpCode::Cos => false,
    }
}

/// Decides `spec_bool_unop_supported` executably.
pub fn bool_unop_supported(op: BoolUnOpCode, ty: ScalarTy) -> (r: bool)
    ensures
        r == spec_bool_unop_supported(op, ty),
{
    ty.is_float()
}

} // verus!
