//! Bulk evaluator for homogeneous typed columns.
//!
//! The crate exposes a small, dynamically typed operand surface: a value is
//! either a single tagged scalar (`Const`) or a tagged homogeneous column
//! (`Slice`).  An evaluation step joins the two operand types to a common
//! scalar type, converts both operands to it, and applies the selected
//! operation element by element, working through caller-supplied scratch
//! buffers that are validated for alignment, size and chunk divisibility
//! before any work is done.

pub mod consts;
pub mod convert;
pub mod eval;
pub mod floatbits;
pub mod kernels;
pub mod laws;
pub mod operands;
pub mod ops;
pub mod scalar;
pub mod scalarty;

pub use consts::{CHUNKBYTES, VECBYTES};
pub use eval::{EvalCtx, EvalError};
pub use operands::{Const, Operand, Slice};
pub use ops::{BoolBinOpCode, BoolUnOpCode, OpError, ValBinOpCode, ValUnOpCode};
pub use scalarty::ScalarTy;
