//! The scalar type lattice.
//!
//! Every operand carries a `ScalarTy` tag naming the type of its elements.
//! For a binary operation over operands of two different types, `join`
//! computes the common promotion type both sides are converted to before
//! the operation runs.

use vstd::prelude::*;

verus! {

/// The thirteen scalar element types an operand can carry.  Floating-point
/// columns are carried as raw IEEE-754 bit patterns (`u32` for `TF32`,
/// `u64` for `TF64`); the tag records which interpretation applies.
#[derive(Clone, Copy, Debug, PartialEq, Eq, Structural)]
pub enum ScalarTy {
    TBool,
    TU8,
    TU16,
    TU32,
    TU64,
    TU128,
    TI8,
    TI16,
    TI32,
    TI64,
    TI128,
    TF32,
    TF64,
}

impl ScalarTy {
    /// True of the five unsigned integer types.
    pub open spec fn spec_is_unsigned(self) -> bool {
        self == ScalarTy::TU8 || self == ScalarTy::TU16 || self == ScalarTy::TU32
            || self == ScalarTy::TU64 || self == ScalarTy::TU128
    }

    /// True of the five signed integer types.
    pub open spec fn spec_is_signed(self) -> bool {
        self == ScalarTy::TI8 || self == ScalarTy::TI16 || self == ScalarTy::TI32
            || self == ScalarTy::TI64 || self == ScalarTy::TI128
    }

    /// True of the two floating-point types.
    pub open spec fn spec_is_float(self) -> bool {
        self == ScalarTy::TF32 || self == ScalarTy::TF64
    }

    /// True of the ten integer types.
    pub open spec fn spec_is_int(self) -> bool {
        self.spec_is_unsigned() || self.spec_is_signed()
    }

    /// Width of the type in bits (booleans count as one byte).
    pub open spec fn spec_bits(self) -> int {
        match self {
            ScalarTy::TBool => 8,
            ScalarTy::TU8 => 8,
            ScalarTy::TU16 => 16,
            ScalarTy::TU32 => 32,
            ScalarTy::TU64 => 64,
            ScalarTy::TU128 => 128,
            ScalarTy::TI8 => 8,
            ScalarTy::TI16 => 16,
            ScalarTy::TI32 => 32,
            ScalarTy::TI64 => 64,
            ScalarTy::TI128 => 128,
            ScalarTy::TF32 => 32,
            ScalarTy::TF64 => 64,
        }
    }

    /// Size of one element in bytes (booleans occupy one byte).
    pub open spec fn spec_size(self) -> int {
        self.spec_bits() / 8
    }

    /// The signed integer type of the given bit width.
    pub open spec fn spec_signed_of_bits(bits: int) -> ScalarTy {
        if bits == 8 {
            ScalarTy::TI8
        } else if bits == 16 {
            ScalarTy::TI16
        } else if bits == 32 {
            ScalarTy::TI32
        } else if bits == 64 {
            ScalarTy::TI64
        } else {
            ScalarTy::TI128
        }
    }

    /// The promotion (join) of two scalar types.
    ///
    /// The rules, for `a != b`:
    /// - `TBool` is absorbed by any partner.
    /// - `TF64` absorbs everything; `TF32` absorbs integers of up to 32
    ///   bits and widens to `TF64` against 64-bit or 128-bit integers.
    /// - Two unsigned or two signed types join to the wider.
    /// - Unsigned against strictly wider signed joins to the signed type;
    ///   unsigned against equal-or-narrower signed joins to the signed type
    ///   one width above the unsigned one (`TU8 ∨ TI8 = TI16`), and where no
    ///   wider signed integer exists the join widens to `TF64`
    ///   (`TU128 ∨ TI128 = TF64`).
    pub open spec fn spec_join(self, other: Self) -> Self {
        if self == other {
            self
        } else if self == ScalarTy::TBool {
            other
        } else if other == ScalarTy::TBool {
            self
        } else if self == ScalarTy::TF64 || other == ScalarTy::TF64 {
            ScalarTy::TF64
        } else if self == ScalarTy::TF32 || other == ScalarTy::TF32 {
            let partner = if self == ScalarTy::TF32 { other } else { self };
            if partner.spec_bits() <= 32 {
                ScalarTy::TF32
            } else {
                ScalarTy::TF64
            }
        } else if self.spec_is_unsigned() == other.spec_is_unsigned() {
            if self.spec_bits() >= other.spec_bits() {
                self
            } else {
                other
            }
        } else {
            let u = if self.spec_is_unsigned() { self } else { other };
            let s = if self.spec_is_unsigned() { other } else { self };
            if s.spec_bits() > u.spec_bits() {
                s
            } else if u.spec_bits() == 128 {
                ScalarTy::TF64
            } else {
                Self::spec_signed_of_bits(2 * u.spec_bits())
            }
        }
    }

    /// True of the five unsigned integer types.
    pub fn is_unsigned(self) -> (r: bool)
        ensures
            r == self.spec_is_unsigned(),
    {
        matches!(self, ScalarTy::TU8 | ScalarTy::TU16 | ScalarTy::TU32 | ScalarTy::TU64 | ScalarTy::TU128)
    }

    /// True of the five signed integer types.
    pub fn is_signed(self) -> (r: bool)
        ensures
            r == self.spec_is_signed(),
    {
        matches!(self, ScalarTy::TI8 | ScalarTy::TI16 | ScalarTy::TI32 | ScalarTy::TI64 | ScalarTy::TI128)
    }

    /// True of the two floating-point types.
    pub fn is_float(self) -> (r: bool)
        ensures
            r == self.spec_is_float(),
    {
        matches!(self, ScalarTy::TF32 | ScalarTy::TF64)
    }

    /// True of the ten integer types.
    pub fn is_int(self) -> (r: bool)
        ensures
            r == self.spec_is_int(),
    {
        self.is_unsigned() || self.is_signed()
    }

    /// Width of the type in bits.
    pub fn bits(self) -> (r: usize)
        ensures
            r == self.spec_bits(),
    {
        match self {
            ScalarTy::TBool => 8,
            ScalarTy::TU8 => 8,
            ScalarTy::TU16 => 16,
            ScalarTy::TU32 => 32,
            ScalarTy::TU64 => 64,
            ScalarTy::TU128 => 128,
            ScalarTy::TI8 => 8,
            ScalarTy::TI16 => 16,
            ScalarTy::TI32 => 32,
            ScalarTy::TI64 => 64,
            ScalarTy::TI128 => 128,
            ScalarTy::TF32 => 32,
            ScalarTy::TF64 => 64,
        }
    }

    /// Size of one element in bytes.
    pub fn size_bytes(self) -> (r: usize)
        ensures
            r == self.spec_size(),
            1 <= r <= 16,
    {
        self.bits() / 8
    }

    /// Returns the `ScalarTy` that is the join of `self` and `other`: the
    /// type both operands of a binary operation are promoted to.
    pub fn join(self, other: Self) -> (r: Self)
        ensures
            r == self.spec_join(other),
    {
        if self == other {
            self
        } else if matches!(self, ScalarTy::TBool) {
            other
        } else if matches!(other, ScalarTy::TBool) {
            self
        } else if matches!(self, ScalarTy::TF64) || matches!(other, ScalarTy::TF64) {
            ScalarTy::TF64
        } else if matches!(self, ScalarTy::TF32) || matches!(other, ScalarTy::TF32) {
            let partner = if matches!(self, ScalarTy::TF32) { other } else { self };
            if partner.bits() <= 32 {
                ScalarTy::TF32
            } else {
                ScalarTy::TF64
            }
        } else if self.is_unsigned() == other.is_unsigned() {
            if self.bits() >= other.bits() {
                self
            } else {
                other
            }
        } else {
            let u = if self.is_unsigned() { self } else { other };
            let s = if self.is_unsigned() { other } else { self };
            if s.bits() > u.bits() {
                s
            } else if u.bits() == 128 {
                ScalarTy::TF64
            } else {
                match u {
                    ScalarTy::TU8 => ScalarTy::TI16,
                    ScalarTy::TU16 => ScalarTy::TI32,
                    ScalarTy::TU32 => ScalarTy::TI64,
                    _ => ScalarTy::TI128,
                }
            }
        }
    }
}

} // verus!
