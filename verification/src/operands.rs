//! Operands: tagged scalars and tagged homogeneous columns.
//!
//! A `Const` is a single scalar value; a `Slice` is an owned homogeneous
//! column of scalars; an `Operand` is either.  The tag of each variant is a
//! true witness of the element type.  Floating-point values are carried as
//! their IEEE-754 bit patterns (`u32` for `TF32`, `u64` for `TF64`): the
//! evaluator's floating-point operations are defined at the bit level.
//!
//! In specifications a column is modelled as a `Seq<Const>`, every element
//! tagged with the column's scalar type; `Slice::model` gives that view.

use vstd::prelude::*;

use crate::scalarty::ScalarTy;

verus! {

/// A single tagged scalar value.
#[derive(Clone, Copy, Debug, PartialEq, Eq, Structural)]
pub enum Const {
    ConstBool(bool),
    ConstU8(u8),
    ConstU16(u16),
    ConstU32(u32),
    ConstU64(u64),
    ConstU128(u128),
    ConstI8(i8),
    ConstI16(i16),
    ConstI32(i32),
    ConstI64(i64),
    ConstI128(i128),
    ConstF32(u32),
    ConstF64(u64),
}

/// An owned homogeneous column of scalar values.
#[derive(Clone, Debug)]
pub enum Slice {
    SliceBool(Vec<bool>),
    SliceU8(Vec<u8>),
    SliceU16(Vec<u16>),
    SliceU32(Vec<u32>),
    SliceU64(Vec<u64>),
    SliceU128(Vec<u128>),
    SliceI8(Vec<i8>),
    SliceI16(Vec<i16>),
    SliceI32(Vec<i32>),
    SliceI64(Vec<i64>),
    SliceI128(Vec<i128>),
    SliceF32(Vec<u32>),
    SliceF64(Vec<u64>),
}

/// Either a column or a single scalar.
#[derive(Clone, Debug)]
pub enum Operand {
    OperandSlice(Slice),
    OperandConst(Const),
}

impl Const {
    /// The scalar type this constant carries.
    pub open spec fn spec_ty(self) -> ScalarTy {
        match self {
            Const::ConstBool(_) => ScalarTy::TBool,
            Const::ConstU8(_) => ScalarTy::TU8,
            Const::ConstU16(_) => ScalarTy::TU16,
            Const::ConstU32(_) => ScalarTy::TU32,
            Const::ConstU64(_) => ScalarTy::TU64,
            Const::ConstU128(_) => ScalarTy::TU128,
            Const::ConstI8(_) => ScalarTy::TI8,
            Const::ConstI16(_) => ScalarTy::TI16,
            Const::ConstI32(_) => ScalarTy::TI32,
            Const::ConstI64(_) => ScalarTy::TI64,
            Const::ConstI128(_) => ScalarTy::TI128,
            Const::ConstF32(_) => ScalarTy::TF32,
            Const::ConstF64(_) => ScalarTy::TF64,
        }
    }

    /// The scalar type this constant carries.
    pub fn get_scalar_ty(&self) -> (r: ScalarTy)
        ensures
            r == self.spec_ty(),
    {
        match self {
            Const::ConstBool(_) => ScalarTy::TBool,
            Const::ConstU8(_) => ScalarTy::TU8,
            Const::ConstU16(_) => ScalarTy::TU16,
            Const::ConstU32(_) => ScalarTy::TU32,
            Const::ConstU64(_) => ScalarTy::TU64,
            Const::ConstU128(_) => ScalarTy::TU128,
            Const::ConstI8(_) => ScalarTy::TI8,
            Const::ConstI16(_) => ScalarTy::TI16,
            Const::ConstI32(_) => ScalarTy::TI32,
            Const::ConstI64(_) => ScalarTy::TI64,
            Const::ConstI128(_) => ScalarTy::TI128,
            Const::ConstF32(_) => ScalarTy::TF32,
            Const::ConstF64(_) => ScalarTy::TF64,
        }
    }
}

impl Slice {
    /// The scalar type of the column's elements.
    pub open spec fn spec_ty(self) -> ScalarTy {
        match self {
            Slice::SliceBool(_) => ScalarTy::TBool,
            Slice::SliceU8(_) => ScalarTy::TU8,
            Slice::SliceU16(_) => ScalarTy::TU16,
            Slice::SliceU32(_) => ScalarTy::TU32,
            Slice::SliceU64(_) => ScalarTy::TU64,
            Slice::SliceU128(_) => ScalarTy::TU128,
            Slice::SliceI8(_) => ScalarTy::TI8,
            Slice::SliceI16(_) => ScalarTy::TI16,
            Slice::SliceI32(_) => ScalarTy::TI32,
            Slice::SliceI64(_) => ScalarTy::TI64,
            Slice::SliceI128(_) => ScalarTy::TI128,
            Slice::SliceF32(_) => ScalarTy::TF32,
            Slice::SliceF64(_) => ScalarTy::TF64,
        }
    }

    /// The column as a sequence of tagged scalars.
    pub open spec fn model(self) -> Seq<Const> {
        match self {
            Slice::SliceBool(v) => Seq::new(v@.len(), |i: int| Const::ConstBool(v@[i])),
            Slice::SliceU8(v) => Seq::new(v@.len(), |i: int| Const::ConstU8(v@[i])),
            Slice::SliceU16(v) => Seq::new(v@.len(), |i: int| Const::ConstU16(v@[i])),
            Slice::SliceU32(v) => Seq::new(v@.len(), |i: int| Const::ConstU32(v@[i])),
            Slice::SliceU64(v) => Seq::new(v@.len(), |i: int| Const::ConstU64(v@[i])),
            Slice::SliceU128(v) => Seq::new(v@.len(), |i: int| Const::ConstU128(v@[i])),
            Slice::SliceI8(v) => Seq::new(v@.len(), |i: int| Const::ConstI8(v@[i])),
            Slice::SliceI16(v) => Seq::new(v@.len(), |i: int| Const::ConstI16(v@[i])),
            Slice::SliceI32(v) => Seq::new(v@.len(), |i: int| Const::ConstI32(v@[i])),
            Slice::SliceI64(v) => Seq::new(v@.len(), |i: int| Const::ConstI64(v@[i])),
            Slice::SliceI128(v) => Seq::new(v@.len(), |i: int| Const::ConstI128(v@[i])),
            Slice::SliceF32(v) => Seq::new(v@.len(), |i: int| Const::ConstF32(v@[i])),
            Slice::SliceF64(v) => Seq::new(v@.len(), |i: int| Const::ConstF64(v@[i])),
        }
    }

    /// Every element of the model carries the column's scalar type.
    pub proof fn lemma_model_tys(self)
        ensures
            forall|i: int|
                0 <= i < self.model().len() ==> (#[trigger] self.model()[i]).spec_ty()
                    == self.spec_ty(),
    {
    }

    /// The scalar type of the column's elements.
    pub fn get_scalar_ty(&self) -> (r: ScalarTy)
        ensures
            r == self.spec_ty(),
    {
        match self {
            Slice::SliceBool(_) => ScalarTy::TBool,
            Slice::SliceU8(_) => ScalarTy::TU8,
            Slice::SliceU16(_) => ScalarTy::TU16,
            Slice::SliceU32(_) => ScalarTy::TU32,
            Slice::SliceU64(_) => ScalarTy::TU64,
            Slice::SliceU128(_) => ScalarTy::TU128,
            Slice::SliceI8(_) => ScalarTy::TI8,
            Slice::SliceI16(_) => ScalarTy::TI16,
            Slice::SliceI32(_) => ScalarTy::TI32,
            Slice::SliceI64(_) => ScalarTy::TI64,
            Slice::SliceI128(_) => ScalarTy::TI128,
            Slice::SliceF32(_) => ScalarTy::TF32,
            Slice::SliceF64(_) => ScalarTy::TF64,
        }
    }

    /// The column as a vector of tagged scalars, one per element.
    pub fn to_consts(&self) -> (r: Vec<Const>)
        ensures
            r@ == self.model(),
    {
        match self {
            Slice::SliceBool(v) => {
                let mut out: Vec<Const> = Vec::new();
                let mut i: usize = 0;
                while i < v.len()
                    invariant
                        i <= v@.len(),
                        out@.len() == i as int,
                        forall|j: int| 0 <= j < i ==> out@[j] == Const::ConstBool(v@[j]),
                    decreases v@.len() - i,
                {
                    out.push(Const::ConstBool(v[i]));
                    i = i + 1;
                }
                proof {
                    assert(out@ =~= self.model());
                }
                out
            }
            Slice::SliceU8(v) => {
                let mut out: Vec<Const> = Vec::new();
                let mut i: usize = 0;
                while i < v.len()
                    invariant
                        i <= v@.len(),
                        out@.len() == i as int,
                        forall|j: int| 0 <= j < i ==> out@[j] == Const::ConstU8(v@[j]),
                    decreases v@.len() - i,
                {
                    out.push(Const::ConstU8(v[i]));
                    i = i + 1;
                }
                proof {
                    assert(out@ =~= self.model());
                }
                out
            }
            Slice::SliceU16(v) => {
                let mut out: Vec<Const> = Vec::new();
                let mut i: usize = 0;
                while i < v.len()
                    invariant
                        i <= v@.len(),
                        out@.len() == i as int,
                        forall|j: int| 0 <= j < i ==> out@[j] == Const::ConstU16(v@[j]),
                    decreases v@.len() - i,
                {
                    out.push(Const::ConstU16(v[i]));
                    i = i + 1;
                }
                proof {
                    assert(out@ =~= self.model());
                }
                out
            }
            Slice::SliceU32(v) => {
                let mut out: Vec<Const> = Vec::new();
                let mut i: usize = 0;
                while i < v.len()
                    invariant
                        i <= v@.len(),
                        out@.len() == i as int,
                        forall|j: int| 0 <= j < i ==> out@[j] == Const::ConstU32(v@[j]),
                    decreases v@.len() - i,
                {
                    out.push(Const::ConstU32(v[i]));
                    i = i + 1;
                }
                proof {
                    assert(out@ =~= self.model());
                }
                out
            }
            Slice::SliceU64(v) => {
                let mut out: Vec<Const> = Vec::new();
                let mut i: usize = 0;
                while i < v.len()
                    invariant
                        i <= v@.len(),
                        out@.len() == i as int,
                        forall|j: int| 0 <= j < i ==> out@[j] == Const::ConstU64(v@[j]),
                    decreases v@.len() - i,
                {
                    out.push(Const::ConstU64(v[i]));
                    i = i + 1;
                }
                proof {
                    assert(out@ =~= self.model());
                }
                out
            }
            Slice::SliceU128(v) => {
                let mut out: Vec<Const> = Vec::new();
                let mut i: usize = 0;
                while i < v.len()
                    invariant
                        i <= v@.len(),
                        out@.len() == i as int,
                        forall|j: int| 0 <= j < i ==> out@[j] == Const::ConstU128(v@[j]),
                    decreases v@.len() - i,
                {
                    out.push(Const::ConstU128(v[i]));
                    i = i + 1;
                }
                proof {
                    assert(out@ =~= self.model());
                }
                out
            }
            Slice::SliceI8(v) => {
                let mut out: Vec<Const> = Vec::new();
                let mut i: usize = 0;
                while i < v.len()
                    invariant
                        i <= v@.len(),
                        out@.len() == i as int,
                        forall|j: int| 0 <= j < i ==> out@[j] == Const::ConstI8(v@[j]),
                    decreases v@.len() - i,
                {
                    out.push(Const::ConstI8(v[i]));
                    i = i + 1;
                }
                proof {
                    assert(out@ =~= self.model());
                }
                out
            }
            Slice::SliceI16(v) => {
                let mut out: Vec<Const> = Vec::new();
                let mut i: usize = 0;
                while i < v.len()
                    invariant
                        i <= v@.len(),
                        out@.len() == i as int,
                        forall|j: int| 0 <= j < i ==> out@[j] == Const::ConstI16(v@[j]),
                    decreases v@.len() - i,
                {
                    out.push(Const::ConstI16(v[i]));
                    i = i + 1;
                }
                proof {
                    assert(out@ =~= self.model());
                }
                out
            }
            Slice::SliceI32(v) => {
                let mut out: Vec<Const> = Vec::new();
                let mut i: usize = 0;
                while i < v.len()
                    invariant
                        i <= v@.len(),
                        out@.len() == i as int,
                        forall|j: int| 0 <= j < i ==> out@[j] == Const::ConstI32(v@[j]),
                    decreases v@.len() - i,
                {
                    out.push(Const::ConstI32(v[i]));
                    i = i + 1;
                }
                proof {
                    assert(out@ =~= self.model());
                }
                out
            }
            Slice::SliceI64(v) => {
                let mut out: Vec<Const> = Vec::new();
                let mut i: usize = 0;
                while i < v.len()
                    invariant
                        i <= v@.len(),
                        out@.len() == i as int,
                        forall|j: int| 0 <= j < i ==> out@[j] == Const::ConstI64(v@[j]),
                    decreases v@.len() - i,
                {
                    out.push(Const::ConstI64(v[i]));
                    i = i + 1;
                }
                proof {
                    assert(out@ =~= self.model());
                }
                out
            }
            Slice::SliceI128(v) => {
                let mut out: Vec<Const> = Vec::new();
                let mut i: usize = 0;
                while i < v.len()
                    invariant
                        i <= v@.len(),
                        out@.len() == i as int,
                        forall|j: int| 0 <= j < i ==> out@[j] == Const::ConstI128(v@[j]),
                    decreases v@.len() - i,
                {
                    out.push(Const::ConstI128(v[i]));
                    i = i + 1;
                }
                proof {
                    assert(out@ =~= self.model());
                }
                out
            }
            Slice::SliceF32(v) => {
                let mut out: Vec<Const> = Vec::new();
                let mut i: usize = 0;
                while i < v.len()
                    invariant
                        i <= v@.len(),
                        out@.len() == i as int,
                        forall|j: int| 0 <= j < i ==> out@[j] == Const::ConstF32(v@[j]),
                    decreases v@.len() - i,
                {
                    out.push(Const::ConstF32(v[i]));
                    i = i + 1;
                }
                proof {
                    assert(out@ =~= self.model());
                }
                out
            }
            Slice::SliceF64(v) => {
                let mut out: Vec<Const> = Vec::new();
                let mut i: usize = 0;
                while i < v.len()
                    invariant
                        i <= v@.len(),
                        out@.len() == i as int,
                        forall|j: int| 0 <= j < i ==> out@[j] == Const::ConstF64(v@[j]),
                    decreases v@.len() - i,
                {
                    out.push(Const::ConstF64(v[i]));
                    i = i + 1;
                }
                proof {
                    assert(out@ =~= self.model());
                }
                out
            }
        }
    }

    /// Packs a vector of tagged scalars, all of type `ty`, into a column.
    pub fn from_consts(ty: ScalarTy, v: &Vec<Const>) -> (r: Slice)
        requires
            forall|i: int| 0 <= i < v@.len() ==> (#[trigger] v@[i]).spec_ty() == ty,
        ensures
            r.spec_ty() == ty,
            r.model() == v@,
    {
        match ty {
            ScalarTy::TBool => {
                let mut out: Vec<bool> = Vec::new();
                let mut i: usize = 0;
                while i < v.len()
                    invariant
                        i <= v@.len(),
                        out@.len() == i as int,
                        forall|k: int| 0 <= k < v@.len() ==> (#[trigger] v@[k]).spec_ty()
                            == ScalarTy::TBool,
                        forall|j: int| 0 <= j < i ==> Const::ConstBool(out@[j]) == v@[j],
                    decreases v@.len() - i,
                {
                    match v[i] {
                        Const::ConstBool(x) => out.push(x),
                        _ => {
                            proof {
                                lemma_const_ty_inversion(v@[i as int]);
                            }
                            unreached()
                        },
                    }
                    i = i + 1;
                }
                let r = Slice::SliceBool(out);
                proof {
                    assert(r.model() =~= v@);
                }
                r
            }
            ScalarTy::TU8 => {
                let mut out: Vec<u8> = Vec::new();
                let mut i: usize = 0;
                while i < v.len()
                    invariant
                        i <= v@.len(),
                        out@.len() == i as int,
                        forall|k: int| 0 <= k < v@.len() ==> (#[trigger] v@[k]).spec_ty()
                            == ScalarTy::TU8,
                        forall|j: int| 0 <= j < i ==> Const::ConstU8(out@[j]) == v@[j],
                    decreases v@.len() - i,
                {
                    match v[i] {
                        Const::ConstU8(x) => out.push(x),
                        _ => {
                            proof {
                                lemma_const_ty_inversion(v@[i as int]);
                            }
                            unreached()
                        },
                    }
                    i = i + 1;
                }
                let r = Slice::SliceU8(out);
                proof {
                    assert(r.model() =~= v@);
                }
                r
            }
            ScalarTy::TU16 => {
                let mut out: Vec<u16> = Vec::new();
                let mut i: usize = 0;
                while i < v.len()
                    invariant
                        i <= v@.len(),
                        out@.len() == i as int,
                        forall|k: int| 0 <= k < v@.len() ==> (#[trigger] v@[k]).spec_ty()
                            == ScalarTy::TU16,
                        forall|j: int| 0 <= j < i ==> Const::ConstU16(out@[j]) == v@[j],
                    decreases v@.len() - i,
                {
                    match v[i] {
                        Const::ConstU16(x) => out.push(x),
                        _ => {
                            proof {
                                lemma_const_ty_inversion(v@[i as int]);
                            }
                            unreached()
                        },
                    }
                    i = i + 1;
                }
                let r = Slice::SliceU16(out);
                proof {
                    assert(r.model() =~= v@);
                }
                r
            }
            ScalarTy::TU32 => {
                let mut out: Vec<u32> = Vec::new();
                let mut i: usize = 0;
                while i < v.len()
                    invariant
                        i <= v@.len(),
                        out@.len() == i as int,
                        forall|k: int| 0 <= k < v@.len() ==> (#[trigger] v@[k]).spec_ty()
                            == ScalarTy::TU32,
                        forall|j: int| 0 <= j < i ==> Const::ConstU32(out@[j]) == v@[j],
                    decreases v@.len() - i,
                {
                    match v[i] {
                        Const::ConstU32(x) => out.push(x),
                        _ => {
                            proof {
                                lemma_const_ty_inversion(v@[i as int]);
                            }
                            unreached()
                        },
                    }
                    i = i + 1;
                }
                let r = Slice::SliceU32(out);
                proof {
                    assert(r.model() =~= v@);
                }
                r
            }
            ScalarTy::TU64 => {
                let mut out: Vec<u64> = Vec::new();
                let mut i: usize = 0;
                while i < v.len()
                    invariant
                        i <= v@.len(),
                        out@.len() == i as int,
                        forall|k: int| 0 <= k < v@.len() ==> (#[trigger] v@[k]).spec_ty()
                            == ScalarTy::TU64,
                        forall|j: int| 0 <= j < i ==> Const::ConstU64(out@[j]) == v@[j],
                    decreases v@.len() - i,
                {
                    match v[i] {
                        Const::ConstU64(x) => out.push(x),
                        _ => {
                            proof {
                                lemma_const_ty_inversion(v@[i as int]);
                            }
                            unreached()
                        },
                    }
                    i = i + 1;
                }
                let r = Slice::SliceU64(out);
                proof {
                    assert(r.model() =~= v@);
                }
                r
            }
            ScalarTy::TU128 => {
                let mut out: Vec<u128> = Vec::new();
                let mut i: usize = 0;
                while i < v.len()
                    invariant
                        i <= v@.len(),
                        out@.len() == i as int,
                        forall|k: int| 0 <= k < v@.len() ==> (#[trigger] v@[k]).spec_ty()
                            == ScalarTy::TU128,
                        forall|j: int| 0 <= j < i ==> Const::ConstU128(out@[j]) == v@[j],
                    decreases v@.len() - i,
                {
                    match v[i] {
                        Const::ConstU128(x) => out.push(x),
                        _ => {
                            proof {
                                lemma_const_ty_inversion(v@[i as int]);
                            }
                            unreached()
                        },
                    }
                    i = i + 1;
                }
                let r = Slice::SliceU128(out);
                proof {
                    assert(r.model() =~= v@);
                }
                r
            }
            ScalarTy::TI8 => {
                let mut out: Vec<i8> = Vec::new();
                let mut i: usize = 0;
                while i < v.len()
                    invariant
                        i <= v@.len(),
                        out@.len() == i as int,
                        forall|k: int| 0 <= k < v@.len() ==> (#[trigger] v@[k]).spec_ty()
                            == ScalarTy::TI8,
                        forall|j: int| 0 <= j < i ==> Const::ConstI8(out@[j]) == v@[j],
                    decreases v@.len() - i,
                {
                    match v[i] {
                        Const::ConstI8(x) => out.push(x),
                        _ => {
                            proof {
                                lemma_const_ty_inversion(v@[i as int]);
                            }
                            unreached()
                        },
                    }
                    i = i + 1;
                }
                let r = Slice::SliceI8(out);
                proof {
                    assert(r.model() =~= v@);
                }
                r
            }
            ScalarTy::TI16 => {
                let mut out: Vec<i16> = Vec::new();
                let mut i: usize = 0;
                while i < v.len()
                    invariant
                        i <= v@.len(),
                        out@.len() == i as int,
                        forall|k: int| 0 <= k < v@.len() ==> (#[trigger] v@[k]).spec_ty()
                            == ScalarTy::TI16,
                        forall|j: int| 0 <= j < i ==> Const::ConstI16(out@[j]) == v@[j],
                    decreases v@.len() - i,
                {
                    match v[i] {
                        Const::ConstI16(x) => out.push(x),
                        _ => {
                            proof {
                                lemma_const_ty_inversion(v@[i as int]);
                            }
                            unreached()
                        },
                    }
                    i = i + 1;
                }
                let r = Slice::SliceI16(out);
                proof {
                    assert(r.model() =~= v@);
                }
                r
            }
            ScalarTy::TI32 => {
                let mut out: Vec<i32> = Vec::new();
                let mut i: usize = 0;
                while i < v.len()
                    invariant
                        i <= v@.len(),
                        out@.len() == i as int,
                        forall|k: int| 0 <= k < v@.len() ==> (#[trigger] v@[k]).spec_ty()
                            == ScalarTy::TI32,
                        forall|j: int| 0 <= j < i ==> Const::ConstI32(out@[j]) == v@[j],
                    decreases v@.len() - i,
                {
                    match v[i] {
                        Const::ConstI32(x) => out.push(x),
                        _ => {
                            proof {
                                lemma_const_ty_inversion(v@[i as int]);
                            }
                            unreached()
                        },
                    }
                    i = i + 1;
                }
                let r = Slice::SliceI32(out);
                proof {
                    assert(r.model() =~= v@);
                }
                r
            }
            ScalarTy::TI64 => {
                let mut out: Vec<i64> = Vec::new();
                let mut i: usize = 0;
                while i < v.len()
                    invariant
                        i <= v@.len(),
                        out@.len() == i as int,
                        forall|k: int| 0 <= k < v@.len() ==> (#[trigger] v@[k]).spec_ty()
                            == ScalarTy::TI64,
                        forall|j: int| 0 <= j < i ==> Const::ConstI64(out@[j]) == v@[j],
                    decreases v@.len() - i,
                {
                    match v[i] {
                        Const::ConstI64(x) => out.push(x),
                        _ => {
                            proof {
                                lemma_const_ty_inversion(v@[i as int]);
                            }
                            unreached()
                        },
                    }
                    i = i + 1;
                }
                let r = Slice::SliceI64(out);
                proof {
                    assert(r.model() =~= v@);
                }
                r
            }
            ScalarTy::TI128 => {
                let mut out: Vec<i128> = Vec::new();
                let mut i: usize = 0;
                while i < v.len()
                    invariant
                        i <= v@.len(),
                        out@.len() == i as int,
                        forall|k: int| 0 <= k < v@.len() ==> (#[trigger] v@[k]).spec_ty()
                            == ScalarTy::TI128,
                        forall|j: int| 0 <= j < i ==> Const::ConstI128(out@[j]) == v@[j],
                    decreases v@.len() - i,
                {
                    match v[i] {
                        Const::ConstI128(x) => out.push(x),
                        _ => {
                            proof {
                                lemma_const_ty_inversion(v@[i as int]);
                            }
                            unreached()
                        },
                    }
                    i = i + 1;
                }
                let r = Slice::SliceI128(out);
                proof {
                    assert(r.model() =~= v@);
                }
                r
            }
            ScalarTy::TF32 => {
                let mut out: Vec<u32> = Vec::new();
                let mut i: usize = 0;
                while i < v.len()
                    invariant
                        i <= v@.len(),
                        out@.len() == i as int,
                        forall|k: int| 0 <= k < v@.len() ==> (#[trigger] v@[k]).spec_ty()
                            == ScalarTy::TF32,
                        forall|j: int| 0 <= j < i ==> Const::ConstF32(out@[j]) == v@[j],
                    decreases v@.len() - i,
                {
                    match v[i] {
                        Const::ConstF32(x) => out.push(x),
                        _ => {
                            proof {
                                lemma_const_ty_inversion(v@[i as int]);
                            }
                            unreached()
                        },
                    }
                    i = i + 1;
                }
                let r = Slice::SliceF32(out);
                proof {
                    assert(r.model() =~= v@);
                }
                r
            }
            ScalarTy::TF64 => {
                let mut out: Vec<u64> = Vec::new();
                let mut i: usize = 0;
                while i < v.len()
                    invariant
                        i <= v@.len(),
                        out@.len() == i as int,
                        forall|k: int| 0 <= k < v@.len() ==> (#[trigger] v@[k]).spec_ty()
                            == ScalarTy::TF64,
                        forall|j: int| 0 <= j < i ==> Const::ConstF64(out@[j]) == v@[j],
                    decreases v@.len() - i,
                {
                    match v[i] {
                        Const::ConstF64(x) => out.push(x),
                        _ => {
                            proof {
                                lemma_const_ty_inversion(v@[i as int]);
                            }
                            unreached()
                        },
                    }
                    i = i + 1;
                }
                let r = Slice::SliceF64(out);
                proof {
                    assert(r.model() =~= v@);
                }
                r
            }
        }
    }

    /// Number of elements in the column.
    pub fn len(&self) -> (r: usize)
        ensures
            r == self.model().len(),
    {
        match self {
            Slice::SliceBool(v) => v.len(),
            Slice::SliceU8(v) => v.len(),
            Slice::SliceU16(v) => v.len(),
            Slice::SliceU32(v) => v.len(),
            Slice::SliceU64(v) => v.len(),
            Slice::SliceU128(v) => v.len(),
            Slice::SliceI8(v) => v.len(),
            Slice::SliceI16(v) => v.len(),
            Slice::SliceI32(v) => v.len(),
            Slice::SliceI64(v) => v.len(),
            Slice::SliceI128(v) => v.len(),
            Slice::SliceF32(v) => v.len(),
            Slice::SliceF64(v) => v.len(),
        }
    }
}

/// Inverts `Const::spec_ty`: a constant whose type tag is known is the
/// corresponding variant.
pub proof fn lemma_const_ty_inversion(c: Const)
    ensures
        c.spec_ty() == ScalarTy::TBool ==> c is ConstBool,
        c.spec_ty() == ScalarTy::TU8 ==> c is ConstU8,
        c.spec_ty() == ScalarTy::TU16 ==> c is ConstU16,
        c.spec_ty() == ScalarTy::TU32 ==> c is ConstU32,
        c.spec_ty() == ScalarTy::TU64 ==> c is ConstU64,
        c.spec_ty() == ScalarTy::TU128 ==> c is ConstU128,
        c.spec_ty() == ScalarTy::TI8 ==> c is ConstI8,
        c.spec_ty() == ScalarTy::TI16 ==> c is ConstI16,
        c.spec_ty() == ScalarTy::TI32 ==> c is ConstI32,
        c.spec_ty() == ScalarTy::TI64 ==> c is ConstI64,
        c.spec_ty() == ScalarTy::TI128 ==> c is ConstI128,
        c.spec_ty() == ScalarTy::TF32 ==> c is ConstF32,
        c.spec_ty() == ScalarTy::TF64 ==> c is ConstF64,
{
    match c {
        Const::ConstBool(_) => {},
        Const::ConstU8(_) => {},
        Const::ConstU16(_) => {},
        Const::ConstU32(_) => {},
        Const::ConstU64(_) => {},
        Const::ConstU128(_) => {},
        Const::ConstI8(_) => {},
        Const::ConstI16(_) => {},
        Const::ConstI32(_) => {},
        Const::ConstI64(_) => {},
        Const::ConstI128(_) => {},
        Const::ConstF32(_) => {},
        Const::ConstF64(_) => {},
    }
}

impl Operand {
    /// The scalar type the operand carries.
    pub open spec fn spec_ty(self) -> ScalarTy {
        match self {
            Operand::OperandSlice(s) => s.spec_ty(),
            Operand::OperandConst(c) => c.spec_ty(),
        }
    }

    /// The scalar type the operand carries.
    pub fn get_scalar_ty(&self) -> (r: ScalarTy)
        ensures
            r == self.spec_ty(),
    {
        match self {
            Operand::OperandConst(c) => c.get_scalar_ty(),
            Operand::OperandSlice(s) => s.get_scalar_ty(),
        }
    }
}

} // verus!
