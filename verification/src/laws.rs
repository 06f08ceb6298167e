//! Laws of the evaluator, proved from the specifications of its entry
//! points.

use vstd::prelude::*;

use crate::convert::{
    lemma_conv_shape, spec_const_is_one, spec_const_is_zero, spec_conv, spec_in_range,
    spec_int_val, spec_make_int,
};
use crate::eval::{
    spec_binary_val, spec_buf_elems, spec_buf_ok, spec_conv_seq, spec_conv_val,
    spec_eval_bool_binop, spec_eval_bool_unop, spec_eval_conv, spec_eval_val_binop,
    spec_eval_val_unop, spec_len_ok, EvalCtx, EvalError, EvalShape,
};
use crate::eval::spec_unary_val;
use crate::kernels::{BinaryJob, UnaryJob};
use crate::operands::{lemma_const_ty_inversion, Const, Operand, Slice};
use crate::ops::{
    spec_bool_binop_supported, spec_bool_unop_supported, spec_val_binop_supported,
    spec_val_unop_supported, BoolBinOpCode, BoolUnOpCode, ValBinOpCode, ValUnOpCode,
};
use crate::scalar::{lemma_val_binop_shape, spec_val_binop};
use crate::scalarty::ScalarTy;

verus! {

/// The promotion lattice is commutative and idempotent, and `TBool` is
/// absorbed by any partner.
pub proof fn lemma_join_basics(a: ScalarTy, b: ScalarTy)
    ensures
        a.spec_join(b) == b.spec_join(a),
        a.spec_join(a) == a,
        a == ScalarTy::TBool && b != ScalarTy::TBool ==> a.spec_join(b) == b,
{
}

/// Type preservation: a binary value opcode on two columns yields a
/// column of the promoted type, with the left column's length.
pub proof fn lemma_type_preservation_val(ctx: EvalCtx, op: ValBinOpCode, ls: Slice, rs: Slice)
    requires
        spec_eval_val_binop(
            ctx,
            op,
            Operand::OperandSlice(ls),
            Operand::OperandSlice(rs),
        ) is Ok,
    ensures
        spec_eval_val_binop(ctx, op, Operand::OperandSlice(ls), Operand::OperandSlice(rs)) matches
            Ok(sh) && sh matches EvalShape::ShapeSlice(t, q) && t == ls.spec_ty().spec_join(
            rs.spec_ty(),
        ) && q.len() == ls.model().len() && q.len() == rs.model().len(),
{
}

/// Type preservation for predicates: a binary predicate opcode on two
/// columns yields a boolean column of the columns' length.
pub proof fn lemma_type_preservation_bool(ctx: EvalCtx, op: BoolBinOpCode, ls: Slice, rs: Slice)
    requires
        spec_eval_bool_binop(
            ctx,
            op,
            Operand::OperandSlice(ls),
            Operand::OperandSlice(rs),
        ) is Ok,
    ensures
        spec_eval_bool_binop(ctx, op, Operand::OperandSlice(ls), Operand::OperandSlice(rs)) matches
            Ok(sh) && sh matches EvalShape::ShapeSlice(t, q) && t == ScalarTy::TBool && q.len()
            == ls.model().len() && q.len() == rs.model().len(),
{
}

/// Constant folding: on two constants the evaluator returns a constant,
/// equal to applying the scalar operation to the converted operands
/// directly, whatever scratch the context holds.
pub proof fn lemma_constant_fold(
    ctx: EvalCtx,
    op: ValBinOpCode,
    lc: Const,
    rc: Const,
    cl: Const,
    cr: Const,
    v: Const,
)
    requires
        spec_conv(lc, lc.spec_ty().spec_join(rc.spec_ty())) == Ok::<Const, crate::ops::OpError>(cl),
        spec_conv(rc, lc.spec_ty().spec_join(rc.spec_ty())) == Ok::<Const, crate::ops::OpError>(cr),
        spec_val_binop(op, cl, cr) == Ok::<Const, crate::ops::OpError>(v),
    ensures
        spec_eval_val_binop(ctx, op, Operand::OperandConst(lc), Operand::OperandConst(rc)) == Ok::<
            EvalShape,
            EvalError,
        >(EvalShape::ShapeConst(v)),
{
}

/// Promotion coherence: a binary value opcode on two columns equals the
/// same opcode on the columns converted to the promoted type first, on
/// any evaluation that succeeds.
pub proof fn lemma_promotion_coherence(
    ctx: EvalCtx,
    op: ValBinOpCode,
    ls: Slice,
    rs: Slice,
    lconv: Slice,
    rconv: Slice,
)
    requires
        spec_eval_val_binop(
            ctx,
            op,
            Operand::OperandSlice(ls),
            Operand::OperandSlice(rs),
        ) is Ok,
        lconv.spec_ty() == ls.spec_ty().spec_join(rs.spec_ty()),
        rconv.spec_ty() == ls.spec_ty().spec_join(rs.spec_ty()),
        lconv.model() == spec_conv_seq(ls.model(), ls.spec_ty().spec_join(rs.spec_ty())),
        rconv.model() == spec_conv_seq(rs.model(), ls.spec_ty().spec_join(rs.spec_ty())),
    ensures
        spec_eval_val_binop(ctx, op, Operand::OperandSlice(lconv), Operand::OperandSlice(rconv))
            == spec_eval_val_binop(ctx, op, Operand::OperandSlice(ls), Operand::OperandSlice(rs)),
{
    let t = ls.spec_ty().spec_join(rs.spec_ty());
    let cl = spec_conv_seq(ls.model(), t);
    let cr = spec_conv_seq(rs.model(), t);
    lemma_join_basics(t, t);
    ls.lemma_model_tys();
    rs.lemma_model_tys();
    crate::eval::lemma_conv_seq_ok(ls.model(), ls.spec_ty(), t);
    crate::eval::lemma_conv_seq_ok(rs.model(), rs.spec_ty(), t);
    assert(spec_conv_seq(lconv.model(), t) =~= cl) by {
        assert forall|i: int|
            0 <= i < cl.len() implies spec_conv_val(cl[i], t) == cl[i] by {
            lemma_conv_shape(cl[i], t);
        };
    };
    assert(spec_conv_seq(rconv.model(), t) =~= cr) by {
        assert forall|i: int|
            0 <= i < cr.len() implies spec_conv_val(cr[i], t) == cr[i] by {
            lemma_conv_shape(cr[i], t);
        };
    };
}

/// Support-matrix totality: a binary value opcode on a promoted type
/// outside its row never succeeds, whatever the operands and scratch.
pub proof fn lemma_support_total_val_binop(
    ctx: EvalCtx,
    op: ValBinOpCode,
    lhs: Operand,
    rhs: Operand,
)
    requires
        !spec_val_binop_supported(op, lhs.spec_ty().spec_join(rhs.spec_ty())),
    ensures
        spec_eval_val_binop(ctx, op, lhs, rhs) is Err,
{
    let t = lhs.spec_ty().spec_join(rhs.spec_ty());
    match (lhs, rhs) {
        (Operand::OperandConst(lc), Operand::OperandConst(rc)) => {
            lemma_conv_shape(lc, t);
            lemma_conv_shape(rc, t);
            match spec_conv(lc, t) {
                Ok(cl) => match spec_conv(rc, t) {
                    Ok(cr) => {
                        lemma_val_binop_shape(op, cl, cr);
                    },
                    Err(_) => {},
                },
                Err(_) => {},
            }
        },
        _ => {},
    }
}

/// Support-matrix totality for binary predicates: on a boolean promoted
/// type the comparison never succeeds.
pub proof fn lemma_support_total_bool_binop(
    ctx: EvalCtx,
    op: BoolBinOpCode,
    lhs: Operand,
    rhs: Operand,
)
    requires
        !spec_bool_binop_supported(op, lhs.spec_ty().spec_join(rhs.spec_ty())),
    ensures
        spec_eval_bool_binop(ctx, op, lhs, rhs) is Err,
{
    let t = lhs.spec_ty().spec_join(rhs.spec_ty());
    match (lhs, rhs) {
        (Operand::OperandConst(lc), Operand::OperandConst(rc)) => {
            lemma_conv_shape(lc, t);
            lemma_conv_shape(rc, t);
            match spec_conv(lc, t) {
                Ok(cl) => match spec_conv(rc, t) {
                    Ok(cr) => {
                        crate::scalar::lemma_bool_binop_shape(op, cl, cr);
                    },
                    Err(_) => {},
                },
                Err(_) => {},
            }
        },
        _ => {},
    }
}

/// Support-matrix totality for unary value opcodes.
pub proof fn lemma_support_total_val_unop(ctx: EvalCtx, op: ValUnOpCode, s: Operand)
    requires
        !spec_val_unop_supported(op, s.spec_ty()),
    ensures
        spec_eval_val_unop(ctx, op, s) is Err,
{
    match s {
        Operand::OperandConst(c) => {
            crate::scalar::lemma_val_unop_shape(op, c);
        },
        _ => {},
    }
}

/// Support-matrix totality for unary predicates.
pub proof fn lemma_support_total_bool_unop(ctx: EvalCtx, op: BoolUnOpCode, s: Operand)
    requires
        !spec_bool_unop_supported(op, s.spec_ty()),
    ensures
        spec_eval_bool_unop(ctx, op, s) is Err,
{
    match s {
        Operand::OperandConst(c) => {
            crate::scalar::lemma_bool_unop_shape(op, c);
        },
        _ => {},
    }
}

/// `spec_make_int` inverts `spec_int_val`: rebuilding an integer
/// constant from its own value gives the constant back.
proof fn lemma_make_int_inverts(x: Const)
    requires
        x.spec_ty().spec_is_int(),
    ensures
        spec_make_int(x.spec_ty(), spec_int_val(x)) == x,
{
    lemma_const_ty_inversion(x);
    match x {
        Const::ConstU8(_) => {},
        Const::ConstU16(_) => {},
        Const::ConstU32(_) => {},
        Const::ConstU64(_) => {},
        Const::ConstU128(_) => {},
        Const::ConstI8(_) => {},
        Const::ConstI16(_) => {},
        Const::ConstI32(_) => {},
        Const::ConstI64(_) => {},
        Const::ConstI128(_) => {},
        _ => {},
    }
}

/// `spec_int_val` inverts `spec_make_int` on representable values.
proof fn lemma_int_val_of_make(ty: ScalarTy, v: int)
    requires
        ty.spec_is_int(),
        spec_in_range(ty, v),
    ensures
        spec_int_val(spec_make_int(ty, v)) == v,
        spec_make_int(ty, v).spec_ty() == ty,
{
}

/// Round trip between two integer types: converting a value
/// representable in both (in particular, between a signed and an
/// unsigned type of equal width) and back returns it unchanged.
pub proof fn lemma_conv_int_roundtrip(x: Const, s: ScalarTy)
    requires
        x.spec_ty().spec_is_int(),
        s.spec_is_int(),
        spec_in_range(s, spec_int_val(x)),
    ensures
        spec_conv(x, s) matches Ok(y) && spec_conv(y, x.spec_ty()) == Ok::<
            Const,
            crate::ops::OpError,
        >(x),
{
    let u = x.spec_ty();
    lemma_conv_shape(x, s);
    lemma_make_int_inverts(x);
    if u == s {
    } else {
        lemma_int_val_of_make(s, spec_int_val(x));
        match spec_conv(x, s) {
            Ok(y) => {
                lemma_conv_shape(y, u);
            },
            Err(_) => {},
        }
    }
}

/// Round trip through `TBool`: converting any non-boolean numeric value
/// to `TBool` and on to a numeric type yields that type's zero if the
/// value was zero and its one otherwise.
pub proof fn lemma_conv_bool_roundtrip(x: Const, t: ScalarTy)
    requires
        x.spec_ty() != ScalarTy::TBool,
        t != ScalarTy::TBool,
    ensures
        spec_conv(x, ScalarTy::TBool) matches Ok(b) && spec_conv(b, t) matches Ok(y) && (if spec_const_is_zero(x) {
            spec_const_is_zero(y)
        } else {
            spec_const_is_one(y)
        }),
{
    lemma_const_ty_inversion(x);
    match spec_conv(x, ScalarTy::TBool) {
        Ok(b) => {
            lemma_conv_shape(b, t);
            if t.spec_is_int() {
                lemma_int_val_of_make(t, 0);
                lemma_int_val_of_make(t, 1);
            }
        },
        Err(_) => {
            lemma_conv_shape(x, ScalarTy::TBool);
        },
    }
}

/// Identity conversion: converting an operand to its own scalar type
/// returns its value unchanged.  A constant converts unconditionally; a
/// column converts whenever the output arena admits a large enough view
/// of the type and the column's length meets the divisibility
/// discipline.
pub proof fn lemma_identity_conv(ctx: EvalCtx, s: Operand)
    ensures
        s matches Operand::OperandConst(c) ==> spec_eval_conv(ctx, s, s.spec_ty()) == Ok::<
            EvalShape,
            EvalError,
        >(EvalShape::ShapeConst(c)),
        s matches Operand::OperandSlice(sl) ==> ((spec_buf_ok(
            ctx.out@.len() as int,
            ctx.out_off as int,
            sl.spec_ty(),
        ) && spec_len_ok(sl.model().len() as int, sl.spec_ty()) && spec_buf_elems(
            ctx.out@.len() as int,
            ctx.out_off as int,
            sl.spec_ty(),
        ) >= sl.model().len()) ==> spec_eval_conv(ctx, s, s.spec_ty()) == Ok::<
            EvalShape,
            EvalError,
        >(EvalShape::ShapeSlice(sl.spec_ty(), sl.model()))),
{
    match s {
        Operand::OperandConst(c) => {
            lemma_conv_shape(c, c.spec_ty());
        },
        Operand::OperandSlice(sl) => {
            let ty = sl.spec_ty();
            sl.lemma_model_tys();
            assert(spec_conv_seq(sl.model(), ty) =~= sl.model()) by {
                assert forall|i: int|
                    0 <= i < sl.model().len() implies spec_conv_val(sl.model()[i], ty)
                    == sl.model()[i] by {
                    lemma_conv_shape(sl.model()[i], ty);
                };
            };
        },
    }
}

/// Promotion coherence for the constant shapes: a binary value opcode
/// on two constants equals the same opcode on the constants converted
/// to the promoted type first, whenever both conversions are defined.
pub proof fn lemma_promotion_coherence_const(
    ctx: EvalCtx,
    op: ValBinOpCode,
    lc: Const,
    rc: Const,
    cl: Const,
    cr: Const,
)
    requires
        spec_conv(lc, lc.spec_ty().spec_join(rc.spec_ty())) == Ok::<Const, crate::ops::OpError>(cl),
        spec_conv(rc, lc.spec_ty().spec_join(rc.spec_ty())) == Ok::<Const, crate::ops::OpError>(cr),
    ensures
        spec_eval_val_binop(ctx, op, Operand::OperandConst(cl), Operand::OperandConst(cr))
            == spec_eval_val_binop(ctx, op, Operand::OperandConst(lc), Operand::OperandConst(rc)),
{
    let t = lc.spec_ty().spec_join(rc.spec_ty());
    lemma_conv_shape(lc, t);
    lemma_conv_shape(rc, t);
    lemma_join_basics(t, t);
    lemma_conv_shape(cl, t);
    lemma_conv_shape(cr, t);
}

/// Chunk independence: a successful column evaluation is exactly the
/// scalar operation applied element by element to the converted
/// columns; the chunked parallel execution leaves no trace in the
/// result.
pub proof fn lemma_chunk_independence(ctx: EvalCtx, op: ValBinOpCode, ls: Slice, rs: Slice)
    requires
        spec_eval_val_binop(
            ctx,
            op,
            Operand::OperandSlice(ls),
            Operand::OperandSlice(rs),
        ) is Ok,
    ensures
        spec_eval_val_binop(ctx, op, Operand::OperandSlice(ls), Operand::OperandSlice(rs)) matches
            Ok(sh) && sh matches EvalShape::ShapeSlice(t, q) && q.len() == ls.model().len()
            && (forall|i: int|
            0 <= i < q.len() ==> #[trigger] q[i] == spec_binary_val(
                BinaryJob::JobValBin(op),
                spec_conv_val(ls.model()[i], t),
                spec_conv_val(rs.model()[i], t),
            )),
{
}

/// Promotion coherence for the slice-against-constant shape.
pub proof fn lemma_promotion_coherence_sc(
    ctx: EvalCtx,
    op: ValBinOpCode,
    ls: Slice,
    rc: Const,
    lconv: Slice,
    rcconv: Const,
)
    requires
        spec_eval_val_binop(
            ctx,
            op,
            Operand::OperandSlice(ls),
            Operand::OperandConst(rc),
        ) is Ok,
        lconv.spec_ty() == ls.spec_ty().spec_join(rc.spec_ty()),
        lconv.model() == spec_conv_seq(ls.model(), ls.spec_ty().spec_join(rc.spec_ty())),
        spec_conv(rc, ls.spec_ty().spec_join(rc.spec_ty())) == Ok::<Const, crate::ops::OpError>(
            rcconv,
        ),
    ensures
        spec_eval_val_binop(ctx, op, Operand::OperandSlice(lconv), Operand::OperandConst(rcconv))
            == spec_eval_val_binop(ctx, op, Operand::OperandSlice(ls), Operand::OperandConst(rc)),
{
    let t = ls.spec_ty().spec_join(rc.spec_ty());
    let cl = spec_conv_seq(ls.model(), t);
    lemma_join_basics(t, t);
    lemma_conv_shape(rc, t);
    lemma_conv_shape(rcconv, t);
    ls.lemma_model_tys();
    crate::eval::lemma_conv_seq_ok(ls.model(), ls.spec_ty(), t);
    assert(spec_conv_seq(lconv.model(), t) =~= cl) by {
        assert forall|i: int| 0 <= i < cl.len() implies spec_conv_val(cl[i], t) == cl[i] by {
            lemma_conv_shape(cl[i], t);
        };
    };
}

/// Promotion coherence for the constant-against-slice shape.
pub proof fn lemma_promotion_coherence_cs(
    ctx: EvalCtx,
    op: ValBinOpCode,
    lc: Const,
    rs: Slice,
    lcconv: Const,
    rconv: Slice,
)
    requires
        spec_eval_val_binop(
            ctx,
            op,
            Operand::OperandConst(lc),
            Operand::OperandSlice(rs),
        ) is Ok,
        rconv.spec_ty() == lc.spec_ty().spec_join(rs.spec_ty()),
        rconv.model() == spec_conv_seq(rs.model(), lc.spec_ty().spec_join(rs.spec_ty())),
        spec_conv(lc, lc.spec_ty().spec_join(rs.spec_ty())) == Ok::<Const, crate::ops::OpError>(
            lcconv,
        ),
    ensures
        spec_eval_val_binop(ctx, op, Operand::OperandConst(lcconv), Operand::OperandSlice(rconv))
            == spec_eval_val_binop(ctx, op, Operand::OperandConst(lc), Operand::OperandSlice(rs)),
{
    let t = lc.spec_ty().spec_join(rs.spec_ty());
    let cr = spec_conv_seq(rs.model(), t);
    lemma_join_basics(t, t);
    lemma_conv_shape(lc, t);
    lemma_conv_shape(lcconv, t);
    rs.lemma_model_tys();
    crate::eval::lemma_conv_seq_ok(rs.model(), rs.spec_ty(), t);
    assert(spec_conv_seq(rconv.model(), t) =~= cr) by {
        assert forall|i: int| 0 <= i < cr.len() implies spec_conv_val(cr[i], t) == cr[i] by {
            lemma_conv_shape(cr[i], t);
        };
    };
}

/// Chunk independence for predicates: a successful comparison of two
/// columns is the scalar comparison applied element by element.
pub proof fn lemma_chunk_independence_bool(ctx: EvalCtx, op: BoolBinOpCode, ls: Slice, rs: Slice)
    requires
        spec_eval_bool_binop(
            ctx,
            op,
            Operand::OperandSlice(ls),
            Operand::OperandSlice(rs),
        ) is Ok,
    ensures
        spec_eval_bool_binop(ctx, op, Operand::OperandSlice(ls), Operand::OperandSlice(rs)) matches
            Ok(sh) && sh matches EvalShape::ShapeSlice(t, q) && q.len() == ls.model().len()
            && (forall|i: int|
            0 <= i < q.len() ==> #[trigger] q[i] == spec_binary_val(
                BinaryJob::JobBoolBin(op),
                spec_conv_val(ls.model()[i], ls.spec_ty().spec_join(rs.spec_ty())),
                spec_conv_val(rs.model()[i], ls.spec_ty().spec_join(rs.spec_ty())),
            )),
{
}

/// Chunk independence for unary opcodes: a successful unary evaluation
/// of a column is the scalar operation applied element by element.
pub proof fn lemma_chunk_independence_unop(ctx: EvalCtx, op: ValUnOpCode, sl: Slice)
    requires
        spec_eval_val_unop(ctx, op, Operand::OperandSlice(sl)) is Ok,
    ensures
        spec_eval_val_unop(ctx, op, Operand::OperandSlice(sl)) matches Ok(sh) && sh matches
            EvalShape::ShapeSlice(t, q) && t == sl.spec_ty() && q.len() == sl.model().len() && (
        forall|i: int|
            0 <= i < q.len() ==> #[trigger] q[i] == spec_unary_val(
                UnaryJob::JobValUn(op),
                spec_conv_val(sl.model()[i], sl.spec_ty()),
            )),
{
}

/// Chunk independence for unary predicates: a successful classification
/// of a column is the scalar classification applied element by element.
pub proof fn lemma_chunk_independence_bool_unop(ctx: EvalCtx, op: BoolUnOpCode, sl: Slice)
    requires
        spec_eval_bool_unop(ctx, op, Operand::OperandSlice(sl)) is Ok,
    ensures
        spec_eval_bool_unop(ctx, op, Operand::OperandSlice(sl)) matches Ok(sh) && sh matches
            EvalShape::ShapeSlice(t, q) && t == ScalarTy::TBool && q.len() == sl.model().len() && (
        forall|i: int|
            0 <= i < q.len() ==> #[trigger] q[i] == spec_unary_val(
                UnaryJob::JobBoolUn(op),
                spec_conv_val(sl.model()[i], sl.spec_ty()),
            )),
{
}

} // verus!
