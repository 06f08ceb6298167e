//! The evaluator: scratch validation, promotion, and the entry points.
//!
//! Every evaluation step runs against an `EvalCtx` holding three byte
//! arenas: two for converted copies of the inputs and one for the
//! output.  The context is consumed by the call.  Before any work, the
//! arenas are validated: the view of an arena as elements of a scalar
//! type exists only when the view's byte offset is a multiple of the
//! type's natural alignment and the remaining byte length is an exact
//! multiple of the element size, and every column length must be an
//! exact multiple of the per-chunk and per-step element counts.  Any
//! violation is `BadBuffer`.
//!
//! The behaviour of each entry point is stated by a `spec_eval_*`
//! function that mirrors the evaluation decision by decision: which
//! checks run in which order, which error each failure yields, and the
//! element-by-element description of the produced column.  The produced
//! column is returned as an owned value; the arenas are the validated
//! staging capacity the evaluation works through.

use vstd::prelude::*;

use crate::consts::{chunksz_min, spec_chunksz, spec_stepsz, stepsz_min};
use crate::convert::{conv_scalar, conv_supported, lemma_conv_shape, spec_conv, spec_conv_supported};
use crate::kernels::{
    lemma_binary_elem_shape, lemma_unary_elem_shape, run_binary, run_unary, spec_binary_elem,
    spec_unary_elem, spec_unary_ok_ty, spec_unary_out_ty, BinaryJob, UnaryJob,
};
use crate::operands::{Const, Operand, Slice};
use crate::ops::{
    bool_binop_supported, bool_unop_supported, spec_bool_binop_supported,
    spec_bool_unop_supported, spec_val_binop_supported, spec_val_unop_supported,
    val_binop_supported, val_unop_supported, BoolBinOpCode, BoolUnOpCode, ValBinOpCode,
    ValUnOpCode,
};
use crate::scalar::{
    spec_bool_binop, spec_bool_unop, spec_val_binop, spec_val_binop_values_ok, spec_val_unop,
};
use crate::scalarty::ScalarTy;

verus! {

/// The two ways an evaluation can fail.
#[derive(Clone, Copy, Debug, PartialEq, Eq, Structural)]
pub enum EvalError {
    /// The combination of opcode and promoted scalar type has no kernel,
    /// a needed conversion is not defined, or an integer division has no
    /// defined result for some pair of elements.
    UnsupportedOp,
    /// A scratch arena failed alignment, size-multiple or
    /// chunk-divisibility validation, or is too small for the column.
    BadBuffer,
}

/// The scratch context of one evaluation: three byte arenas, each used
/// from the given byte offset within its backing vector.  The backing
/// vector's start is the alignment origin, so a view at offset `o` with
/// element size `s` is aligned exactly when `o % s == 0`.  The context
/// is consumed by the evaluation.
pub struct EvalCtx {
    pub tmp1: Vec<u8>,
    pub tmp1_off: usize,
    pub tmp2: Vec<u8>,
    pub tmp2_off: usize,
    pub out: Vec<u8>,
    pub out_off: usize,
}

impl EvalCtx {
    /// A context using three whole vectors as its arenas.
    pub fn new(tmp1: Vec<u8>, tmp2: Vec<u8>, out: Vec<u8>) -> (r: EvalCtx)
        ensures
            r.tmp1 == tmp1,
            r.tmp2 == tmp2,
            r.out == out,
            r.tmp1_off == 0,
            r.tmp2_off == 0,
            r.out_off == 0,
    {
        EvalCtx { tmp1, tmp1_off: 0, tmp2, tmp2_off: 0, out, out_off: 0 }
    }
}

/// Whether a byte arena of length `len`, viewed from byte offset `off`,
/// can be reinterpreted as elements of type `ty`: the offset lies within
/// the arena, is aligned to the type's natural alignment, and the
/// remaining length is an exact multiple of the element size.
pub open spec fn spec_buf_ok(len: int, off: int, ty: ScalarTy) -> bool {
    off <= len && off % ty.spec_size() == 0 && (len - off) % ty.spec_size() == 0
}

/// The element count of the view described by `spec_buf_ok`.
pub open spec fn spec_buf_elems(len: int, off: int, ty: ScalarTy) -> int {
    (len - off) / ty.spec_size()
}

/// Whether a column of `n` elements of type `ty` meets the chunk and
/// step divisibility discipline.  A zero length is a multiple of both
/// counts, so an empty column is accepted.
pub open spec fn spec_len_ok(n: int, ty: ScalarTy) -> bool {
    n % spec_chunksz(ty, ty) == 0 && n % spec_stepsz(ty, ty) == 0
}

/// Returns the count of `ty` elements that fit in the arena `buf` viewed
/// from byte offset `off`, or `BadBuffer` if the view fails alignment or
/// size-multiple validation.
pub fn check_align_and_size(buf: &Vec<u8>, off: usize, ty: ScalarTy) -> (r: Result<
    usize,
    EvalError,
>)
    ensures
        spec_buf_ok(buf@.len() as int, off as int, ty) ==> (r matches Ok(m) && m
            == spec_buf_elems(buf@.len() as int, off as int, ty)),
        !spec_buf_ok(buf@.len() as int, off as int, ty) ==> r == Err::<usize, EvalError>(
            EvalError::BadBuffer,
        ),
{
    let sz = ty.size_bytes();
    if off > buf.len() {
        return Err(EvalError::BadBuffer);
    }
    if off % sz != 0 {
        return Err(EvalError::BadBuffer);
    }
    let rem = buf.len() - off;
    if rem % sz != 0 {
        return Err(EvalError::BadBuffer);
    }
    Ok(rem / sz)
}

/// Checks that the two column lengths agree, or returns `BadBuffer`.
pub fn check_equal_lengths(n: usize, m: usize) -> (r: Result<(), EvalError>)
    ensures
        r == (if n == m {
            Ok::<(), EvalError>(())
        } else {
            Err::<(), EvalError>(EvalError::BadBuffer)
        }),
{
    if n != m {
        return Err(EvalError::BadBuffer);
    }
    Ok(())
}

/// Checks that a column length `n` of element type `ty` is an exact
/// multiple of the chunk and step element counts, or returns
/// `BadBuffer`.
pub fn check_ok_length(n: usize, ty: ScalarTy) -> (r: Result<(), EvalError>)
    ensures
        r == (if spec_len_ok(n as int, ty) {
            Ok::<(), EvalError>(())
        } else {
            Err::<(), EvalError>(EvalError::BadBuffer)
        }),
{
    let ch = chunksz_min(ty, ty);
    let v = stepsz_min(ty, ty);
    if n % ch != 0 {
        return Err(EvalError::BadBuffer);
    }
    if n % v != 0 {
        return Err(EvalError::BadBuffer);
    }
    Ok(())
}

/// Bounds an output view of `avail` elements down to the `n` elements
/// the column needs: `n` must meet the divisibility discipline of the
/// bounding type and fit into the view, or `BadBuffer`.
pub fn bound_output_length(avail: usize, n: usize, bound_ty: ScalarTy) -> (r: Result<
    usize,
    EvalError,
>)
    ensures
        r == (if spec_len_ok(n as int, bound_ty) && avail >= n {
            Ok::<usize, EvalError>(n)
        } else {
            Err::<usize, EvalError>(EvalError::BadBuffer)
        }),
{
    if let Err(e) = check_ok_length(n, bound_ty) {
        return Err(e);
    }
    if avail < n {
        return Err(EvalError::BadBuffer);
    }
    Ok(n)
}

/// The shape of an evaluation result: a column, given by its element
/// type and its model, or a single scalar.
pub enum EvalShape {
    ShapeSlice(ScalarTy, Seq<Const>),
    ShapeConst(Const),
}

/// Whether the operand `o` is what the shape `s` describes.
pub open spec fn operand_has_shape(o: Operand, s: EvalShape) -> bool {
    match s {
        EvalShape::ShapeConst(c) => o == Operand::OperandConst(c),
        EvalShape::ShapeSlice(t, q) => o matches Operand::OperandSlice(sl) && sl.spec_ty() == t
            && sl.model() == q,
    }
}

/// The value `spec_conv` yields on a supported conversion.
pub open spec fn spec_conv_val(c: Const, t: ScalarTy) -> Const {
    match spec_conv(c, t) {
        Ok(v) => v,
        Err(_) => c,
    }
}

/// A column converted element by element to type `t`.
pub open spec fn spec_conv_seq(s: Seq<Const>, t: ScalarTy) -> Seq<Const> {
    Seq::new(s.len(), |i: int| spec_conv_val(s[i], t))
}

/// Converting a column whose elements carry `sty` to a supported target
/// type yields elements of that type.
pub proof fn lemma_conv_seq_ok(s: Seq<Const>, sty: ScalarTy, t: ScalarTy)
    requires
        spec_conv_supported(sty, t),
        forall|i: int| 0 <= i < s.len() ==> (#[trigger] s[i]).spec_ty() == sty,
    ensures
        forall|i: int| 0 <= i < s.len() ==> (#[trigger] spec_conv(s[i], t)) is Ok,
        forall|i: int|
            0 <= i < s.len() ==> (#[trigger] spec_conv_seq(s, t)[i]).spec_ty() == t,
{
    assert forall|i: int| 0 <= i < s.len() implies (#[trigger] spec_conv(s[i], t)) is Ok by {
        lemma_conv_shape(s[i], t);
    };
    assert forall|i: int|
        0 <= i < s.len() implies (#[trigger] spec_conv_seq(s, t)[i]).spec_ty() == t by {
        lemma_conv_shape(s[i], t);
    };
}

/// Converting a column into an arena view of `avail` elements, as the
/// evaluator does it: the column length must meet the source type's
/// divisibility discipline and fit in the view (`BadBuffer` otherwise),
/// and the conversion must be defined (`UnsupportedOp` otherwise).
pub open spec fn spec_conv_into(avail: int, t: ScalarTy, s: Seq<Const>, sty: ScalarTy) -> Result<
    Seq<Const>,
    EvalError,
> {
    if !spec_len_ok(s.len() as int, sty) {
        Err(EvalError::BadBuffer)
    } else if avail < s.len() {
        Err(EvalError::BadBuffer)
    } else if !spec_conv_supported(sty, t) {
        Err(EvalError::UnsupportedOp)
    } else {
        Ok(spec_conv_seq(s, t))
    }
}

/// Converts the elements of a column into an arena view of `avail`
/// elements, as `spec_conv_into` states.
fn conv_into(avail: usize, t: ScalarTy, s: &Vec<Const>, sty: ScalarTy) -> (r: Result<
    Vec<Const>,
    EvalError,
>)
    requires
        forall|i: int| 0 <= i < s@.len() ==> (#[trigger] s@[i]).spec_ty() == sty,
    ensures
        spec_conv_into(avail as int, t, s@, sty) matches Err(e) ==> r == Err::<
            Vec<Const>,
            EvalError,
        >(e),
        spec_conv_into(avail as int, t, s@, sty) matches Ok(q) ==> r matches Ok(v) && v@ == q,
{
    if let Err(e) = check_ok_length(s.len(), sty) {
        return Err(e);
    }
    if avail < s.len() {
        return Err(EvalError::BadBuffer);
    }
    if !conv_supported(sty, t) {
        return Err(EvalError::UnsupportedOp);
    }
    proof {
        lemma_conv_seq_ok(s@, sty, t);
    }
    let csz = chunksz_min(sty, sty);
    let out = run_unary(UnaryJob::JobConv(t), s, csz);
    proof {
        assert(out@ =~= spec_conv_seq(s@, t));
    }
    Ok(out)
}

/// Converts an operand to the scalar type `ty`, consuming the context.
///
/// A constant converts without touching the scratch; a column is
/// converted through the output arena, which must admit a `ty`-typed
/// view large enough for the column.
pub open spec fn spec_eval_conv(ctx: EvalCtx, s: Operand, ty: ScalarTy) -> Result<
    EvalShape,
    EvalError,
> {
    match s {
        Operand::OperandConst(c) => match spec_conv(c, ty) {
            Ok(v) => Ok(EvalShape::ShapeConst(v)),
            Err(_) => Err(EvalError::UnsupportedOp),
        },
        Operand::OperandSlice(sl) => if !spec_buf_ok(
            ctx.out@.len() as int,
            ctx.out_off as int,
            ty,
        ) {
            Err(EvalError::BadBuffer)
        } else {
            match spec_conv_into(
                spec_buf_elems(ctx.out@.len() as int, ctx.out_off as int, ty),
                ty,
                sl.model(),
                sl.spec_ty(),
            ) {
                Ok(q) => Ok(EvalShape::ShapeSlice(ty, q)),
                Err(e) => Err(e),
            }
        },
    }
}

impl EvalCtx {
    /// Converts an `Operand` to a given `ScalarTy`, as `spec_eval_conv`
    /// states.
    pub fn conv(self, s: &Operand, ty: ScalarTy) -> (r: Result<Operand, EvalError>)
        ensures
            spec_eval_conv(self, *s, ty) matches Err(e) ==> r == Err::<Operand, EvalError>(e),
            spec_eval_conv(self, *s, ty) matches Ok(sh) ==> r matches Ok(o) && operand_has_shape(
                o,
                sh,
            ),
    {
        match s {
            Operand::OperandConst(c) => match conv_scalar(c, ty) {
                Ok(v) => Ok(Operand::OperandConst(v)),
                Err(_) => Err(EvalError::UnsupportedOp),
            },
            Operand::OperandSlice(sl) => {
                let m = match check_align_and_size(&self.out, self.out_off, ty) {
                    Ok(m) => m,
                    Err(e) => return Err(e),
                };
                let sty = sl.get_scalar_ty();
                let src = sl.to_consts();
                proof {
                    sl.lemma_model_tys();
                }
                let cv = match conv_into(m, ty, &src, sty) {
                    Ok(v) => v,
                    Err(e) => return Err(e),
                };
                proof {
                    if spec_conv_supported(sty, ty) {
                        lemma_conv_seq_ok(src@, sty, ty);
                    }
                }
                Ok(Operand::OperandSlice(Slice::from_consts(ty, &cv)))
            },
        }
    }
}

/// A column of `n` copies of one scalar.
pub open spec fn spec_const_seq(n: nat, c: Const) -> Seq<Const> {
    Seq::new(n, |i: int| c)
}

/// The value a unary job yields on an element it is defined on.
pub open spec fn spec_unary_val(job: UnaryJob, c: Const) -> Const {
    match spec_unary_elem(job, c) {
        Ok(v) => v,
        Err(_) => c,
    }
}

/// A column mapped element by element through a unary job.
pub open spec fn spec_unary_vals(job: UnaryJob, s: Seq<Const>) -> Seq<Const> {
    Seq::new(s.len(), |i: int| spec_unary_val(job, s[i]))
}

/// The value a binary job yields on a pair it is defined on.
pub open spec fn spec_binary_val(job: BinaryJob, a: Const, b: Const) -> Const {
    match spec_binary_elem(job, a, b) {
        Ok(v) => v,
        Err(_) => a,
    }
}

/// Two columns combined element by element through a binary job.
pub open spec fn spec_binary_vals(job: BinaryJob, a: Seq<Const>, b: Seq<Const>) -> Seq<Const> {
    Seq::new(a.len(), |i: int| spec_binary_val(job, a[i], b[i]))
}

/// Whether every element pair of the two columns satisfies the division
/// side condition of `op`.
pub open spec fn spec_all_values_ok(op: ValBinOpCode, a: Seq<Const>, b: Seq<Const>) -> bool {
    forall|i: int|
        0 <= i < a.len() ==> #[trigger] spec_val_binop_values_ok(op, a[i], b[i])
}

/// Decides `spec_all_values_ok` executably.
fn val_values_ok(op: ValBinOpCode, a: &Vec<Const>, b: &Vec<Const>) -> (r: bool)
    requires
        a@.len() == b@.len(),
    ensures
        r == spec_all_values_ok(op, a@, b@),
{
    let mut i: usize = 0;
    while i < a.len()
        invariant
            a@.len() == b@.len(),
            i <= a@.len(),
            forall|j: int| 0 <= j < i ==> #[trigger] spec_val_binop_values_ok(op, a@[j], b@[j]),
        decreases a@.len() - i,
    {
        let x = a[i];
        let y = b[i];
        if !crate::scalar::val_binop_values_ok(op, &x, &y) {
            proof {
                assert(!spec_val_binop_values_ok(op, a@[i as int], b@[i as int]));
            }
            return false;
        }
        i = i + 1;
    }
    true
}

/// A column of `n` copies of one scalar.
fn broadcast_const(c: Const, n: usize) -> (r: Vec<Const>)
    ensures
        r@ == spec_const_seq(n as nat, c),
{
    let mut out: Vec<Const> = Vec::new();
    let mut i: usize = 0;
    while i < n
        invariant
            i <= n,
            out@.len() == i,
            forall|j: int| 0 <= j < i ==> out@[j] == c,
        decreases n - i,
    {
        out.push(c);
        i = i + 1;
    }
    proof {
        assert(out@ =~= spec_const_seq(n as nat, c));
    }
    out
}

/// The slice-against-slice case of a binary value opcode.
pub open spec fn spec_val_binop_ss(
    ctx: EvalCtx,
    op: ValBinOpCode,
    t: ScalarTy,
    ls: Slice,
    rs: Slice,
) -> Result<EvalShape, EvalError> {
    if !spec_buf_ok(ctx.tmp1@.len() as int, ctx.tmp1_off as int, t) {
        Err(EvalError::BadBuffer)
    } else if !spec_buf_ok(ctx.tmp2@.len() as int, ctx.tmp2_off as int, t) {
        Err(EvalError::BadBuffer)
    } else if !spec_buf_ok(ctx.out@.len() as int, ctx.out_off as int, t) {
        Err(EvalError::BadBuffer)
    } else {
        let m1 = spec_buf_elems(ctx.tmp1@.len() as int, ctx.tmp1_off as int, t);
        let m2 = spec_buf_elems(ctx.tmp2@.len() as int, ctx.tmp2_off as int, t);
        let m3 = spec_buf_elems(ctx.out@.len() as int, ctx.out_off as int, t);
        match spec_conv_into(m1, t, ls.model(), ls.spec_ty()) {
            Err(e) => Err(e),
            Ok(cl) => match spec_conv_into(m2, t, rs.model(), rs.spec_ty()) {
                Err(e) => Err(e),
                Ok(cr) => if !(spec_len_ok(cr.len() as int, t) && m3 >= cr.len()) {
                    Err(EvalError::BadBuffer)
                } else if cl.len() != cr.len() {
                    Err(EvalError::BadBuffer)
                } else if !spec_val_binop_supported(op, t) {
                    Err(EvalError::UnsupportedOp)
                } else if !spec_all_values_ok(op, cl, cr) {
                    Err(EvalError::UnsupportedOp)
                } else {
                    Ok(EvalShape::ShapeSlice(t, spec_binary_vals(BinaryJob::JobValBin(op), cl, cr)))
                },
            },
        }
    }
}

/// The slice-against-constant case of a binary value opcode.
pub open spec fn spec_val_binop_sc(
    ctx: EvalCtx,
    op: ValBinOpCode,
    t: ScalarTy,
    ls: Slice,
    rc: Const,
) -> Result<EvalShape, EvalError> {
    if !spec_buf_ok(ctx.tmp1@.len() as int, ctx.tmp1_off as int, t) {
        Err(EvalError::BadBuffer)
    } else if !spec_buf_ok(ctx.out@.len() as int, ctx.out_off as int, t) {
        Err(EvalError::BadBuffer)
    } else {
        let m1 = spec_buf_elems(ctx.tmp1@.len() as int, ctx.tmp1_off as int, t);
        let m3 = spec_buf_elems(ctx.out@.len() as int, ctx.out_off as int, t);
        match spec_conv_into(m1, t, ls.model(), ls.spec_ty()) {
            Err(e) => Err(e),
            Ok(cl) => match spec_conv(rc, t) {
                Err(_) => Err(EvalError::UnsupportedOp),
                Ok(cv) => if !(spec_len_ok(cl.len() as int, t) && m3 >= cl.len()) {
                    Err(EvalError::BadBuffer)
                } else if !spec_val_binop_supported(op, t) {
                    Err(EvalError::UnsupportedOp)
                } else if !spec_all_values_ok(op, cl, spec_const_seq(cl.len(), cv)) {
                    Err(EvalError::UnsupportedOp)
                } else {
                    Ok(
                        EvalShape::ShapeSlice(
                            t,
                            spec_binary_vals(
                                BinaryJob::JobValBin(op),
                                cl,
                                spec_const_seq(cl.len(), cv),
                            ),
                        ),
                    )
                },
            },
        }
    }
}

/// The constant-against-slice case of a binary value opcode.
pub open spec fn spec_val_binop_cs(
    ctx: EvalCtx,
    op: ValBinOpCode,
    t: ScalarTy,
    lc: Const,
    rs: Slice,
) -> Result<EvalShape, EvalError> {
    if !spec_buf_ok(ctx.tmp2@.len() as int, ctx.tmp2_off as int, t) {
        Err(EvalError::BadBuffer)
    } else if !spec_buf_ok(ctx.out@.len() as int, ctx.out_off as int, t) {
        Err(EvalError::BadBuffer)
    } else {
        let m2 = spec_buf_elems(ctx.tmp2@.len() as int, ctx.tmp2_off as int, t);
        let m3 = spec_buf_elems(ctx.out@.len() as int, ctx.out_off as int, t);
        match spec_conv(lc, t) {
            Err(_) => Err(EvalError::UnsupportedOp),
            Ok(cv) => match spec_conv_into(m2, t, rs.model(), rs.spec_ty()) {
                Err(e) => Err(e),
                Ok(cr) => if !(spec_len_ok(cr.len() as int, t) && m3 >= cr.len()) {
                    Err(EvalError::BadBuffer)
                } else if !spec_val_binop_supported(op, t) {
                    Err(EvalError::UnsupportedOp)
                } else if !spec_all_values_ok(op, spec_const_seq(cr.len(), cv), cr) {
                    Err(EvalError::UnsupportedOp)
                } else {
                    Ok(
                        EvalShape::ShapeSlice(
                            t,
                            spec_binary_vals(
                                BinaryJob::JobValBin(op),
                                spec_const_seq(cr.len(), cv),
                                cr,
                            ),
                        ),
                    )
                },
            },
        }
    }
}

/// The constant-against-constant case of a binary value opcode: a pure
/// fold, not touching the scratch.
pub open spec fn spec_val_binop_cc(op: ValBinOpCode, t: ScalarTy, lc: Const, rc: Const) -> Result<
    EvalShape,
    EvalError,
> {
    match spec_conv(lc, t) {
        Err(_) => Err(EvalError::UnsupportedOp),
        Ok(cl) => match spec_conv(rc, t) {
            Err(_) => Err(EvalError::UnsupportedOp),
            Ok(cr) => match spec_val_binop(op, cl, cr) {
                Ok(v) => Ok(EvalShape::ShapeConst(v)),
                Err(_) => Err(EvalError::UnsupportedOp),
            },
        },
    }
}

/// A binary value opcode applied to two operands: both sides are
/// promoted to the join of their types and combined element by element.
pub open spec fn spec_eval_val_binop(
    ctx: EvalCtx,
    op: ValBinOpCode,
    lhs: Operand,
    rhs: Operand,
) -> Result<EvalShape, EvalError> {
    let t = lhs.spec_ty().spec_join(rhs.spec_ty());
    match (lhs, rhs) {
        (Operand::OperandSlice(ls), Operand::OperandSlice(rs)) => spec_val_binop_ss(
            ctx,
            op,
            t,
            ls,
            rs,
        ),
        (Operand::OperandSlice(ls), Operand::OperandConst(rc)) => spec_val_binop_sc(
            ctx,
            op,
            t,
            ls,
            rc,
        ),
        (Operand::OperandConst(lc), Operand::OperandSlice(rs)) => spec_val_binop_cs(
            ctx,
            op,
            t,
            lc,
            rs,
        ),
        (Operand::OperandConst(lc), Operand::OperandConst(rc)) => spec_val_binop_cc(op, t, lc, rc),
    }
}

/// Proves every pair of a binary value job's inputs defined, and the
/// output types, for two columns of element type `t`.
proof fn lemma_val_columns_ok(op: ValBinOpCode, t: ScalarTy, a: Seq<Const>, b: Seq<Const>)
    requires
        a.len() == b.len(),
        forall|i: int| 0 <= i < a.len() ==> (#[trigger] a[i]).spec_ty() == t,
        forall|i: int| 0 <= i < b.len() ==> (#[trigger] b[i]).spec_ty() == t,
        spec_val_binop_supported(op, t),
        spec_all_values_ok(op, a, b),
    ensures
        forall|i: int|
            0 <= i < a.len() ==> (#[trigger] spec_binary_elem(
                BinaryJob::JobValBin(op),
                a[i],
                b[i],
            )) is Ok,
        forall|i: int|
            0 <= i < a.len() ==> (#[trigger] spec_binary_vals(BinaryJob::JobValBin(op), a, b)[i])
                .spec_ty() == t,
{
    let job = BinaryJob::JobValBin(op);
    assert forall|i: int|
        0 <= i < a.len() implies (#[trigger] spec_binary_elem(job, a[i], b[i])) is Ok by {
        lemma_binary_elem_shape(job, a[i], b[i]);
    };
    assert forall|i: int|
        0 <= i < a.len() implies (#[trigger] spec_binary_vals(job, a, b)[i]).spec_ty() == t by {
        lemma_binary_elem_shape(job, a[i], b[i]);
    };
}

impl EvalCtx {
    /// Performs a given `ValBinOpCode` on a pair of `Operand`s, as
    /// `spec_eval_val_binop` states.
    #[verifier::spinoff_prover]
    #[verifier::rlimit(80)]
    pub fn val_binop(self, op: ValBinOpCode, lhs: &Operand, rhs: &Operand) -> (r: Result<
        Operand,
        EvalError,
    >)
        ensures
            spec_eval_val_binop(self, op, *lhs, *rhs) matches Err(e) ==> r == Err::<
                Operand,
                EvalError,
            >(e),
            spec_eval_val_binop(self, op, *lhs, *rhs) matches Ok(sh) ==> (r matches Ok(o)
                && operand_has_shape(o, sh)),
    {
        let t = lhs.get_scalar_ty().join(rhs.get_scalar_ty());
        match (lhs, rhs) {
            (Operand::OperandSlice(ls), Operand::OperandSlice(rs)) => {
                let m1 = match check_align_and_size(&self.tmp1, self.tmp1_off, t) {
                    Ok(m) => m,
                    Err(e) => return Err(e),
                };
                let m2 = match check_align_and_size(&self.tmp2, self.tmp2_off, t) {
                    Ok(m) => m,
                    Err(e) => return Err(e),
                };
                let m3 = match check_align_and_size(&self.out, self.out_off, t) {
                    Ok(m) => m,
                    Err(e) => return Err(e),
                };
                let lc = ls.to_consts();
                let rc = rs.to_consts();
                proof {
                    ls.lemma_model_tys();
                    rs.lemma_model_tys();
                }
                let cl = match conv_into(m1, t, &lc, ls.get_scalar_ty()) {
                    Ok(v) => v,
                    Err(e) => return Err(e),
                };
                let cr = match conv_into(m2, t, &rc, rs.get_scalar_ty()) {
                    Ok(v) => v,
                    Err(e) => return Err(e),
                };
                proof {
                    lemma_conv_seq_ok(lc@, ls.spec_ty(), t);
                    lemma_conv_seq_ok(rc@, rs.spec_ty(), t);
                }
                if let Err(e) = bound_output_length(m3, cr.len(), t) {
                    return Err(e);
                }
                if let Err(e) = check_equal_lengths(cl.len(), cr.len()) {
                    return Err(e);
                }
                if !val_binop_supported(op, t) {
                    return Err(EvalError::UnsupportedOp);
                }
                if !val_values_ok(op, &cl, &cr) {
                    return Err(EvalError::UnsupportedOp);
                }
                proof {
                    lemma_val_columns_ok(op, t, cl@, cr@);
                }
                let csz = chunksz_min(t, t);
                let res = run_binary(BinaryJob::JobValBin(op), &cl, &cr, csz);
                proof {
                    assert(res@ =~= spec_binary_vals(BinaryJob::JobValBin(op), cl@, cr@));
                }
                Ok(Operand::OperandSlice(Slice::from_consts(t, &res)))
            },
            (Operand::OperandSlice(ls), Operand::OperandConst(rco)) => {
                let m1 = match check_align_and_size(&self.tmp1, self.tmp1_off, t) {
                    Ok(m) => m,
                    Err(e) => return Err(e),
                };
                let m3 = match check_align_and_size(&self.out, self.out_off, t) {
                    Ok(m) => m,
                    Err(e) => return Err(e),
                };
                let lc = ls.to_consts();
                proof {
                    ls.lemma_model_tys();
                }
                let cl = match conv_into(m1, t, &lc, ls.get_scalar_ty()) {
                    Ok(v) => v,
                    Err(e) => return Err(e),
                };
                let cv = match conv_scalar(rco, t) {
                    Ok(v) => v,
                    Err(_) => return Err(EvalError::UnsupportedOp),
                };
                proof {
                    lemma_conv_seq_ok(lc@, ls.spec_ty(), t);
                    lemma_conv_shape(*rco, t);
                }
                if let Err(e) = bound_output_length(m3, cl.len(), t) {
                    return Err(e);
                }
                if !val_binop_supported(op, t) {
                    return Err(EvalError::UnsupportedOp);
                }
                let cr = broadcast_const(cv, cl.len());
                if !val_values_ok(op, &cl, &cr) {
                    return Err(EvalError::UnsupportedOp);
                }
                proof {
                    lemma_val_columns_ok(op, t, cl@, cr@);
                }
                let csz = chunksz_min(t, t);
                let res = run_binary(BinaryJob::JobValBin(op), &cl, &cr, csz);
                proof {
                    assert(res@ =~= spec_binary_vals(BinaryJob::JobValBin(op), cl@, cr@));
                }
                Ok(Operand::OperandSlice(Slice::from_consts(t, &res)))
            },
            (Operand::OperandConst(lco), Operand::OperandSlice(rs)) => {
                let m2 = match check_align_and_size(&self.tmp2, self.tmp2_off, t) {
                    Ok(m) => m,
                    Err(e) => return Err(e),
                };
                let m3 = match check_align_and_size(&self.out, self.out_off, t) {
                    Ok(m) => m,
                    Err(e) => return Err(e),
                };
                let cv = match conv_scalar(lco, t) {
                    Ok(v) => v,
                    Err(_) => return Err(EvalError::UnsupportedOp),
                };
                let rc = rs.to_consts();
                proof {
                    rs.lemma_model_tys();
                }
                let cr = match conv_into(m2, t, &rc, rs.get_scalar_ty()) {
                    Ok(v) => v,
                    Err(e) => return Err(e),
                };
                proof {
                    lemma_conv_seq_ok(rc@, rs.spec_ty(), t);
                    lemma_conv_shape(*lco, t);
                }
                if let Err(e) = bound_output_length(m3, cr.len(), t) {
                    return Err(e);
                }
                if !val_binop_supported(op, t) {
                    return Err(EvalError::UnsupportedOp);
                }
                let cl = broadcast_const(cv, cr.len());
                if !val_values_ok(op, &cl, &cr) {
                    return Err(EvalError::UnsupportedOp);
                }
                proof {
                    lemma_val_columns_ok(op, t, cl@, cr@);
                }
                let csz = chunksz_min(t, t);
                let res = run_binary(BinaryJob::JobValBin(op), &cl, &cr, csz);
                proof {
                    assert(res@ =~= spec_binary_vals(BinaryJob::JobValBin(op), cl@, cr@));
                }
                Ok(Operand::OperandSlice(Slice::from_consts(t, &res)))
            },
            (Operand::OperandConst(lco), Operand::OperandConst(rco)) => {
                let cl = match conv_scalar(lco, t) {
                    Ok(v) => v,
                    Err(_) => return Err(EvalError::UnsupportedOp),
                };
                let cr = match conv_scalar(rco, t) {
                    Ok(v) => v,
                    Err(_) => return Err(EvalError::UnsupportedOp),
                };
                match crate::scalar::val_binop_const(op, &cl, &cr) {
                    Ok(v) => Ok(Operand::OperandConst(v)),
                    Err(_) => Err(EvalError::UnsupportedOp),
                }
            },
        }
    }
}

/// The slice-against-slice case of a binary predicate opcode.  The
/// output arena is viewed as booleans, one byte per element.
pub open spec fn spec_bool_binop_ss(
    ctx: EvalCtx,
    op: BoolBinOpCode,
    t: ScalarTy,
    ls: Slice,
    rs: Slice,
) -> Result<EvalShape, EvalError> {
    if !spec_buf_ok(ctx.tmp1@.len() as int, ctx.tmp1_off as int, t) {
        Err(EvalError::BadBuffer)
    } else if !spec_buf_ok(ctx.tmp2@.len() as int, ctx.tmp2_off as int, t) {
        Err(EvalError::BadBuffer)
    } else if !spec_buf_ok(ctx.out@.len() as int, ctx.out_off as int, ScalarTy::TBool) {
        Err(EvalError::BadBuffer)
    } else {
        let m1 = spec_buf_elems(ctx.tmp1@.len() as int, ctx.tmp1_off as int, t);
        let m2 = spec_buf_elems(ctx.tmp2@.len() as int, ctx.tmp2_off as int, t);
        let m3 = spec_buf_elems(ctx.out@.len() as int, ctx.out_off as int, ScalarTy::TBool);
        match spec_conv_into(m1, t, ls.model(), ls.spec_ty()) {
            Err(e) => Err(e),
            Ok(cl) => match spec_conv_into(m2, t, rs.model(), rs.spec_ty()) {
                Err(e) => Err(e),
                Ok(cr) => if !(spec_len_ok(cr.len() as int, t) && m3 >= cr.len()) {
                    Err(EvalError::BadBuffer)
                } else if !spec_len_ok(cl.len() as int, t) {
                    Err(EvalError::BadBuffer)
                } else if !spec_len_ok(cr.len() as int, ScalarTy::TBool) {
                    Err(EvalError::BadBuffer)
                } else if !spec_bool_binop_supported(op, t) {
                    Err(EvalError::UnsupportedOp)
                } else if cl.len() != cr.len() {
                    Err(EvalError::BadBuffer)
                } else {
                    Ok(
                        EvalShape::ShapeSlice(
                            ScalarTy::TBool,
                            spec_binary_vals(BinaryJob::JobBoolBin(op), cl, cr),
                        ),
                    )
                },
            },
        }
    }
}

/// The slice-against-constant case of a binary predicate opcode.
pub open spec fn spec_bool_binop_sc(
    ctx: EvalCtx,
    op: BoolBinOpCode,
    t: ScalarTy,
    ls: Slice,
    rc: Const,
) -> Result<EvalShape, EvalError> {
    if !spec_buf_ok(ctx.tmp1@.len() as int, ctx.tmp1_off as int, t) {
        Err(EvalError::BadBuffer)
    } else if !spec_buf_ok(ctx.out@.len() as int, ctx.out_off as int, ScalarTy::TBool) {
        Err(EvalError::BadBuffer)
    } else {
        let m1 = spec_buf_elems(ctx.tmp1@.len() as int, ctx.tmp1_off as int, t);
        let m3 = spec_buf_elems(ctx.out@.len() as int, ctx.out_off as int, ScalarTy::TBool);
        match spec_conv_into(m1, t, ls.model(), ls.spec_ty()) {
            Err(e) => Err(e),
            Ok(cl) => match spec_conv(rc, t) {
                Err(_) => Err(EvalError::UnsupportedOp),
                Ok(cv) => if !(spec_len_ok(cl.len() as int, t) && m3 >= cl.len()) {
                    Err(EvalError::BadBuffer)
                } else if !spec_len_ok(cl.len() as int, ScalarTy::TBool) {
                    Err(EvalError::BadBuffer)
                } else if !spec_bool_binop_supported(op, t) {
                    Err(EvalError::UnsupportedOp)
                } else {
                    Ok(
                        EvalShape::ShapeSlice(
                            ScalarTy::TBool,
                            spec_binary_vals(
                                BinaryJob::JobBoolBin(op),
                                cl,
                                spec_const_seq(cl.len(), cv),
                            ),
                        ),
                    )
                },
            },
        }
    }
}

/// The constant-against-slice case of a binary predicate opcode.
pub open spec fn spec_bool_binop_cs(
    ctx: EvalCtx,
    op: BoolBinOpCode,
    t: ScalarTy,
    lc: Const,
    rs: Slice,
) -> Result<EvalShape, EvalError> {
    if !spec_buf_ok(ctx.tmp2@.len() as int, ctx.tmp2_off as int, t) {
        Err(EvalError::BadBuffer)
    } else if !spec_buf_ok(ctx.out@.len() as int, ctx.out_off as int, ScalarTy::TBool) {
        Err(EvalError::BadBuffer)
    } else {
        let m2 = spec_buf_elems(ctx.tmp2@.len() as int, ctx.tmp2_off as int, t);
        let m3 = spec_buf_elems(ctx.out@.len() as int, ctx.out_off as int, ScalarTy::TBool);
        match spec_conv(lc, t) {
            Err(_) => Err(EvalError::UnsupportedOp),
            Ok(cv) => match spec_conv_into(m2, t, rs.model(), rs.spec_ty()) {
                Err(e) => Err(e),
                Ok(cr) => if !(spec_len_ok(cr.len() as int, t) && m3 >= cr.len()) {
                    Err(EvalError::BadBuffer)
                } else if !spec_len_ok(cr.len() as int, ScalarTy::TBool) {
                    Err(EvalError::BadBuffer)
                } else if !spec_bool_binop_supported(op, t) {
                    Err(EvalError::UnsupportedOp)
                } else {
                    Ok(
                        EvalShape::ShapeSlice(
                            ScalarTy::TBool,
                            spec_binary_vals(
                                BinaryJob::JobBoolBin(op),
                                spec_const_seq(cr.len(), cv),
                                cr,
                            ),
                        ),
                    )
                },
            },
        }
    }
}

/// The constant-against-constant case of a binary predicate opcode.
pub open spec fn spec_bool_binop_cc(op: BoolBinOpCode, t: ScalarTy, lc: Const, rc: Const) -> Result<
    EvalShape,
    EvalError,
> {
    match spec_conv(lc, t) {
        Err(_) => Err(EvalError::UnsupportedOp),
        Ok(cl) => match spec_conv(rc, t) {
            Err(_) => Err(EvalError::UnsupportedOp),
            Ok(cr) => match spec_bool_binop(op, cl, cr) {
                Ok(v) => Ok(EvalShape::ShapeConst(v)),
                Err(_) => Err(EvalError::UnsupportedOp),
            },
        },
    }
}

/// A binary predicate opcode applied to two operands: both sides are
/// promoted to the join of their types and compared element by element;
/// the result's element type is `TBool`.
pub open spec fn spec_eval_bool_binop(
    ctx: EvalCtx,
    op: BoolBinOpCode,
    lhs: Operand,
    rhs: Operand,
) -> Result<EvalShape, EvalError> {
    let t = lhs.spec_ty().spec_join(rhs.spec_ty());
    match (lhs, rhs) {
        (Operand::OperandSlice(ls), Operand::OperandSlice(rs)) => spec_bool_binop_ss(
            ctx,
            op,
            t,
            ls,
            rs,
        ),
        (Operand::OperandSlice(ls), Operand::OperandConst(rc)) => spec_bool_binop_sc(
            ctx,
            op,
            t,
            ls,
            rc,
        ),
        (Operand::OperandConst(lc), Operand::OperandSlice(rs)) => spec_bool_binop_cs(
            ctx,
            op,
            t,
            lc,
            rs,
        ),
        (Operand::OperandConst(lc), Operand::OperandConst(rc)) => spec_bool_binop_cc(op, t, lc, rc),
    }
}

/// Proves every pair of a binary predicate job's inputs defined, and
/// the boolean output type, for two columns of element type `t`.
proof fn lemma_bool_columns_ok(op: BoolBinOpCode, t: ScalarTy, a: Seq<Const>, b: Seq<Const>)
    requires
        a.len() == b.len(),
        forall|i: int| 0 <= i < a.len() ==> (#[trigger] a[i]).spec_ty() == t,
        forall|i: int| 0 <= i < b.len() ==> (#[trigger] b[i]).spec_ty() == t,
        spec_bool_binop_supported(op, t),
    ensures
        forall|i: int|
            0 <= i < a.len() ==> (#[trigger] spec_binary_elem(
                BinaryJob::JobBoolBin(op),
                a[i],
                b[i],
            )) is Ok,
        forall|i: int|
            0 <= i < a.len() ==> (#[trigger] spec_binary_vals(BinaryJob::JobBoolBin(op), a, b)[i])
                .spec_ty() == ScalarTy::TBool,
{
    let job = BinaryJob::JobBoolBin(op);
    assert forall|i: int|
        0 <= i < a.len() implies (#[trigger] spec_binary_elem(job, a[i], b[i])) is Ok by {
        lemma_binary_elem_shape(job, a[i], b[i]);
    };
    assert forall|i: int|
        0 <= i < a.len() implies (#[trigger] spec_binary_vals(job, a, b)[i]).spec_ty()
        == ScalarTy::TBool by {
        lemma_binary_elem_shape(job, a[i], b[i]);
    };
}

/// Proves every element of a unary job's input defined, and the output
/// element type, for a column of element type `t`.
proof fn lemma_unary_column_ok(job: UnaryJob, t: ScalarTy, s: Seq<Const>)
    requires
        forall|i: int| 0 <= i < s.len() ==> (#[trigger] s[i]).spec_ty() == t,
        spec_unary_ok_ty(job, t),
    ensures
        forall|i: int| 0 <= i < s.len() ==> (#[trigger] spec_unary_elem(job, s[i])) is Ok,
        forall|i: int|
            0 <= i < s.len() ==> (#[trigger] spec_unary_vals(job, s)[i]).spec_ty()
                == spec_unary_out_ty(job, t),
{
    assert forall|i: int|
        0 <= i < s.len() implies (#[trigger] spec_unary_elem(job, s[i])) is Ok by {
        lemma_unary_elem_shape(job, s[i]);
    };
    assert forall|i: int|
        0 <= i < s.len() implies (#[trigger] spec_unary_vals(job, s)[i]).spec_ty()
        == spec_unary_out_ty(job, t) by {
        lemma_unary_elem_shape(job, s[i]);
    };
}

/// The slice case of a unary value opcode.  The element type is the
/// operand's own, so the conversion through the first arena is the
/// identity, but the arena is validated all the same.
pub open spec fn spec_val_unop_s(ctx: EvalCtx, op: ValUnOpCode, t: ScalarTy, sl: Slice) -> Result<
    EvalShape,
    EvalError,
> {
    if !spec_buf_ok(ctx.tmp1@.len() as int, ctx.tmp1_off as int, t) {
        Err(EvalError::BadBuffer)
    } else if !spec_buf_ok(ctx.out@.len() as int, ctx.out_off as int, t) {
        Err(EvalError::BadBuffer)
    } else {
        let m1 = spec_buf_elems(ctx.tmp1@.len() as int, ctx.tmp1_off as int, t);
        let m3 = spec_buf_elems(ctx.out@.len() as int, ctx.out_off as int, t);
        match spec_conv_into(m1, t, sl.model(), sl.spec_ty()) {
            Err(e) => Err(e),
            Ok(cs) => if !(spec_len_ok(cs.len() as int, t) && m3 >= cs.len()) {
                Err(EvalError::BadBuffer)
            } else if !spec_val_unop_supported(op, t) {
                Err(EvalError::UnsupportedOp)
            } else {
                Ok(EvalShape::ShapeSlice(t, spec_unary_vals(UnaryJob::JobValUn(op), cs)))
            },
        }
    }
}

/// A unary value opcode applied to an operand.
pub open spec fn spec_eval_val_unop(ctx: EvalCtx, op: ValUnOpCode, s: Operand) -> Result<
    EvalShape,
    EvalError,
> {
    match s {
        Operand::OperandSlice(sl) => spec_val_unop_s(ctx, op, sl.spec_ty(), sl),
        Operand::OperandConst(c) => match spec_val_unop(op, c) {
            Ok(v) => Ok(EvalShape::ShapeConst(v)),
            Err(_) => Err(EvalError::UnsupportedOp),
        },
    }
}

/// The slice case of a unary predicate opcode; the output arena is
/// viewed as booleans.
pub open spec fn spec_bool_unop_s(ctx: EvalCtx, op: BoolUnOpCode, t: ScalarTy, sl: Slice) -> Result<
    EvalShape,
    EvalError,
> {
    if !spec_buf_ok(ctx.tmp1@.len() as int, ctx.tmp1_off as int, t) {
        Err(EvalError::BadBuffer)
    } else if !spec_buf_ok(ctx.out@.len() as int, ctx.out_off as int, ScalarTy::TBool) {
        Err(EvalError::BadBuffer)
    } else {
        let m1 = spec_buf_elems(ctx.tmp1@.len() as int, ctx.tmp1_off as int, t);
        let m3 = spec_buf_elems(ctx.out@.len() as int, ctx.out_off as int, ScalarTy::TBool);
        match spec_conv_into(m1, t, sl.model(), sl.spec_ty()) {
            Err(e) => Err(e),
            Ok(cs) => if !(spec_len_ok(cs.len() as int, t) && m3 >= cs.len()) {
                Err(EvalError::BadBuffer)
            } else if !spec_len_ok(cs.len() as int, ScalarTy::TBool) {
                Err(EvalError::BadBuffer)
            } else if !spec_bool_unop_supported(op, t) {
                Err(EvalError::UnsupportedOp)
            } else {
                Ok(
                    EvalShape::ShapeSlice(
                        ScalarTy::TBool,
                        spec_unary_vals(UnaryJob::JobBoolUn(op), cs),
                    ),
                )
            },
        }
    }
}

/// A unary predicate opcode applied to an operand; the result's element
/// type is `TBool`.
pub open spec fn spec_eval_bool_unop(ctx: EvalCtx, op: BoolUnOpCode, s: Operand) -> Result<
    EvalShape,
    EvalError,
> {
    match s {
        Operand::OperandSlice(sl) => spec_bool_unop_s(ctx, op, sl.spec_ty(), sl),
        Operand::OperandConst(c) => match spec_bool_unop(op, c) {
            Ok(v) => Ok(EvalShape::ShapeConst(v)),
            Err(_) => Err(EvalError::UnsupportedOp),
        },
    }
}

impl EvalCtx {
    /// Performs a given `BoolBinOpCode` on a pair of `Operand`s, as
    /// `spec_eval_bool_binop` states.
    #[verifier::spinoff_prover]
    #[verifier::rlimit(80)]
    pub fn bool_binop(self, op: BoolBinOpCode, lhs: &Operand, rhs: &Operand) -> (r: Result<
        Operand,
        EvalError,
    >)
        ensures
            spec_eval_bool_binop(self, op, *lhs, *rhs) matches Err(e) ==> r == Err::<
                Operand,
                EvalError,
            >(e),
            spec_eval_bool_binop(self, op, *lhs, *rhs) matches Ok(sh) ==> (r matches Ok(o)
                && operand_has_shape(o, sh)),
    {
        let t = lhs.get_scalar_ty().join(rhs.get_scalar_ty());
        match (lhs, rhs) {
            (Operand::OperandSlice(ls), Operand::OperandSlice(rs)) => {
                let m1 = match check_align_and_size(&self.tmp1, self.tmp1_off, t) {
                    Ok(m) => m,
                    Err(e) => return Err(e),
                };
                let m2 = match check_align_and_size(&self.tmp2, self.tmp2_off, t) {
                    Ok(m) => m,
                    Err(e) => return Err(e),
                };
                let m3 = match check_align_and_size(&self.out, self.out_off, ScalarTy::TBool) {
                    Ok(m) => m,
                    Err(e) => return Err(e),
                };
                let lc = ls.to_consts();
                let rc = rs.to_consts();
                proof {
                    ls.lemma_model_tys();
                    rs.lemma_model_tys();
                }
                let cl = match conv_into(m1, t, &lc, ls.get_scalar_ty()) {
                    Ok(v) => v,
                    Err(e) => return Err(e),
                };
                let cr = match conv_into(m2, t, &rc, rs.get_scalar_ty()) {
                    Ok(v) => v,
                    Err(e) => return Err(e),
                };
                proof {
                    lemma_conv_seq_ok(lc@, ls.spec_ty(), t);
                    lemma_conv_seq_ok(rc@, rs.spec_ty(), t);
                }
                if let Err(e) = bound_output_length(m3, cr.len(), t) {
                    return Err(e);
                }
                if let Err(e) = check_ok_length(cl.len(), t) {
                    return Err(e);
                }
                if let Err(e) = check_ok_length(cr.len(), ScalarTy::TBool) {
                    return Err(e);
                }
                if !bool_binop_supported(op, t) {
                    return Err(EvalError::UnsupportedOp);
                }
                if let Err(e) = check_equal_lengths(cl.len(), cr.len()) {
                    return Err(e);
                }
                proof {
                    lemma_bool_columns_ok(op, t, cl@, cr@);
                }
                let csz = chunksz_min(t, t);
                let res = run_binary(BinaryJob::JobBoolBin(op), &cl, &cr, csz);
                proof {
                    assert(res@ =~= spec_binary_vals(BinaryJob::JobBoolBin(op), cl@, cr@));
                }
                Ok(Operand::OperandSlice(Slice::from_consts(ScalarTy::TBool, &res)))
            },
            (Operand::OperandSlice(ls), Operand::OperandConst(rco)) => {
                let m1 = match check_align_and_size(&self.tmp1, self.tmp1_off, t) {
                    Ok(m) => m,
                    Err(e) => return Err(e),
                };
                let m3 = match check_align_and_size(&self.out, self.out_off, ScalarTy::TBool) {
                    Ok(m) => m,
                    Err(e) => return Err(e),
                };
                let lc = ls.to_consts();
                proof {
                    ls.lemma_model_tys();
                }
                let cl = match conv_into(m1, t, &lc, ls.get_scalar_ty()) {
                    Ok(v) => v,
                    Err(e) => return Err(e),
                };
                let cv = match conv_scalar(rco, t) {
                    Ok(v) => v,
                    Err(_) => return Err(EvalError::UnsupportedOp),
                };
                proof {
                    lemma_conv_seq_ok(lc@, ls.spec_ty(), t);
                    lemma_conv_shape(*rco, t);
                }
                if let Err(e) = bound_output_length(m3, cl.len(), t) {
                    return Err(e);
                }
                if let Err(e) = check_ok_length(cl.len(), ScalarTy::TBool) {
                    return Err(e);
                }
                if !bool_binop_supported(op, t) {
                    return Err(EvalError::UnsupportedOp);
                }
                let cr = broadcast_const(cv, cl.len());
                proof {
                    lemma_bool_columns_ok(op, t, cl@, cr@);
                }
                let csz = chunksz_min(t, t);
                let res = run_binary(BinaryJob::JobBoolBin(op), &cl, &cr, csz);
                proof {
                    assert(res@ =~= spec_binary_vals(BinaryJob::JobBoolBin(op), cl@, cr@));
                }
                Ok(Operand::OperandSlice(Slice::from_consts(ScalarTy::TBool, &res)))
            },
            (Operand::OperandConst(lco), Operand::OperandSlice(rs)) => {
                let m2 = match check_align_and_size(&self.tmp2, self.tmp2_off, t) {
                    Ok(m) => m,
                    Err(e) => return Err(e),
                };
                let m3 = match check_align_and_size(&self.out, self.out_off, ScalarTy::TBool) {
                    Ok(m) => m,
                    Err(e) => return Err(e),
                };
                let cv = match conv_scalar(lco, t) {
                    Ok(v) => v,
                    Err(_) => return Err(EvalError::UnsupportedOp),
                };
                let rc = rs.to_consts();
                proof {
                    rs.lemma_model_tys();
                }
                let cr = match conv_into(m2, t, &rc, rs.get_scalar_ty()) {
                    Ok(v) => v,
                    Err(e) => return Err(e),
                };
                proof {
                    lemma_conv_seq_ok(rc@, rs.spec_ty(), t);
                    lemma_conv_shape(*lco, t);
                }
                if let Err(e) = bound_output_length(m3, cr.len(), t) {
                    return Err(e);
                }
                if let Err(e) = check_ok_length(cr.len(), ScalarTy::TBool) {
                    return Err(e);
                }
                if !bool_binop_supported(op, t) {
                    return Err(EvalError::UnsupportedOp);
                }
                let cl = broadcast_const(cv, cr.len());
                proof {
                    lemma_bool_columns_ok(op, t, cl@, cr@);
                }
                let csz = chunksz_min(t, t);
                let res = run_binary(BinaryJob::JobBoolBin(op), &cl, &cr, csz);
                proof {
                    assert(res@ =~= spec_binary_vals(BinaryJob::JobBoolBin(op), cl@, cr@));
                }
                Ok(Operand::OperandSlice(Slice::from_consts(ScalarTy::TBool, &res)))
            },
            (Operand::OperandConst(lco), Operand::OperandConst(rco)) => {
                let cl = match conv_scalar(lco, t) {
                    Ok(v) => v,
                    Err(_) => return Err(EvalError::UnsupportedOp),
                };
                let cr = match conv_scalar(rco, t) {
                    Ok(v) => v,
                    Err(_) => return Err(EvalError::UnsupportedOp),
                };
                match crate::scalar::bool_binop_const(op, &cl, &cr) {
                    Ok(v) => Ok(Operand::OperandConst(v)),
                    Err(_) => Err(EvalError::UnsupportedOp),
                }
            },
        }
    }

    /// Performs a given `ValUnOpCode` on a given `Operand`, as
    /// `spec_eval_val_unop` states.
    #[verifier::spinoff_prover]
    #[verifier::rlimit(80)]
    pub fn val_unop(self, op: ValUnOpCode, operand: &Operand) -> (r: Result<Operand, EvalError>)
        ensures
            spec_eval_val_unop(self, op, *operand) matches Err(e) ==> r == Err::<
                Operand,
                EvalError,
            >(e),
            spec_eval_val_unop(self, op, *operand) matches Ok(sh) ==> (r matches Ok(o)
                && operand_has_shape(o, sh)),
    {
        match operand {
            Operand::OperandSlice(sl) => {
                let t = sl.get_scalar_ty();
                let m1 = match check_align_and_size(&self.tmp1, self.tmp1_off, t) {
                    Ok(m) => m,
                    Err(e) => return Err(e),
                };
                let m3 = match check_align_and_size(&self.out, self.out_off, t) {
                    Ok(m) => m,
                    Err(e) => return Err(e),
                };
                let sc = sl.to_consts();
                proof {
                    sl.lemma_model_tys();
                }
                let cs = match conv_into(m1, t, &sc, t) {
                    Ok(v) => v,
                    Err(e) => return Err(e),
                };
                proof {
                    lemma_conv_seq_ok(sc@, t, t);
                }
                if let Err(e) = bound_output_length(m3, cs.len(), t) {
                    return Err(e);
                }
                if !val_unop_supported(op, t) {
                    return Err(EvalError::UnsupportedOp);
                }
                proof {
                    lemma_unary_column_ok(UnaryJob::JobValUn(op), t, cs@);
                }
                let csz = chunksz_min(t, t);
                let res = run_unary(UnaryJob::JobValUn(op), &cs, csz);
                proof {
                    assert(res@ =~= spec_unary_vals(UnaryJob::JobValUn(op), cs@));
                }
                Ok(Operand::OperandSlice(Slice::from_consts(t, &res)))
            },
            Operand::OperandConst(c) => match crate::scalar::val_unop_const(op, c) {
                Ok(v) => Ok(Operand::OperandConst(v)),
                Err(_) => Err(EvalError::UnsupportedOp),
            },
        }
    }

    /// Performs a given `BoolUnOpCode` on a given `Operand`, as
    /// `spec_eval_bool_unop` states.
    #[verifier::spinoff_prover]
    #[verifier::rlimit(80)]
    pub fn bool_unop(self, op: BoolUnOpCode, operand: &Operand) -> (r: Result<Operand, EvalError>)
        ensures
            spec_eval_bool_unop(self, op, *operand) matches Err(e) ==> r == Err::<
                Operand,
                EvalError,
            >(e),
            spec_eval_bool_unop(self, op, *operand) matches Ok(sh) ==> (r matches Ok(o)
                && operand_has_shape(o, sh)),
    {
        match operand {
            Operand::OperandSlice(sl) => {
                let t = sl.get_scalar_ty();
                let m1 = match check_align_and_size(&self.tmp1, self.tmp1_off, t) {
                    Ok(m) => m,
                    Err(e) => return Err(e),
                };
                let m3 = match check_align_and_size(&self.out, self.out_off, ScalarTy::TBool) {
                    Ok(m) => m,
                    Err(e) => return Err(e),
                };
                let sc = sl.to_consts();
                proof {
                    sl.lemma_model_tys();
                }
                let cs = match conv_into(m1, t, &sc, t) {
                    Ok(v) => v,
                    Err(e) => return Err(e),
                };
                proof {
                    lemma_conv_seq_ok(sc@, t, t);
                }
                if let Err(e) = bound_output_length(m3, cs.len(), t) {
                    return Err(e);
                }
                if let Err(e) = check_ok_length(cs.len(), ScalarTy::TBool) {
                    return Err(e);
                }
                if !bool_unop_supported(op, t) {
                    return Err(EvalError::UnsupportedOp);
                }
                proof {
                    lemma_unary_column_ok(UnaryJob::JobBoolUn(op), t, cs@);
                }
                let csz = chunksz_min(t, t);
                let res = run_unary(UnaryJob::JobBoolUn(op), &cs, csz);
                proof {
                    assert(res@ =~= spec_unary_vals(UnaryJob::JobBoolUn(op), cs@));
                }
                Ok(Operand::OperandSlice(Slice::from_consts(ScalarTy::TBool, &res)))
            },
            Operand::OperandConst(c) => match crate::scalar::bool_unop_const(op, c) {
                Ok(v) => Ok(Operand::OperandConst(v)),
                Err(_) => Err(EvalError::UnsupportedOp),
            },
        }
    }
}

} // verus!
