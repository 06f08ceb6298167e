//! Chunked execution skeletons.
//!
//! A column operation is split into chunks of a caller-chosen element
//! count; each chunk is processed by a verified chunk kernel that applies
//! the scalar kernel element by element, and the chunks are dispatched to
//! rayon's worker pool.  The chunks are disjoint and independent, so the
//! result does not depend on the scheduling order; the drivers
//! (`run_unary`, `run_binary`) reassemble the per-chunk outputs in chunk
//! order and prove the element-by-element description of the whole
//! column.
//!
//! The callers decide supportedness and the division side condition
//! before dispatching, so a chunk kernel runs only on elements whose
//! scalar operation is defined.

use vstd::prelude::*;

use rayon::iter::{IndexedParallelIterator, IntoParallelIterator, ParallelIterator};

use crate::convert::{conv_scalar, spec_conv, spec_conv_supported};
use crate::operands::Const;
use crate::ops::{BoolBinOpCode, BoolUnOpCode, OpError, ValBinOpCode, ValUnOpCode};
use crate::ops::{
    spec_bool_binop_supported, spec_bool_unop_supported, spec_val_binop_supported,
    spec_val_unop_supported,
};
use crate::scalar::{
    bool_binop_const, bool_unop_const, lemma_bool_binop_shape, lemma_bool_unop_shape,
    lemma_val_binop_shape, lemma_val_unop_shape, spec_bool_binop, spec_bool_unop, spec_val_binop,
    spec_val_binop_values_ok, spec_val_unop, val_binop_const, val_unop_const,
};
use crate::convert::lemma_conv_shape;
use crate::scalarty::ScalarTy;

verus! {

/// A unary column job: a conversion to a target type, a unary value
/// opcode, or a unary predicate opcode.
#[derive(Clone, Copy, Debug)]
pub enum UnaryJob {
    JobConv(ScalarTy),
    JobValUn(ValUnOpCode),
    JobBoolUn(BoolUnOpCode),
}

/// A binary column job: a binary value opcode or a binary predicate
/// opcode.
#[derive(Clone, Copy, Debug)]
pub enum BinaryJob {
    JobValBin(ValBinOpCode),
    JobBoolBin(BoolBinOpCode),
}

/// One application of a unary job to a scalar.
pub open spec fn spec_unary_elem(job: UnaryJob, c: Const) -> Result<Const, OpError> {
    match job {
        UnaryJob::JobConv(t) => spec_conv(c, t),
        UnaryJob::JobValUn(o) => spec_val_unop(o, c),
        UnaryJob::JobBoolUn(o) => spec_bool_unop(o, c),
    }
}

/// One application of a binary job to two scalars.
pub open spec fn spec_binary_elem(job: BinaryJob, a: Const, b: Const) -> Result<
    Const,
    OpError,
> {
    match job {
        BinaryJob::JobValBin(o) => spec_val_binop(o, a, b),
        BinaryJob::JobBoolBin(o) => spec_bool_binop(o, a, b),
    }
}

/// Whether a unary job is defined on elements of type `ty`.
pub open spec fn spec_unary_ok_ty(job: UnaryJob, ty: ScalarTy) -> bool {
    match job {
        UnaryJob::JobConv(t) => spec_conv_supported(ty, t),
        UnaryJob::JobValUn(o) => spec_val_unop_supported(o, ty),
        UnaryJob::JobBoolUn(o) => spec_bool_unop_supported(o, ty),
    }
}

/// The element type a unary job produces from elements of type `ty`.
pub open spec fn spec_unary_out_ty(job: UnaryJob, ty: ScalarTy) -> ScalarTy {
    match job {
        UnaryJob::JobConv(t) => t,
        UnaryJob::JobValUn(_) => ty,
        UnaryJob::JobBoolUn(_) => ScalarTy::TBool,
    }
}

/// Whether a binary job is defined on the pair of scalars.
pub open spec fn spec_binary_ok(job: BinaryJob, a: Const, b: Const) -> bool {
    a.spec_ty() == b.spec_ty() && (match job {
        BinaryJob::JobValBin(o) => spec_val_binop_supported(o, a.spec_ty())
            && spec_val_binop_values_ok(o, a, b),
        BinaryJob::JobBoolBin(o) => spec_bool_binop_supported(o, a.spec_ty()),
    })
}

/// The element type a binary job produces from elements of type `ty`.
pub open spec fn spec_binary_out_ty(job: BinaryJob, ty: ScalarTy) -> ScalarTy {
    match job {
        BinaryJob::JobValBin(_) => ty,
        BinaryJob::JobBoolBin(_) => ScalarTy::TBool,
    }
}

/// A unary job succeeds on a scalar exactly when `spec_unary_ok_ty`
/// allows its type, and the result then carries `spec_unary_out_ty`.
pub(crate) proof fn lemma_unary_elem_shape(job: UnaryJob, c: Const)
    ensures
        (spec_unary_elem(job, c) is Ok) == spec_unary_ok_ty(job, c.spec_ty()),
        spec_unary_elem(job, c) matches Ok(v) ==> v.spec_ty() == spec_unary_out_ty(
            job,
            c.spec_ty(),
        ),
        (job matches UnaryJob::JobConv(t) && c.spec_ty() == t) ==> spec_unary_elem(job, c)
            == Ok::<Const, OpError>(c),
{
    match job {
        UnaryJob::JobConv(t) => lemma_conv_shape(c, t),
        UnaryJob::JobValUn(o) => lemma_val_unop_shape(o, c),
        UnaryJob::JobBoolUn(o) => lemma_bool_unop_shape(o, c),
    }
}

/// A binary job succeeds on two scalars exactly when `spec_binary_ok`
/// holds of them, and the result then carries `spec_binary_out_ty`.
pub(crate) proof fn lemma_binary_elem_shape(job: BinaryJob, a: Const, b: Const)
    ensures
        (spec_binary_elem(job, a, b) is Ok) == spec_binary_ok(job, a, b),
        spec_binary_elem(job, a, b) matches Ok(v) ==> v.spec_ty() == spec_binary_out_ty(
            job,
            a.spec_ty(),
        ),
{
    match job {
        BinaryJob::JobValBin(o) => lemma_val_binop_shape(o, a, b),
        BinaryJob::JobBoolBin(o) => lemma_bool_binop_shape(o, a, b),
    }
}

/// Applies a unary job to one scalar.
fn unary_elem(job: UnaryJob, c: &Const) -> (r: Result<Const, OpError>)
    ensures
        r == spec_unary_elem(job, *c),
{
    match job {
        UnaryJob::JobConv(t) => conv_scalar(c, t),
        UnaryJob::JobValUn(o) => val_unop_const(o, c),
        UnaryJob::JobBoolUn(o) => bool_unop_const(o, c),
    }
}

/// Applies a binary job to one pair of scalars.
fn binary_elem(job: BinaryJob, a: &Const, b: &Const) -> (r: Result<Const, OpError>)
    ensures
        r == spec_binary_elem(job, *a, *b),
{
    match job {
        BinaryJob::JobValBin(o) => val_binop_const(o, a, b),
        BinaryJob::JobBoolBin(o) => bool_binop_const(o, a, b),
    }
}

/// Applies a unary job to the `k`-th chunk of `csz` elements of `src`.
fn chunk_unary_at(job: UnaryJob, src: &Vec<Const>, csz: usize, k: usize) -> (r: Vec<Const>)
    requires
        csz > 0,
        (k + 1) * csz <= src@.len(),
        forall|j: int|
            0 <= j < csz ==> (#[trigger] spec_unary_elem(job, src@[k * csz + j])) is Ok,
    ensures
        r@.len() == csz,
        forall|j: int|
            0 <= j < csz ==> Ok::<Const, OpError>(r@[j]) == spec_unary_elem(
                job,
                src@[k * csz + j],
            ),
{
    proof {
        vstd::std_specs::vec::axiom_spec_len(src);
        assert((k + 1) * csz == k * csz + csz) by (nonlinear_arith);
    }
    let base: usize = k * csz;
    let mut out: Vec<Const> = Vec::new();
    let mut j: usize = 0;
    while j < csz
        invariant
            base == k * csz,
            base + csz <= src@.len(),
            src@.len() <= usize::MAX,
            j <= csz,
            out@.len() == j,
            forall|t: int|
                0 <= t < csz ==> (#[trigger] spec_unary_elem(job, src@[k * csz + t])) is Ok,
            forall|t: int|
                0 <= t < j ==> Ok::<Const, OpError>(out@[t]) == spec_unary_elem(
                    job,
                    src@[k * csz + t],
                ),
        decreases csz - j,
    {
        let c = src[base + j];
        let v = match unary_elem(job, &c) {
            Ok(v) => v,
            Err(_) => {
                proof {
                    assert(spec_unary_elem(job, src@[k * csz + j]) is Ok);
                }
                unreached()
            },
        };
        out.push(v);
        j = j + 1;
    }
    out
}

/// Applies a binary job to the `k`-th chunks of `csz` elements of the
/// two columns.
fn chunk_binary_at(job: BinaryJob, a: &Vec<Const>, b: &Vec<Const>, csz: usize, k: usize) -> (r:
    Vec<Const>)
    requires
        csz > 0,
        a@.len() == b@.len(),
        (k + 1) * csz <= a@.len(),
        forall|j: int|
            0 <= j < csz ==> (#[trigger] spec_binary_elem(job, a@[k * csz + j], b@[k * csz + j])) is Ok,
    ensures
        r@.len() == csz,
        forall|j: int|
            0 <= j < csz ==> Ok::<Const, OpError>(r@[j]) == spec_binary_elem(
                job,
                a@[k * csz + j],
                b@[k * csz + j],
            ),
{
    proof {
        vstd::std_specs::vec::axiom_spec_len(a);
        assert((k + 1) * csz == k * csz + csz) by (nonlinear_arith);
    }
    let base: usize = k * csz;
    let mut out: Vec<Const> = Vec::new();
    let mut j: usize = 0;
    while j < csz
        invariant
            base == k * csz,
            base + csz <= a@.len(),
            a@.len() <= usize::MAX,
            a@.len() == b@.len(),
            j <= csz,
            out@.len() == j,
            forall|t: int|
                0 <= t < csz ==> (#[trigger] spec_binary_elem(job, a@[k * csz + t], b@[k * csz + t])) is Ok,
            forall|t: int|
                0 <= t < j ==> Ok::<Const, OpError>(out@[t]) == spec_binary_elem(
                    job,
                    a@[k * csz + t],
                    b@[k * csz + t],
                ),
        decreases csz - j,
    {
        let x = a[base + j];
        let y = b[base + j];
        let v = match binary_elem(job, &x, &y) {
            Ok(v) => v,
            Err(_) => {
                proof {
                    assert(spec_binary_elem(job, a@[k * csz + j], b@[k * csz + j]) is Ok);
                }
                unreached()
            },
        };
        out.push(v);
        j = j + 1;
    }
    out
}

/// Relies on rayon: an indexed parallel iterator over the chunk indices,
/// mapped through the verified chunk kernel and collected into a vector,
/// yields one output chunk per index, in index order.
#[verifier::external_body]
fn par_unary_chunks(job: UnaryJob, src: &Vec<Const>, csz: usize) -> (r: Vec<Vec<Const>>)
    requires
        csz > 0,
        (src@.len() as int) % (csz as int) == 0,
        forall|i: int| 0 <= i < src@.len() ==> spec_unary_elem(job, src@[i]) is Ok,
    ensures
        r@.len() == (src@.len() as int) / (csz as int),
        forall|k: int| 0 <= k < r@.len() ==> (#[trigger] r@[k])@.len() == csz,
        forall|k: int, j: int|
            0 <= k < r@.len() && 0 <= j < csz ==> Ok::<Const, OpError>(#[trigger] r@[k]@[j])
                == spec_unary_elem(job, src@[k * (csz as int) + j]),
{
    (0..src.len() / csz).into_par_iter().map(|k| chunk_unary_at(job, src, csz, k)).collect()
}

/// Relies on rayon: as `par_unary_chunks`, over pairs of chunks of the
/// two columns.
#[verifier::external_body]
fn par_binary_chunks(job: BinaryJob, a: &Vec<Const>, b: &Vec<Const>, csz: usize) -> (r: Vec<
    Vec<Const>,
>)
    requires
        csz > 0,
        a@.len() == b@.len(),
        (a@.len() as int) % (csz as int) == 0,
        forall|i: int| 0 <= i < a@.len() ==> spec_binary_elem(job, a@[i], b@[i]) is Ok,
    ensures
        r@.len() == (a@.len() as int) / (csz as int),
        forall|k: int| 0 <= k < r@.len() ==> (#[trigger] r@[k])@.len() == csz,
        forall|k: int, j: int|
            0 <= k < r@.len() && 0 <= j < csz ==> Ok::<Const, OpError>(#[trigger] r@[k]@[j])
                == spec_binary_elem(job, a@[k * (csz as int) + j], b@[k * (csz as int) + j]),
{
    (0..a.len() / csz).into_par_iter().map(|k| chunk_binary_at(job, a, b, csz, k)).collect()
}

/// Runs a unary job over a whole column in chunks of `csz` elements and
/// returns the output column.
pub(crate) fn run_unary(job: UnaryJob, src: &Vec<Const>, csz: usize) -> (r: Vec<Const>)
    requires
        csz > 0,
        (src@.len() as int) % (csz as int) == 0,
        forall|i: int| 0 <= i < src@.len() ==> spec_unary_elem(job, src@[i]) is Ok,
    ensures
        r@.len() == src@.len(),
        forall|i: int|
            0 <= i < src@.len() ==> Ok::<Const, OpError>(r@[i]) == spec_unary_elem(job, src@[i]),
{
    let chunks = par_unary_chunks(job, src, csz);
    let nchunks = chunks.len();
    proof {
        vstd::arithmetic::div_mod::lemma_fundamental_div_mod(src@.len() as int, csz as int);
        assert(nchunks * (csz as int) == src@.len()) by (nonlinear_arith)
            requires
                nchunks == src@.len() as int / (csz as int),
                csz > 0,
                (src@.len() as int) % (csz as int) == 0,
                src@.len() == (csz as int) * (src@.len() as int / (csz as int)) + src@.len() as int
                    % (csz as int),
        ;
    }
    let mut out: Vec<Const> = Vec::new();
    let mut k: usize = 0;
    while k < nchunks
        invariant
            csz > 0,
            nchunks == chunks@.len(),
            nchunks * (csz as int) == src@.len(),
            forall|t: int| 0 <= t < chunks@.len() ==> (#[trigger] chunks@[t])@.len() == csz,
            forall|t: int, j: int|
                0 <= t < chunks@.len() && 0 <= j < csz ==> Ok::<Const, OpError>(
                    #[trigger] chunks@[t]@[j],
                ) == spec_unary_elem(job, src@[t * (csz as int) + j]),
            k <= nchunks,
            out@.len() == k * (csz as int),
            forall|i: int|
                0 <= i < out@.len() ==> Ok::<Const, OpError>(out@[i]) == spec_unary_elem(
                    job,
                    src@[i],
                ),
        decreases nchunks - k,
    {
        proof {
            assert((k + 1) * (csz as int) == k * (csz as int) + (csz as int)) by (nonlinear_arith);
            assert((k + 1) * (csz as int) <= nchunks * (csz as int)) by (nonlinear_arith)
                requires
                    k < nchunks,
                    csz > 0,
            ;
        }
        let chunk = &chunks[k];
        let mut j: usize = 0;
        while j < csz
            invariant
                0 <= k < chunks@.len(),
                chunk == &chunks@[k as int],
                chunk@.len() == csz,
                forall|t: int, u: int|
                    0 <= t < chunks@.len() && 0 <= u < csz ==> Ok::<Const, OpError>(
                        #[trigger] chunks@[t]@[u],
                    ) == spec_unary_elem(job, src@[t * (csz as int) + u]),
                j <= csz,
                out@.len() == k * (csz as int) + j,
                out@.len() + (csz as int - j) <= src@.len(),
                forall|i: int|
                    0 <= i < out@.len() ==> Ok::<Const, OpError>(out@[i]) == spec_unary_elem(
                        job,
                        src@[i],
                    ),
            decreases csz - j,
        {
            out.push(chunk[j]);
            j = j + 1;
        }
        k = k + 1;
    }
    proof {
        assert(out@.len() == src@.len()) by (nonlinear_arith)
            requires
                out@.len() == k * (csz as int),
                k == nchunks,
                nchunks * (csz as int) == src@.len(),
        ;
    }
    out
}

/// Runs a binary job over two whole columns in chunks of `csz` elements
/// and returns the output column.
pub(crate) fn run_binary(job: BinaryJob, a: &Vec<Const>, b: &Vec<Const>, csz: usize) -> (r: Vec<
    Const,
>)
    requires
        csz > 0,
        a@.len() == b@.len(),
        (a@.len() as int) % (csz as int) == 0,
        forall|i: int| 0 <= i < a@.len() ==> spec_binary_elem(job, a@[i], b@[i]) is Ok,
    ensures
        r@.len() == a@.len(),
        forall|i: int|
            0 <= i < a@.len() ==> Ok::<Const, OpError>(r@[i]) == spec_binary_elem(
                job,
                a@[i],
                b@[i],
            ),
{
    let chunks = par_binary_chunks(job, a, b, csz);
    let nchunks = chunks.len();
    proof {
        vstd::arithmetic::div_mod::lemma_fundamental_div_mod(a@.len() as int, csz as int);
        assert(nchunks * (csz as int) == a@.len()) by (nonlinear_arith)
            requires
                nchunks == a@.len() as int / (csz as int),
                csz > 0,
                (a@.len() as int) % (csz as int) == 0,
                a@.len() == (csz as int) * (a@.len() as int / (csz as int)) + a@.len() as int % (
                csz as int),
        ;
    }
    let mut out: Vec<Const> = Vec::new();
    let mut k: usize = 0;
    while k < nchunks
        invariant
            csz > 0,
            nchunks == chunks@.len(),
            nchunks * (csz as int) == a@.len(),
            a@.len() == b@.len(),
            forall|t: int| 0 <= t < chunks@.len() ==> (#[trigger] chunks@[t])@.len() == csz,
            forall|t: int, j: int|
                0 <= t < chunks@.len() && 0 <= j < csz ==> Ok::<Const, OpError>(
                    #[trigger] chunks@[t]@[j],
                ) == spec_binary_elem(job, a@[t * (csz as int) + j], b@[t * (csz as int) + j]),
            k <= nchunks,
            out@.len() == k * (csz as int),
            forall|i: int|
                0 <= i < out@.len() ==> Ok::<Const, OpError>(out@[i]) == spec_binary_elem(
                    job,
                    a@[i],
                    b@[i],
                ),
        decreases nchunks - k,
    {
        proof {
            assert((k + 1) * (csz as int) == k * (csz as int) + (csz as int)) by (nonlinear_arith);
            assert((k + 1) * (csz as int) <= nchunks * (csz as int)) by (nonlinear_arith)
                requires
                    k < nchunks,
                    csz > 0,
            ;
        }
        let chunk = &chunks[k];
        let mut j: usize = 0;
        while j < csz
            invariant
                0 <= k < chunks@.len(),
                chunk == &chunks@[k as int],
                chunk@.len() == csz,
                a@.len() == b@.len(),
                forall|t: int, u: int|
                    0 <= t < chunks@.len() && 0 <= u < csz ==> Ok::<Const, OpError>(
                        #[trigger] chunks@[t]@[u],
                    ) == spec_binary_elem(job, a@[t * (csz as int) + u], b@[t * (csz as int) + u]),
                j <= csz,
                out@.len() == k * (csz as int) + j,
                out@.len() + (csz as int - j) <= a@.len(),
                forall|i: int|
                    0 <= i < out@.len() ==> Ok::<Const, OpError>(out@[i]) == spec_binary_elem(
                        job,
                        a@[i],
                        b@[i],
                    ),
            decreases csz - j,
        {
            out.push(chunk[j]);
            j = j + 1;
        }
        k = k + 1;
    }
    proof {
        assert(out@.len() == a@.len()) by (nonlinear_arith)
            requires
                out@.len() == k * (csz as int),
                k == nchunks,
                nchunks * (csz as int) == a@.len(),
        ;
    }
    out
}

} // verus!
