//! Vector and chunk size constants.
//!
//! The inner loops are written as if over `VECBYTES`-wide vector
//! registers, and the parallel drivers hand out `CHUNKBYTES`-sized chunks
//! of a column to the workers.  For a kernel with input element type `T`
//! and output element type `U`, both sizes are divided by the larger of
//! the two element sizes to get per-step and per-chunk element counts,
//! and every column length must be an exact multiple of both counts.

use vstd::prelude::*;

use crate::scalarty::ScalarTy;

verus! {

/// The logical vector width in bytes.
pub const VECBYTES: usize = 0x40;

/// The per-worker chunk size in bytes.
pub const CHUNKBYTES: usize = 0x10000;

/// The larger of two sizes.
pub open spec fn spec_cmax(a: int, b: int) -> int {
    if a < b {
        b
    } else {
        a
    }
}

/// Vector-step element count for a kernel with input element type `t`
/// and output element type `u`.
pub open spec fn spec_stepsz(t: ScalarTy, u: ScalarTy) -> int {
    VECBYTES as int / spec_cmax(t.spec_size(), u.spec_size())
}

/// Chunk element count for a kernel with input element type `t` and
/// output element type `u`.
pub open spec fn spec_chunksz(t: ScalarTy, u: ScalarTy) -> int {
    CHUNKBYTES as int / spec_cmax(t.spec_size(), u.spec_size())
}

/// The larger of two sizes.
pub fn cmax(a: usize, b: usize) -> (r: usize)
    ensures
        r == spec_cmax(a as int, b as int),
{
    if a < b {
        b
    } else {
        a
    }
}

/// Vector-step element count for a kernel with input element type `t`
/// and output element type `u`.
pub fn stepsz_min(t: ScalarTy, u: ScalarTy) -> (r: usize)
    ensures
        r == spec_stepsz(t, u),
        r >= 4,
{
    let m = cmax(t.size_bytes(), u.size_bytes());
    proof {
        vstd::arithmetic::div_mod::lemma_div_is_ordered_by_denominator(
            VECBYTES as int,
            m as int,
            16,
        );
    }
    VECBYTES / m
}

/// Chunk element count for a kernel with input element type `t` and
/// output element type `u`.
pub fn chunksz_min(t: ScalarTy, u: ScalarTy) -> (r: usize)
    ensures
        r == spec_chunksz(t, u),
        r >= 4096,
{
    let m = cmax(t.size_bytes(), u.size_bytes());
    proof {
        vstd::arithmetic::div_mod::lemma_div_is_ordered_by_denominator(
            CHUNKBYTES as int,
            m as int,
            16,
        );
    }
    CHUNKBYTES / m
}

} // verus!
