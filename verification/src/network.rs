//! The integer side of building thermal networks: how a Cauer ladder is
//! grouped into blocks, and the error of a failed polynomial conversion.
use vstd::prelude::*;

use crate::error::{PyrthError, PyrthErrorView};
use crate::text::owned;

verus! {

/// The `k`-th block when `len` elements are grouped `width` at a time: it
/// starts at `k * width`; every block but the last ends where the next
/// starts, and the last takes the remaining elements too.
pub open spec fn block_spec(len: nat, width: nat, k: nat) -> (nat, nat) {
    (k * width, if k + 1 == len / width {
        len
    } else {
        (k + 1) * width
    })
}

/// The blocks of `len` elements grouped `width` at a time: `len / width`
/// blocks, as half-open index ranges; see [`block_spec`].
pub fn block_bounds(len: usize, width: usize) -> (r: Vec<(usize, usize)>)
    requires
        width > 0,
    ensures
        r.len() == len / width,
        forall|k: int|
            0 <= k < r.len() ==> (#[trigger] r@[k]).0 as nat == block_spec(
                len as nat,
                width as nat,
                k as nat,
            ).0 && r@[k].1 as nat == block_spec(len as nat, width as nat, k as nat).1,
{
    let count = len / width;
    let mut out: Vec<(usize, usize)> = Vec::new();
    let mut k: usize = 0;
    while k < count
        invariant
            width > 0,
            count == len / width,
            k <= count,
            out.len() == k,
            forall|j: int|
                0 <= j < k ==> (#[trigger] out@[j]).0 as nat == block_spec(
                    len as nat,
                    width as nat,
                    j as nat,
                ).0 && out@[j].1 as nat == block_spec(len as nat, width as nat, j as nat).1,
        decreases count - k,
    {
        assert((k + 1) * width <= len) by (nonlinear_arith)
            requires
                k < count,
                count == len / width,
                width > 0,
        {
            assert(count * width <= len);
            assert((k + 1) * width <= count * width);
        }
        assert(k * width <= (k + 1) * width) by (nonlinear_arith);
        let start = k * width;
        let end = if k + 1 == count {
            len
        } else {
            (k + 1) * width
        };
        out.push((start, end));
        k = k + 1;
    }
    out
}

/// The blocks tile the elements: with at least one whole block, the first
/// starts at zero, each ends where the next starts, none is empty, and the
/// last ends at `len`. Summing block by block thus keeps every element,
/// exactly once.
pub proof fn lemma_blocks_tile(len: nat, width: nat)
    requires
        width > 0,
        len >= width,
    ensures
        len / width >= 1,
        block_spec(len, width, 0).0 == 0,
        block_spec(len, width, (len / width - 1) as nat).1 == len,
        forall|k: nat|
            k + 1 < len / width ==> #[trigger] block_spec(len, width, k).1 == block_spec(
                len,
                width,
                k + 1,
            ).0,
        forall|k: nat|
            k < len / width ==> #[trigger] block_spec(len, width, k).0 < block_spec(
                len,
                width,
                k,
            ).1,
{
    assert(len / width >= 1) by (nonlinear_arith)
        requires
            width > 0,
            len >= width,
    ;
    assert forall|k: nat| k < len / width implies #[trigger] block_spec(len, width, k).0
        < block_spec(len, width, k).1 by {
        let count = len / width;
        assert(k * width < (k + 1) * width) by (nonlinear_arith)
            requires
                width > 0,
        ;
        assert((k + 1) * width <= len) by (nonlinear_arith)
            requires
                k < count,
                count == len / width,
                width > 0,
        {
            assert(count * width <= len);
            assert((k + 1) * width <= count * width);
        }
    }
}

/// The error of a polynomial conversion to a Cauer ladder that failed for
/// want of `expected`.
pub fn invalid_structure<T>(expected: &'static str) -> (r: Result<T, PyrthError>)
    ensures
        r matches Err(e) && e@ == PyrthErrorView::InvalidParameter(
            "structure_method"@,
            expected@,
            "finite-precision polynomial conversion failed"@,
        ),
{
    Err(
        PyrthError::InvalidParameter {
            parameter: "structure_method",
            expected,
            actual: owned("finite-precision polynomial conversion failed"),
        },
    )
}

} // verus!
