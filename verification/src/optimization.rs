//! The length checks of RC parameter sets.
use vstd::prelude::*;

use crate::error::{check_view, PyrthError, PyrthErrorView};
use crate::text::{decimal_text, usize_text};

verus! {

/// The text `left != right` of two lengths.
pub open spec fn length_mismatch_text(left: usize, right: usize) -> Seq<char> {
    decimal_text(left as nat) + " != "@ + decimal_text(right as nat)
}

/// Checks that two paired arrays have the same length; otherwise the error
/// names `parameter` and both lengths.
pub fn validate_same_len(left_len: usize, right_len: usize, parameter: &'static str) -> (r: Result<
    (),
    PyrthError,
>)
    ensures
        left_len == right_len ==> r is Ok,
        left_len != right_len ==> check_view(r) == Some(
            PyrthErrorView::InvalidParameter(
                parameter@,
                "same length as paired array"@,
                length_mismatch_text(left_len, right_len),
            ),
        ),
{
    if left_len == right_len {
        return Ok(());
    }
    let mut actual = usize_text(left_len);
    actual.append(" != ");
    let right = usize_text(right_len);
    actual.append(right.as_str());
    Err(PyrthError::InvalidParameter { parameter, expected: "same length as paired array", actual })
}

/// Where a flattened `[resistance..., capacitance...]` vector of `len`
/// values splits: at its middle. The vector must be non-empty and of even
/// length.
pub fn flattened_split(len: usize) -> (r: Result<usize, PyrthError>)
    ensures
        len > 0 && len % 2 == 0 ==> r == Ok::<usize, PyrthError>(len / 2),
        !(len > 0 && len % 2 == 0) ==> (r matches Err(e) && e@ == PyrthErrorView::InvalidParameter(
            "values"@,
            "non-empty even-length [resistance..., capacitance...] vector"@,
            decimal_text(len as nat),
        )),
{
    if len == 0 || len % 2 != 0 {
        return Err(
            PyrthError::InvalidParameter {
                parameter: "values",
                expected: "non-empty even-length [resistance..., capacitance...] vector",
                actual: usize_text(len),
            },
        );
    }
    Ok(len / 2)
}

} // verus!
