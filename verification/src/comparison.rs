//! What a comparison of two evaluation results compares, and when it cannot.
//!
//! Two results are compared by their time constant spectra, by their
//! differential structures when both have one, and by their total thermal
//! resistance. These functions decide, from the shapes of the results, which
//! series take part and which error a comparison ends with.
use vstd::prelude::*;

use crate::error::{check_view, PyrthError, PyrthErrorView};
use crate::text::owned;

verus! {

/// Why two results cannot be compared by their spectra, if they cannot: the
/// reference, then the candidate, must hold one.
pub open spec fn spectra_error(reference_has: bool, candidate_has: bool) -> Option<PyrthErrorView> {
    if !reference_has {
        Some(
            PyrthErrorView::InvalidParameter(
                "reference.time_spectrum"@,
                "present"@,
                "missing"@,
            ),
        )
    } else if !candidate_has {
        Some(
            PyrthErrorView::InvalidParameter(
                "candidate.time_spectrum"@,
                "present"@,
                "missing"@,
            ),
        )
    } else {
        None
    }
}

/// Checks that both results hold a time constant spectrum; see
/// [`spectra_error`].
pub fn check_spectra(reference_has: bool, candidate_has: bool) -> (r: Result<(), PyrthError>)
    ensures
        check_view(r) == spectra_error(reference_has, candidate_has),
{
    if !reference_has {
        return Err(
            PyrthError::InvalidParameter {
                parameter: "reference.time_spectrum",
                expected: "present",
                actual: owned("missing"),
            },
        );
    }
    if !candidate_has {
        return Err(
            PyrthError::InvalidParameter {
                parameter: "candidate.time_spectrum",
                expected: "present",
                actual: owned("missing"),
            },
        );
    }
    Ok(())
}

/// How many leading samples of two series of lengths `a` and `b` are
/// compared: as many as the shorter one has. Refused when that is none;
/// `parameter` names the series.
pub fn overlap_len(a: usize, b: usize, parameter: &'static str) -> (r: Result<usize, PyrthError>)
    ensures
        a == 0 || b == 0 ==> (r matches Err(e) && e@ == PyrthErrorView::InvalidParameter(
            parameter@,
            "at least one overlapping sample"@,
            "0"@,
        )),
        a > 0 && b > 0 ==> (r matches Ok(n) && n == if a < b {
            a
        } else {
            b
        }),
{
    let len = if a < b {
        a
    } else {
        b
    };
    if len == 0 {
        return Err(
            PyrthError::InvalidParameter {
                parameter,
                expected: "at least one overlapping sample",
                actual: owned("0"),
            },
        );
    }
    Ok(len)
}

/// Whether the differential structures are compared: only when both results
/// hold a Cauer ladder (given by the length of its differential structure)
/// and neither structure is empty; otherwise the structure norm is zero.
pub fn compares_structure(reference_len: Option<usize>, candidate_len: Option<usize>) -> (r: bool)
    ensures
        r == (reference_len matches Some(a) && candidate_len matches Some(b) && a > 0 && b > 0),
{
    match (reference_len, candidate_len) {
        (Some(a), Some(b)) => a > 0 && b > 0,
        _ => false,
    }
}

/// Where the total thermal resistance of a result is read.
#[derive(Clone, Copy, Debug, PartialEq, Eq, Structural)]
pub enum ResistanceSource {
    /// The last cumulative resistance of the Cauer ladder.
    CauerCumulative,
    /// The sum of the Foster resistances.
    FosterSum,
}

/// Where the total resistance of a result is read, given the length of its
/// Cauer cumulative resistance and of its Foster resistances (each `None`
/// when the result holds no such network): the Cauer ladder when it is not
/// empty, else the Foster network when it is not empty; refused otherwise.
pub fn resistance_source(cauer_len: Option<usize>, foster_len: Option<usize>) -> (r: Result<
    ResistanceSource,
    PyrthError,
>)
    ensures
        (cauer_len matches Some(n) && n > 0) ==> r == Ok::<ResistanceSource, PyrthError>(
            ResistanceSource::CauerCumulative,
        ),
        !(cauer_len matches Some(n) && n > 0) && (foster_len matches Some(m) && m > 0) ==> r == Ok::<
            ResistanceSource,
            PyrthError,
        >(ResistanceSource::FosterSum),
        !(cauer_len matches Some(n) && n > 0) && !(foster_len matches Some(m) && m > 0) ==> (r matches Err(
            e,
        ) && e@ == PyrthErrorView::InvalidParameter(
            "total_resistance"@,
            "non-empty Cauer cumulative resistance or Foster resistance"@,
            "missing"@,
        )),
{
    if let Some(n) = cauer_len {
        if n > 0 {
            return Ok(ResistanceSource::CauerCumulative);
        }
    }
    if let Some(m) = foster_len {
        if m > 0 {
            return Ok(ResistanceSource::FosterSum);
        }
    }
    Err(
        PyrthError::InvalidParameter {
            parameter: "total_resistance",
            expected: "non-empty Cauer cumulative resistance or Foster resistance",
            actual: owned("missing"),
        },
    )
}

} // verus!
