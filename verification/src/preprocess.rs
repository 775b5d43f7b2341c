//! The integer decisions of turning a measured transient into an impedance
//! curve: where the curve comes from, which samples are kept, which samples
//! give the starting temperature, and which calibration fits are possible.
use vstd::prelude::*;

use crate::config::InputMode;
use crate::error::{check_view, PyrthError, PyrthErrorView};
use crate::text::{decimal_text, owned, usize_text};

verus! {

/// What the measured values of a transient are.
#[derive(Clone, Copy, Debug, PartialEq, Eq, Structural)]
pub enum ImpedanceSource {
    /// Already a thermal impedance.
    Impedance,
    /// A temperature, turned into an impedance by the power step.
    Temperature,
    /// A voltage, turned into a temperature by the calibration.
    Voltage,
}

/// Where the impedance curve comes from for an input mode; raw T3Ster input
/// must first be read into a temperature curve.
pub fn impedance_source(mode: InputMode) -> (r: Result<ImpedanceSource, PyrthError>)
    ensures
        mode == InputMode::Impedance ==> r == Ok::<ImpedanceSource, PyrthError>(
            ImpedanceSource::Impedance,
        ),
        mode == InputMode::Temperature ==> r == Ok::<ImpedanceSource, PyrthError>(
            ImpedanceSource::Temperature,
        ),
        mode == InputMode::Voltage ==> r == Ok::<ImpedanceSource, PyrthError>(
            ImpedanceSource::Voltage,
        ),
        mode == InputMode::T3ster ==> (r matches Err(e) && e@
            == PyrthErrorView::UnsupportedInputMode("t3ster"@)),
{
    match mode {
        InputMode::Impedance => Ok(ImpedanceSource::Impedance),
        InputMode::Temperature => Ok(ImpedanceSource::Temperature),
        InputMode::Voltage => Ok(ImpedanceSource::Voltage),
        InputMode::T3ster => Err(PyrthError::UnsupportedInputMode(owned("t3ster"))),
    }
}

/// The end of the kept samples: the upper cut if given, never past the data.
pub open spec fn cut_end(len: usize, upper: Option<usize>) -> usize {
    let u = match upper {
        Some(u) => u,
        None => len,
    };
    if u < len {
        u
    } else {
        len
    }
}

/// The samples kept of `len` samples: from `lower` up to the upper cut
/// (excluded). The range must not be empty.
pub fn cut_bounds(len: usize, lower: usize, upper: Option<usize>) -> (r: Result<
    (usize, usize),
    PyrthError,
>)
    ensures
        lower < cut_end(len, upper) ==> r == Ok::<(usize, usize), PyrthError>(
            (lower, cut_end(len, upper)),
        ),
        lower >= cut_end(len, upper) ==> (r matches Err(e) && e@ == PyrthErrorView::InvalidParameter(
            "data_cut_lower"@,
            "less than data_cut_upper and input length"@,
            decimal_text(lower as nat),
        )),
{
    let end_given = match upper {
        Some(u) => u,
        None => len,
    };
    let end = if end_given < len {
        end_given
    } else {
        len
    };
    if lower >= end {
        return Err(
            PyrthError::InvalidParameter {
                parameter: "data_cut_lower",
                expected: "less than data_cut_upper and input length",
                actual: usize_text(lower),
            },
        );
    }
    Ok((lower, end))
}

/// The text of a pair of indices, as `(a, b)`.
pub open spec fn pair_text(a: usize, b: usize) -> Seq<char> {
    "("@ + decimal_text(a as nat) + ", "@ + decimal_text(b as nat) + ")"@
}

/// The samples, of `len`, whose values are averaged: the given range,
/// clipped to the data. The clipped range must not be empty; otherwise the
/// error names `parameter` and the range given.
pub fn average_bounds(len: usize, range: (usize, usize), parameter: &'static str) -> (r: Result<
    (usize, usize),
    PyrthError,
>)
    ensures
        ({
            let start = if range.0 < len {
                range.0
            } else {
                len
            };
            let end = if range.1 < len {
                range.1
            } else {
                len
            };
            &&& start < end ==> r == Ok::<(usize, usize), PyrthError>((start, end))
            &&& start >= end ==> (r matches Err(e) && e@ == PyrthErrorView::InvalidParameter(
                parameter@,
                "non-empty range inside input length"@,
                pair_text(range.0, range.1),
            ))
        }),
{
    let start = if range.0 < len {
        range.0
    } else {
        len
    };
    let end = if range.1 < len {
        range.1
    } else {
        len
    };
    if start >= end {
        let mut actual = owned("(");
        let a = usize_text(range.0);
        actual.append(a.as_str());
        actual.append(", ");
        let b = usize_text(range.1);
        actual.append(b.as_str());
        actual.append(")");
        return Err(
            PyrthError::InvalidParameter {
                parameter,
                expected: "non-empty range inside input length",
                actual,
            },
        );
    }
    Ok((start, end))
}

/// Why a voltage calibration fit of `degree` on `rows` calibration points is
/// impossible, if it is: the degree is at most two, and there are more
/// points than the degree.
pub open spec fn voltage_fit_error(degree: usize, rows: usize) -> Option<PyrthErrorView> {
    if degree > 2 {
        Some(
            PyrthErrorView::InvalidParameter(
                "kfac_fit_deg"@,
                "0, 1, or 2"@,
                decimal_text(degree as nat),
            ),
        )
    } else if rows <= degree {
        Some(
            PyrthErrorView::InvalidParameter(
                "calibration"@,
                "more calibration rows than polynomial degree"@,
                decimal_text(rows as nat),
            ),
        )
    } else {
        None
    }
}

/// Checks that a voltage calibration fit is possible; see
/// [`voltage_fit_error`].
pub fn check_voltage_fit(degree: usize, rows: usize) -> (r: Result<(), PyrthError>)
    ensures
        check_view(r) == voltage_fit_error(degree, rows),
{
    if degree > 2 {
        return Err(
            PyrthError::InvalidParameter {
                parameter: "kfac_fit_deg",
                expected: "0, 1, or 2",
                actual: usize_text(degree),
            },
        );
    }
    if rows <= degree {
        return Err(
            PyrthError::InvalidParameter {
                parameter: "calibration",
                expected: "more calibration rows than polynomial degree",
                actual: usize_text(rows),
            },
        );
    }
    Ok(())
}

/// Why a T3Ster calibration fit of `degree` on `rows` calibration points is
/// impossible, if it is: the degree is one or two, and there are more
/// points than the degree.
pub open spec fn t3ster_fit_error(degree: usize, rows: usize) -> Option<PyrthErrorView> {
    if degree == 0 || degree > 2 {
        Some(
            PyrthErrorView::InvalidParameter(
                "kfac_fit_deg"@,
                "1 or 2 for T3Ster calibration"@,
                decimal_text(degree as nat),
            ),
        )
    } else if rows <= degree {
        Some(
            PyrthErrorView::InvalidParameter(
                "t3ster calibration"@,
                "more calibration rows than polynomial degree"@,
                decimal_text(rows as nat),
            ),
        )
    } else {
        None
    }
}

/// Checks that a T3Ster calibration fit is possible; see
/// [`t3ster_fit_error`].
pub fn check_t3ster_fit(degree: usize, rows: usize) -> (r: Result<(), PyrthError>)
    ensures
        check_view(r) == t3ster_fit_error(degree, rows),
{
    if degree == 0 || degree > 2 {
        return Err(
            PyrthError::InvalidParameter {
                parameter: "kfac_fit_deg",
                expected: "1 or 2 for T3Ster calibration",
                actual: usize_text(degree),
            },
        );
    }
    if rows <= degree {
        return Err(
            PyrthError::InvalidParameter {
                parameter: "t3ster calibration",
                expected: "more calibration rows than polynomial degree",
                actual: usize_text(rows),
            },
        );
    }
    Ok(())
}

} // verus!
