//! The error type shared by the whole library.
use vstd::prelude::*;

verus! {

/// What can go wrong while reading, checking or evaluating a measurement.
#[derive(Debug, Clone)]
pub enum PyrthError {
    /// The input holds no sample.
    EmptyInput,
    /// Two paired arrays differ in length.
    LengthMismatch { time_len: usize, value_len: usize },
    /// Time values are not finite, positive and strictly increasing.
    InvalidTimeAxis,
    /// Some input value is not finite.
    InvalidValues,
    /// No time constant is left after filtering the spectrum.
    EmptySpectrum,
    /// The input mode (its label) is not supported by the stage.
    UnsupportedInputMode(String),
    /// A label that names no known mode of the given kind.
    UnknownMode { kind: &'static str, value: String },
    /// A parameter outside its admitted range.
    InvalidParameter { parameter: &'static str, expected: &'static str, actual: String },
    /// The structure method (its label) is not available.
    UnsupportedStructureMethod(String),
    /// Reading or writing a file failed; the text describes why.
    Io(String),
}

/// What an error reports, as values.
pub enum PyrthErrorView {
    EmptyInput,
    LengthMismatch(usize, usize),
    InvalidTimeAxis,
    InvalidValues,
    EmptySpectrum,
    UnsupportedInputMode(Seq<char>),
    UnknownMode(Seq<char>, Seq<char>),
    InvalidParameter(Seq<char>, Seq<char>, Seq<char>),
    UnsupportedStructureMethod(Seq<char>),
    Io(Seq<char>),
}

impl View for PyrthError {
    type V = PyrthErrorView;

    open spec fn view(&self) -> PyrthErrorView {
        match self {
            PyrthError::EmptyInput => PyrthErrorView::EmptyInput,
            PyrthError::LengthMismatch { time_len, value_len } => PyrthErrorView::LengthMismatch(
                *time_len,
                *value_len,
            ),
            PyrthError::InvalidTimeAxis => PyrthErrorView::InvalidTimeAxis,
            PyrthError::InvalidValues => PyrthErrorView::InvalidValues,
            PyrthError::EmptySpectrum => PyrthErrorView::EmptySpectrum,
            PyrthError::UnsupportedInputMode(m) => PyrthErrorView::UnsupportedInputMode(m@),
            PyrthError::UnknownMode { kind, value } => PyrthErrorView::UnknownMode(kind@, value@),
            PyrthError::InvalidParameter { parameter, expected, actual } =>
                PyrthErrorView::InvalidParameter(parameter@, expected@, actual@),
            PyrthError::UnsupportedStructureMethod(m) => PyrthErrorView::UnsupportedStructureMethod(
                m@,
            ),
            PyrthError::Io(m) => PyrthErrorView::Io(m@),
        }
    }
}

/// The outcome of a check, as values.
pub open spec fn check_view(r: Result<(), PyrthError>) -> Option<PyrthErrorView> {
    match r {
        Ok(()) => None,
        Err(e) => Some(e@),
    }
}

/// `e` is the error for a label `value` that names no mode of `kind`.
pub open spec fn is_unknown_mode(e: PyrthError, kind: Seq<char>, value: Seq<char>) -> bool {
    e matches PyrthError::UnknownMode { kind: k, value: v } && k@ == kind && v@ == value
}

/// `e` reports `parameter`, out of its range `expected`, with the offending
/// value written as `actual`.
pub open spec fn is_invalid_parameter(
    e: PyrthError,
    parameter: Seq<char>,
    expected: Seq<char>,
    actual: Seq<char>,
) -> bool {
    e matches PyrthError::InvalidParameter { parameter: p, expected: x, actual: a } && p@
        == parameter && x@ == expected && a@ == actual
}

/// Checks a pair of sample arrays by their lengths: they hold at least one
/// sample, and as many of one kind as of the other.
pub fn check_paired_lengths(time_len: usize, value_len: usize) -> (r: Result<(), PyrthError>)
    ensures
        time_len == 0 ==> check_view(r) == Some(PyrthErrorView::EmptyInput),
        time_len != 0 && time_len != value_len ==> check_view(r) == Some(
            PyrthErrorView::LengthMismatch(time_len, value_len),
        ),
        time_len != 0 && time_len == value_len ==> r is Ok,
{
    if time_len == 0 {
        return Err(PyrthError::EmptyInput);
    }
    if time_len != value_len {
        return Err(PyrthError::LengthMismatch { time_len, value_len });
    }
    Ok(())
}

} // verus!
