//! Which repetitions of a bootstrap are kept.
//!
//! Each repetition evaluates a noisy copy of the input. A repetition is kept
//! when its evaluation succeeded with a time constant spectrum, and its
//! impedance and spectrum have as many samples as those of the first kept
//! repetition, so that the kept ones can be summarised sample by sample.
use vstd::prelude::*;

use crate::error::{check_view, PyrthError, PyrthErrorView};
use crate::text::{decimal_text, owned, usize_text};

verus! {

/// Why a bootstrap of `repetitions` repetitions is refused, if it is.
pub open spec fn repetitions_error(repetitions: usize) -> Option<PyrthErrorView> {
    if repetitions == 0 {
        Some(
            PyrthErrorView::InvalidParameter(
                "repetitions"@,
                "greater than zero"@,
                decimal_text(0),
            ),
        )
    } else {
        None
    }
}

/// Refuses a bootstrap with no repetition; see [`repetitions_error`].
pub fn check_repetitions(repetitions: usize) -> (r: Result<(), PyrthError>)
    ensures
        check_view(r) == repetitions_error(repetitions),
{
    if repetitions == 0 {
        return Err(
            PyrthError::InvalidParameter {
                parameter: "repetitions",
                expected: "greater than zero",
                actual: usize_text(repetitions),
            },
        );
    }
    Ok(())
}

/// The repetitions kept so far: how many, and the sample counts (impedance,
/// spectrum) of the first one.
pub struct BootstrapTally {
    first: Option<(usize, usize)>,
    kept: usize,
}

impl BootstrapTally {
    /// The sample counts of the first kept repetition, if any was kept.
    pub closed spec fn first_shape(self) -> Option<(usize, usize)> {
        self.first
    }

    /// How many repetitions were kept.
    pub closed spec fn kept_count(self) -> nat {
        self.kept as nat
    }

    /// A shape is recorded exactly when some repetition was kept.
    pub closed spec fn wf(self) -> bool {
        self.first is Some <==> self.kept > 0
    }

    /// No repetition kept yet.
    pub fn new() -> (r: Self)
        ensures
            r.wf(),
            r.kept_count() == 0,
            r.first_shape() is None,
    {
        BootstrapTally { first: None, kept: 0 }
    }

    /// Offers a repetition whose evaluation succeeded with a spectrum, with
    /// `impedance_len` impedance samples and `spectrum_len` spectrum samples.
    /// It is kept when it is the first, or has the sample counts of the first.
    pub fn offer(&mut self, impedance_len: usize, spectrum_len: usize) -> (r: bool)
        requires
            old(self).wf(),
            old(self).kept_count() < usize::MAX,
        ensures
            final(self).wf(),
            r == match old(self).first_shape() {
                None => true,
                Some(shape) => shape == (impedance_len, spectrum_len),
            },
            r ==> final(self).first_shape() == Some((impedance_len, spectrum_len)),
            old(self).first_shape() is Some ==> final(self).first_shape()
                == old(self).first_shape(),
            final(self).kept_count() == old(self).kept_count() + if r {
                1nat
            } else {
                0nat
            },
    {
        match self.first {
            None => {
                self.first = Some((impedance_len, spectrum_len));
                self.kept = self.kept + 1;
                true
            },
            Some((first_impedance, first_spectrum)) => {
                if first_impedance == impedance_len && first_spectrum == spectrum_len {
                    self.kept = self.kept + 1;
                    true
                } else {
                    false
                }
            },
        }
    }

    /// How many repetitions were kept; refused when none was.
    pub fn successful_repetitions(&self) -> (r: Result<usize, PyrthError>)
        requires
            self.wf(),
        ensures
            self.kept_count() == 0 ==> (r matches Err(e) && e@ == PyrthErrorView::InvalidParameter(
                "repetitions"@,
                "at least one successful evaluation"@,
                "0"@,
            )),
            self.kept_count() > 0 ==> (r matches Ok(n) && n == self.kept_count()),
    {
        if self.kept == 0 {
            return Err(
                PyrthError::InvalidParameter {
                    parameter: "repetitions",
                    expected: "at least one successful evaluation",
                    actual: owned("0"),
                },
            );
        }
        Ok(self.kept)
    }
}

} // verus!
