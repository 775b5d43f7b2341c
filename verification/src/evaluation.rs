//! Which stages an evaluation runs, and on which inputs it refuses to run.
use vstd::prelude::*;

use crate::config::{structure_method_label, InputMode, StructureMethod};
use crate::error::{check_view, PyrthError, PyrthErrorView};
use crate::text::{decimal_text, owned, usize_text};

verus! {

/// Why an evaluation refuses an input of `sample_count` samples, if it does:
/// raw T3Ster input is not evaluated directly, and a full evaluation needs at
/// least two samples, more than `min_index`, and at least
/// `minimum_window_size`.
pub open spec fn evaluation_input_error(
    input_mode: InputMode,
    only_make_z: bool,
    min_index: usize,
    minimum_window_size: usize,
    sample_count: usize,
) -> Option<PyrthErrorView> {
    if input_mode == InputMode::T3ster {
        Some(PyrthErrorView::UnsupportedInputMode("t3ster"@))
    } else if !only_make_z && sample_count < 2 {
        Some(
            PyrthErrorView::InvalidParameter(
                "data"@,
                "at least two samples when only_make_z is false"@,
                decimal_text(sample_count as nat),
            ),
        )
    } else if !only_make_z && sample_count <= min_index {
        Some(
            PyrthErrorView::InvalidParameter(
                "min_index"@,
                "less than input sample count"@,
                decimal_text(min_index as nat),
            ),
        )
    } else if !only_make_z && sample_count < minimum_window_size {
        Some(
            PyrthErrorView::InvalidParameter(
                "minimum_window_size"@,
                "less than or equal to input sample count"@,
                decimal_text(minimum_window_size as nat),
            ),
        )
    } else {
        None
    }
}

/// Checks that an evaluation can run on an input of `sample_count` samples;
/// see [`evaluation_input_error`].
pub fn check_evaluation_input(
    input_mode: InputMode,
    only_make_z: bool,
    min_index: usize,
    minimum_window_size: usize,
    sample_count: usize,
) -> (r: Result<(), PyrthError>)
    ensures
        check_view(r) == evaluation_input_error(
            input_mode,
            only_make_z,
            min_index,
            minimum_window_size,
            sample_count,
        ),
{
    if input_mode == InputMode::T3ster {
        return Err(PyrthError::UnsupportedInputMode(owned("t3ster")));
    }
    if !only_make_z && sample_count < 2 {
        return Err(
            PyrthError::InvalidParameter {
                parameter: "data",
                expected: "at least two samples when only_make_z is false",
                actual: usize_text(sample_count),
            },
        );
    }
    if !only_make_z && sample_count <= min_index {
        return Err(
            PyrthError::InvalidParameter {
                parameter: "min_index",
                expected: "less than input sample count",
                actual: usize_text(min_index),
            },
        );
    }
    if !only_make_z && sample_count < minimum_window_size {
        return Err(
            PyrthError::InvalidParameter {
                parameter: "minimum_window_size",
                expected: "less than or equal to input sample count",
                actual: usize_text(minimum_window_size),
            },
        );
    }
    Ok(())
}

/// Whether the structure (Cauer) stage runs: not at all when it is switched
/// off; with the Lanczos method it runs; every other method is unavailable.
pub fn structure_stage(calc_struc: bool, method: StructureMethod) -> (r: Result<bool, PyrthError>)
    ensures
        !calc_struc ==> (r matches Ok(run) && !run),
        calc_struc && method == StructureMethod::Lanczos ==> (r matches Ok(run) && run),
        calc_struc && method != StructureMethod::Lanczos ==> (r matches Err(e) && e@
            == PyrthErrorView::UnsupportedStructureMethod(structure_method_label(method))),
{
    if !calc_struc {
        Ok(false)
    } else {
        match method {
            StructureMethod::Lanczos => Ok(true),
            _ => Err(PyrthError::UnsupportedStructureMethod(method.label())),
        }
    }
}


/// A real-valued setting as its check sees it: whether the value lies in its
/// admitted range, and the value written as text for the report.
pub struct RealSetting {
    pub in_range: bool,
    pub text: String,
}

/// The settings of an evaluation that are checked before it runs. Counts
/// are held as they are; each real-valued setting as a [`RealSetting`].
pub struct EvaluationSettings {
    pub precision: usize,
    pub log_time_size: usize,
    pub filter_range: RealSetting,
    pub filter_parameter: RealSetting,
    pub minimum_window_size: usize,
    pub pad_factor_pre: RealSetting,
    pub pad_factor_after: RealSetting,
    pub minimum_window_length: RealSetting,
    pub maximum_window_length: RealSetting,
    pub window_increment: RealSetting,
    pub expected_var: RealSetting,
    pub lasso_alpha: RealSetting,
    pub lasso_max_iter: usize,
    pub lasso_tol: RealSetting,
    pub timespec_interpolate_factor: RealSetting,
    pub blockwise_sum_width: usize,
}

/// The first setting, in the order of the fields, that lies outside its
/// range, reported with the range it must lie in; `None` when all do. A count
/// must be greater than zero.
pub open spec fn settings_error(s: EvaluationSettings) -> Option<PyrthErrorView> {
    if s.precision == 0 {
        Some(
            PyrthErrorView::InvalidParameter(
                "precision"@,
                "greater than zero"@,
                decimal_text(s.precision as nat),
            ),
        )
    } else if s.log_time_size == 0 {
        Some(
            PyrthErrorView::InvalidParameter(
                "log_time_size"@,
                "greater than zero"@,
                decimal_text(s.log_time_size as nat),
            ),
        )
    } else if !s.filter_range.in_range {
        Some(
            PyrthErrorView::InvalidParameter(
                "filter_range"@,
                "finite and greater than zero"@,
                s.filter_range.text@,
            ),
        )
    } else if !s.filter_parameter.in_range {
        Some(
            PyrthErrorView::InvalidParameter(
                "filter_parameter"@,
                "finite"@,
                s.filter_parameter.text@,
            ),
        )
    } else if s.minimum_window_size == 0 {
        Some(
            PyrthErrorView::InvalidParameter(
                "minimum_window_size"@,
                "greater than zero"@,
                decimal_text(s.minimum_window_size as nat),
            ),
        )
    } else if !s.pad_factor_pre.in_range {
        Some(
            PyrthErrorView::InvalidParameter(
                "pad_factor_pre"@,
                "finite and non-negative"@,
                s.pad_factor_pre.text@,
            ),
        )
    } else if !s.pad_factor_after.in_range {
        Some(
            PyrthErrorView::InvalidParameter(
                "pad_factor_after"@,
                "finite and non-negative"@,
                s.pad_factor_after.text@,
            ),
        )
    } else if !s.minimum_window_length.in_range {
        Some(
            PyrthErrorView::InvalidParameter(
                "minimum_window_length"@,
                "finite and greater than zero"@,
                s.minimum_window_length.text@,
            ),
        )
    } else if !s.maximum_window_length.in_range {
        Some(
            PyrthErrorView::InvalidParameter(
                "maximum_window_length"@,
                "finite and at least minimum_window_length"@,
                s.maximum_window_length.text@,
            ),
        )
    } else if !s.window_increment.in_range {
        Some(
            PyrthErrorView::InvalidParameter(
                "window_increment"@,
                "finite and greater than zero"@,
                s.window_increment.text@,
            ),
        )
    } else if !s.expected_var.in_range {
        Some(
            PyrthErrorView::InvalidParameter(
                "expected_var"@,
                "finite and non-negative"@,
                s.expected_var.text@,
            ),
        )
    } else if !s.lasso_alpha.in_range {
        Some(
            PyrthErrorView::InvalidParameter(
                "lasso_alpha"@,
                "finite and non-negative"@,
                s.lasso_alpha.text@,
            ),
        )
    } else if s.lasso_max_iter == 0 {
        Some(
            PyrthErrorView::InvalidParameter(
                "lasso_max_iter"@,
                "greater than zero"@,
                decimal_text(s.lasso_max_iter as nat),
            ),
        )
    } else if !s.lasso_tol.in_range {
        Some(
            PyrthErrorView::InvalidParameter(
                "lasso_tol"@,
                "finite and greater than zero"@,
                s.lasso_tol.text@,
            ),
        )
    } else if !s.timespec_interpolate_factor.in_range {
        Some(
            PyrthErrorView::InvalidParameter(
                "timespec_interpolate_factor"@,
                "finite and at least 1"@,
                s.timespec_interpolate_factor.text@,
            ),
        )
    } else if s.blockwise_sum_width == 0 {
        Some(
            PyrthErrorView::InvalidParameter(
                "blockwise_sum_width"@,
                "greater than zero"@,
                decimal_text(s.blockwise_sum_width as nat),
            ),
        )
    } else {
        None
    }
}

/// Every count setting is positive and every real-valued setting lies in
/// its range.
pub open spec fn settings_in_range(s: EvaluationSettings) -> bool {
    &&& s.precision > 0
    &&& s.log_time_size > 0
    &&& s.minimum_window_size > 0
    &&& s.lasso_max_iter > 0
    &&& s.blockwise_sum_width > 0
    &&& s.filter_range.in_range
    &&& s.filter_parameter.in_range
    &&& s.pad_factor_pre.in_range
    &&& s.pad_factor_after.in_range
    &&& s.minimum_window_length.in_range
    &&& s.maximum_window_length.in_range
    &&& s.window_increment.in_range
    &&& s.expected_var.in_range
    &&& s.lasso_alpha.in_range
    &&& s.lasso_tol.in_range
    &&& s.timespec_interpolate_factor.in_range
}

/// Settings are refused exactly when one of them is out of its range: every
/// count must be positive and every real-valued setting in range, and an
/// evaluation whose settings all are is let through.
pub proof fn lemma_settings_refused_iff_out_of_range(s: EvaluationSettings)
    ensures
        settings_error(s) is None <==> settings_in_range(s),
{
}

/// Checks the settings of an evaluation before it runs; see
/// [`settings_error`].
pub fn validate_params(s: EvaluationSettings) -> (r: Result<(), PyrthError>)
    ensures
        check_view(r) == settings_error(s),
        r is Ok <==> settings_in_range(s),
{
    if s.precision == 0 {
        return Err(
            PyrthError::InvalidParameter {
                parameter: "precision",
                expected: "greater than zero",
                actual: usize_text(s.precision),
            },
        );
    }
    if s.log_time_size == 0 {
        return Err(
            PyrthError::InvalidParameter {
                parameter: "log_time_size",
                expected: "greater than zero",
                actual: usize_text(s.log_time_size),
            },
        );
    }
    if !s.filter_range.in_range {
        return Err(
            PyrthError::InvalidParameter {
                parameter: "filter_range",
                expected: "finite and greater than zero",
                actual: s.filter_range.text,
            },
        );
    }
    if !s.filter_parameter.in_range {
        return Err(
            PyrthError::InvalidParameter {
                parameter: "filter_parameter",
                expected: "finite",
                actual: s.filter_parameter.text,
            },
        );
    }
    if s.minimum_window_size == 0 {
        return Err(
            PyrthError::InvalidParameter {
                parameter: "minimum_window_size",
                expected: "greater than zero",
                actual: usize_text(s.minimum_window_size),
            },
        );
    }
    if !s.pad_factor_pre.in_range {
        return Err(
            PyrthError::InvalidParameter {
                parameter: "pad_factor_pre",
                expected: "finite and non-negative",
                actual: s.pad_factor_pre.text,
            },
        );
    }
    if !s.pad_factor_after.in_range {
        return Err(
            PyrthError::InvalidParameter {
                parameter: "pad_factor_after",
                expected: "finite and non-negative",
                actual: s.pad_factor_after.text,
            },
        );
    }
    if !s.minimum_window_length.in_range {
        return Err(
            PyrthError::InvalidParameter {
                parameter: "minimum_window_length",
                expected: "finite and greater than zero",
                actual: s.minimum_window_length.text,
            },
        );
    }
    if !s.maximum_window_length.in_range {
        return Err(
            PyrthError::InvalidParameter {
                parameter: "maximum_window_length",
                expected: "finite and at least minimum_window_length",
                actual: s.maximum_window_length.text,
            },
        );
    }
    if !s.window_increment.in_range {
        return Err(
            PyrthError::InvalidParameter {
                parameter: "window_increment",
                expected: "finite and greater than zero",
                actual: s.window_increment.text,
            },
        );
    }
    if !s.expected_var.in_range {
        return Err(
            PyrthError::InvalidParameter {
                parameter: "expected_var",
                expected: "finite and non-negative",
                actual: s.expected_var.text,
            },
        );
    }
    if !s.lasso_alpha.in_range {
        return Err(
            PyrthError::InvalidParameter {
                parameter: "lasso_alpha",
                expected: "finite and non-negative",
                actual: s.lasso_alpha.text,
            },
        );
    }
    if s.lasso_max_iter == 0 {
        return Err(
            PyrthError::InvalidParameter {
                parameter: "lasso_max_iter",
                expected: "greater than zero",
                actual: usize_text(s.lasso_max_iter),
            },
        );
    }
    if !s.lasso_tol.in_range {
        return Err(
            PyrthError::InvalidParameter {
                parameter: "lasso_tol",
                expected: "finite and greater than zero",
                actual: s.lasso_tol.text,
            },
        );
    }
    if !s.timespec_interpolate_factor.in_range {
        return Err(
            PyrthError::InvalidParameter {
                parameter: "timespec_interpolate_factor",
                expected: "finite and at least 1",
                actual: s.timespec_interpolate_factor.text,
            },
        );
    }
    if s.blockwise_sum_width == 0 {
        return Err(
            PyrthError::InvalidParameter {
                parameter: "blockwise_sum_width",
                expected: "greater than zero",
                actual: usize_text(s.blockwise_sum_width),
            },
        );
    }
    Ok(())
}

} // verus!
