use pyrth::config::{InputMode, StructureMethod};
use pyrth::derivative::fit_window;
use pyrth::error::{check_paired_lengths, PyrthError};
use pyrth::evaluation::{
    check_evaluation_input, structure_stage, validate_params, EvaluationSettings, RealSetting,
};
use pyrth::network::{block_bounds, invalid_structure};
use pyrth::optimization::{flattened_split, validate_same_len};
use pyrth::preprocess::{
    average_bounds, check_t3ster_fit, check_voltage_fit, cut_bounds, impedance_source,
    ImpedanceSource,
};

fn invalid(r: PyrthError) -> (&'static str, &'static str, String) {
    match r {
        PyrthError::InvalidParameter { parameter, expected, actual } => (parameter, expected, actual),
        other => panic!("{other:?}"),
    }
}

#[test]
fn evaluation_input_checks() {
    assert!(check_evaluation_input(InputMode::Impedance, false, 3, 70, 100).is_ok());
    assert!(check_evaluation_input(InputMode::Temperature, true, 3, 70, 1).is_ok());
    assert!(matches!(
        check_evaluation_input(InputMode::T3ster, true, 3, 70, 100),
        Err(PyrthError::UnsupportedInputMode(m)) if m == "t3ster"
    ));
    assert_eq!(
        invalid(check_evaluation_input(InputMode::Impedance, false, 0, 1, 1).unwrap_err()),
        ("data", "at least two samples when only_make_z is false", "1".to_string())
    );
    assert_eq!(
        invalid(check_evaluation_input(InputMode::Impedance, false, 10, 2, 10).unwrap_err()),
        ("min_index", "less than input sample count", "10".to_string())
    );
    assert_eq!(
        invalid(check_evaluation_input(InputMode::Voltage, false, 3, 70, 50).unwrap_err()),
        ("minimum_window_size", "less than or equal to input sample count", "70".to_string())
    );
}

#[test]
fn structure_stage_follows_the_switch() {
    assert_eq!(structure_stage(true, StructureMethod::Lanczos).unwrap(), true);
    for method in [StructureMethod::Lanczos, StructureMethod::Sobhy] {
        assert_eq!(structure_stage(false, method).unwrap(), false);
    }
}

#[test]
fn impedance_sources() {
    assert_eq!(impedance_source(InputMode::Impedance).unwrap(), ImpedanceSource::Impedance);
    assert_eq!(impedance_source(InputMode::Temperature).unwrap(), ImpedanceSource::Temperature);
    assert_eq!(impedance_source(InputMode::Voltage).unwrap(), ImpedanceSource::Voltage);
    assert!(matches!(impedance_source(InputMode::T3ster), Err(PyrthError::UnsupportedInputMode(_))));
}

#[test]
fn cut_and_average_ranges() {
    assert_eq!(cut_bounds(10, 2, None).unwrap(), (2, 10));
    assert_eq!(cut_bounds(10, 2, Some(5)).unwrap(), (2, 5));
    assert_eq!(cut_bounds(10, 2, Some(50)).unwrap(), (2, 10));
    assert_eq!(
        invalid(cut_bounds(10, 5, Some(5)).unwrap_err()),
        ("data_cut_lower", "less than data_cut_upper and input length", "5".to_string())
    );
    assert_eq!(average_bounds(10, (0, 1), "temp_0_avg_range").unwrap(), (0, 1));
    assert_eq!(average_bounds(10, (8, 20), "temp_0_avg_range").unwrap(), (8, 10));
    assert_eq!(
        invalid(average_bounds(4, (5, 9), "temp_0_avg_range").unwrap_err()),
        ("temp_0_avg_range", "non-empty range inside input length", "(5, 9)".to_string())
    );
}

#[test]
fn calibration_fit_checks() {
    assert!(check_voltage_fit(0, 1).is_ok());
    assert!(check_voltage_fit(2, 3).is_ok());
    assert_eq!(invalid(check_voltage_fit(3, 10).unwrap_err()), ("kfac_fit_deg", "0, 1, or 2", "3".to_string()));
    assert_eq!(
        invalid(check_voltage_fit(2, 2).unwrap_err()),
        ("calibration", "more calibration rows than polynomial degree", "2".to_string())
    );
    assert!(check_t3ster_fit(1, 2).is_ok());
    assert_eq!(
        invalid(check_t3ster_fit(0, 10).unwrap_err()),
        ("kfac_fit_deg", "1 or 2 for T3Ster calibration", "0".to_string())
    );
    assert_eq!(
        invalid(check_t3ster_fit(2, 1).unwrap_err()),
        ("t3ster calibration", "more calibration rows than polynomial degree", "1".to_string())
    );
}

#[test]
fn blocks_tile_the_ladder() {
    assert_eq!(block_bounds(45, 20), vec![(0, 20), (20, 45)]);
    assert_eq!(block_bounds(40, 20), vec![(0, 20), (20, 40)]);
    assert_eq!(block_bounds(19, 20), vec![]);
    assert_eq!(block_bounds(5, 1), vec![(0, 1), (1, 2), (2, 3), (3, 4), (4, 5)]);
    for len in 1..60usize {
        for width in 1..=len {
            let blocks = block_bounds(len, width);
            assert_eq!(blocks.len(), len / width);
            assert_eq!(blocks[0].0, 0);
            assert_eq!(blocks[blocks.len() - 1].1, len);
            for pair in blocks.windows(2) {
                assert_eq!(pair[0].1, pair[1].0);
            }
        }
    }
}

#[test]
fn fit_windows_grow_and_shift_into_the_data() {
    assert_eq!(fit_window(2, 5, 7, 10), (0, 7));
    assert_eq!(fit_window(0, 2, 5, 10), (0, 6));
    assert_eq!(fit_window(8, 11, 4, 10), (5, 10));
    assert_eq!(fit_window(3, 9, 4, 10), (3, 9));
}

#[test]
fn length_checks() {
    assert!(validate_same_len(3, 3, "bounds").is_ok());
    assert_eq!(
        invalid(validate_same_len(3, 4, "bounds").unwrap_err()),
        ("bounds", "same length as paired array", "3 != 4".to_string())
    );
    assert_eq!(flattened_split(6).unwrap(), 3);
    assert_eq!(
        invalid(flattened_split(5).unwrap_err()),
        ("values", "non-empty even-length [resistance..., capacitance...] vector", "5".to_string())
    );
    assert!(flattened_split(0).is_err());
    let e: Result<(), PyrthError> = invalid_structure("finite positive Cauer elements");
    assert_eq!(
        invalid(e.unwrap_err()),
        ("structure_method", "finite positive Cauer elements", "finite-precision polynomial conversion failed".to_string())
    );
}

#[test]
fn paired_lengths() {
    assert!(check_paired_lengths(3, 3).is_ok());
    assert!(matches!(check_paired_lengths(0, 0), Err(PyrthError::EmptyInput)));
    assert!(matches!(check_paired_lengths(0, 2), Err(PyrthError::EmptyInput)));
    assert!(matches!(
        check_paired_lengths(2, 3),
        Err(PyrthError::LengthMismatch { time_len: 2, value_len: 3 })
    ));
}

fn real_setting(in_range: bool, text: &str) -> RealSetting {
    RealSetting { in_range, text: text.to_string() }
}

fn default_settings() -> EvaluationSettings {
    EvaluationSettings {
        precision: 305,
        log_time_size: 250,
        filter_range: real_setting(true, "0.6"),
        filter_parameter: real_setting(true, "0"),
        minimum_window_size: 35,
        pad_factor_pre: real_setting(true, "0.01"),
        pad_factor_after: real_setting(true, "0.01"),
        minimum_window_length: real_setting(true, "0.35"),
        maximum_window_length: real_setting(true, "3"),
        window_increment: real_setting(true, "0.1"),
        expected_var: real_setting(true, "0.01"),
        lasso_alpha: real_setting(true, "0.001"),
        lasso_max_iter: 1000,
        lasso_tol: real_setting(true, "0.0001"),
        timespec_interpolate_factor: real_setting(true, "1"),
        blockwise_sum_width: 20,
    }
}

#[test]
fn settings_in_range_pass() {
    assert!(validate_params(default_settings()).is_ok());
}

#[test]
fn zero_counts_are_refused() {
    let mut s = default_settings();
    s.precision = 0;
    assert_eq!(
        invalid(validate_params(s).unwrap_err()),
        ("precision", "greater than zero", "0".to_string())
    );
    let mut s = default_settings();
    s.blockwise_sum_width = 0;
    assert_eq!(
        invalid(validate_params(s).unwrap_err()),
        ("blockwise_sum_width", "greater than zero", "0".to_string())
    );
}

#[test]
fn first_setting_out_of_range_is_reported() {
    let mut s = default_settings();
    s.lasso_max_iter = 0;
    s.filter_range = real_setting(false, "-1");
    assert_eq!(
        invalid(validate_params(s).unwrap_err()),
        ("filter_range", "finite and greater than zero", "-1".to_string())
    );
    let mut s = default_settings();
    s.maximum_window_length = real_setting(false, "0.2");
    s.lasso_tol = real_setting(false, "NaN");
    assert_eq!(
        invalid(validate_params(s).unwrap_err()),
        ("maximum_window_length", "finite and at least minimum_window_length", "0.2".to_string())
    );
    let mut s = default_settings();
    s.timespec_interpolate_factor = real_setting(false, "0.5");
    assert_eq!(
        invalid(validate_params(s).unwrap_err()),
        ("timespec_interpolate_factor", "finite and at least 1", "0.5".to_string())
    );
}

#[test]
fn unimplemented_structure_methods_return_errors() {
    for structure_method in [
        StructureMethod::Sobhy,
        StructureMethod::BoorGolub,
        StructureMethod::Khatwani,
        StructureMethod::PolyLong,
    ] {
        let err = structure_stage(true, structure_method).unwrap_err();
        assert!(matches!(
            err,
            PyrthError::UnsupportedStructureMethod(mode) if mode == structure_method.label()
        ));
    }
}

#[test]
fn invalid_evaluation_params_return_errors() {
    // Default settings with `log_time_size` 0, on two samples.
    let mut settings = default_settings();
    settings.log_time_size = 0;
    let err = validate_params(settings).unwrap_err();
    assert!(matches!(err, PyrthError::InvalidParameter { parameter: "log_time_size", .. }));

    // Default settings (`min_index` 3, `minimum_window_size` 70) on one sample.
    assert!(validate_params(default_settings()).is_ok());
    let err = check_evaluation_input(InputMode::Impedance, false, 3, 70, 1).unwrap_err();
    assert!(matches!(err, PyrthError::InvalidParameter { parameter: "data", .. }));

    // The same on three samples.
    let err = check_evaluation_input(InputMode::Impedance, false, 3, 70, 3).unwrap_err();
    assert!(matches!(err, PyrthError::InvalidParameter { parameter: "min_index", .. }));
}

fn small_evaluation_passes_input_checks() {
    // Three samples, `min_index` 1, `minimum_window_size` 2, `log_time_size` 8.
    let mut settings = default_settings();
    settings.log_time_size = 8;
    settings.minimum_window_length = real_setting(true, "0.1");
    settings.maximum_window_length = real_setting(true, "0.2");
    settings.window_increment = real_setting(true, "0.1");
    assert!(validate_params(settings).is_ok());
    assert!(check_evaluation_input(InputMode::Impedance, false, 1, 2, 3).is_ok());
}

#[test]
fn boor_golub_stays_explicitly_unsupported_in_evaluate() {
    small_evaluation_passes_input_checks();
    for structure_method in [StructureMethod::BoorGolub] {
        let err = structure_stage(true, structure_method).unwrap_err();
        assert!(matches!(
            err,
            PyrthError::UnsupportedStructureMethod(mode) if mode == structure_method.label()
        ));
    }
}

#[test]
fn mpfr_structure_methods_stay_unsupported_in_evaluate_without_mpfr_feature() {
    small_evaluation_passes_input_checks();
    for structure_method in [
        StructureMethod::Sobhy,
        StructureMethod::Khatwani,
        StructureMethod::PolyLong,
    ] {
        let err = structure_stage(true, structure_method).unwrap_err();
        assert!(matches!(
            err,
            PyrthError::UnsupportedStructureMethod(mode) if mode == structure_method.label()
        ));
    }
}

#[test]
fn length_mismatch_is_rejected() {
    // One resistance against two capacitances.
    assert!(matches!(
        validate_same_len(1, 2, "capacitance"),
        Err(PyrthError::InvalidParameter { parameter: "capacitance", .. })
    ));
    // A two-sample reference against a one-sample candidate.
    assert!(matches!(
        validate_same_len(2, 1, "candidate"),
        Err(PyrthError::InvalidParameter { parameter: "candidate", .. })
    ));
}
