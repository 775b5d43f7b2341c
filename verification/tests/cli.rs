use pyrth::cli::{parse_cli_args, CliArgs, CliCommand, CliError};
use pyrth::config::{DeconvMode, FourierFilter, InputMode, StructureMethod};

fn parse(args: &[&str]) -> Result<CliCommand, CliError> {
    let args: Vec<String> = args.iter().map(|a| a.to_string()).collect();
    let float_ok: Vec<bool> = args.iter().map(|a| a.parse::<f64>().is_ok()).collect();
    let items_ok: Vec<Vec<bool>> = args
        .iter()
        .map(|a| a.split(',').map(str::trim).map(|p| p.parse::<f64>().is_ok()).collect())
        .collect();
    parse_cli_args(&args, &float_ok, &items_ok)
}

fn run(args: &[&str]) -> CliArgs {
    match parse(args) {
        Ok(CliCommand::Run(a)) => a,
        Ok(CliCommand::Help) => panic!("help"),
        Err(e) => panic!("{e:?}"),
    }
}

fn error(args: &[&str]) -> CliError {
    match parse(args) {
        Err(e) => e,
        Ok(_) => panic!("accepted {args:?}"),
    }
}

#[test]
fn positional_input_and_output_with_options() {
    let a = run(&[
        "data.csv",
        "out",
        "--bay-steps",
        "5",
        "--lasso-alpha",
        "0.5",
        "--only-make-z",
        "--deconv",
        "LASSO",
        "--filter",
        "gaussian",
        "--struc-method",
        "poly_long",
        "--input-mode",
        "volt",
    ]);
    assert_eq!(a.input.as_deref(), Some("data.csv"));
    assert_eq!(a.output_dir.as_deref(), Some("out"));
    assert_eq!(a.bay_steps, Some(5));
    assert_eq!(a.lasso_alpha.as_deref(), Some("0.5"));
    assert!(a.only_make_z);
    assert!(!a.no_structure);
    assert_eq!(a.deconv_mode, DeconvMode::Lasso);
    assert_eq!(a.filter_name, FourierFilter::Gauss);
    assert_eq!(a.structure_method, StructureMethod::PolyLong);
    assert_eq!(a.input_mode, InputMode::Voltage);
    assert!(!a.has_theoretical_model());
}

#[test]
fn defaults_without_options() {
    let a = run(&["-i", "x.csv"]);
    assert_eq!(a.input.as_deref(), Some("x.csv"));
    assert_eq!(a.output_dir, None);
    assert_eq!(a.output_dir_or_default(), "output/rust-cli");
    assert_eq!(a.input_mode, InputMode::Impedance);
    assert_eq!(a.deconv_mode, DeconvMode::Bayesian);
    assert_eq!(a.structure_method, StructureMethod::Lanczos);
    assert_eq!(a.filter_name, FourierFilter::Hann);
    assert_eq!(a.precision, None);
    assert_eq!(a.temp_0_avg_range, None);
}

#[test]
fn every_option_is_read() {
    let a = run(&[
        "--input", "in.csv", "--output", "o", "--figures-output", "f", "--no-structure",
        "--log-time-size", "100", "--blockwise-sum-width", "3", "--min-index", "4",
        "--minimum-window-size", "6", "--lasso-max-iter", "7", "--lasso-tol", "1e-3",
        "--timespec-interpolate-factor", "2", "--precision", "+64", "--filter-range", "0.6",
        "--filter-parameter", "1", "--power-step", "2.5", "--power-scale-factor", "1",
        "--optical-power", "0.1", "--is-heating", "--kfac-fit-deg", "1", "--calibration", "c.csv",
        "--t3ster-power", "p.pwr", "--t3ster-calibration", "t.tco", "--data-cut-lower", "2",
        "--data-cut-upper", "90", "--temp-zero-range", "3:7", "--extrapolate",
        "--lower-fit-limit", "1e-5", "--upper-fit-limit", "1e-4",
    ]);
    assert_eq!(a.output_dir.as_deref(), Some("o"));
    assert_eq!(a.figures_output_dir.as_deref(), Some("f"));
    assert!(a.no_structure && a.is_heating && a.extrapolate);
    assert_eq!(a.log_time_size, Some(100));
    assert_eq!(a.blockwise_sum_width, Some(3));
    assert_eq!(a.min_index, Some(4));
    assert_eq!(a.minimum_window_size, Some(6));
    assert_eq!(a.lasso_max_iter, Some(7));
    assert_eq!(a.lasso_tol.as_deref(), Some("1e-3"));
    assert_eq!(a.timespec_interpolate_factor.as_deref(), Some("2"));
    assert_eq!(a.precision, Some(64));
    assert_eq!(a.filter_range.as_deref(), Some("0.6"));
    assert_eq!(a.filter_parameter.as_deref(), Some("1"));
    assert_eq!(a.power_step.as_deref(), Some("2.5"));
    assert_eq!(a.power_scale_factor.as_deref(), Some("1"));
    assert_eq!(a.optical_power.as_deref(), Some("0.1"));
    assert_eq!(a.kfac_fit_deg, Some(1));
    assert_eq!(a.calibration.as_deref(), Some("c.csv"));
    assert_eq!(a.t3ster_power.as_deref(), Some("p.pwr"));
    assert_eq!(a.t3ster_calibration.as_deref(), Some("t.tco"));
    assert_eq!(a.data_cut_lower, Some(2));
    assert_eq!(a.data_cut_upper, Some(90));
    assert_eq!(a.temp_0_avg_range, Some((3, 7)));
    assert_eq!(a.lower_fit_limit.as_deref(), Some("1e-5"));
    assert_eq!(a.upper_fit_limit.as_deref(), Some("1e-4"));
}

#[test]
fn help_stops_reading_at_once() {
    assert!(matches!(parse(&["--help", "--bay-steps", "x"]), Ok(CliCommand::Help)));
    assert!(matches!(parse(&["-h"]), Ok(CliCommand::Help)));
    assert!(matches!(
        parse(&["--bay-steps", "x", "--help"]),
        Err(CliError::InvalidCount { .. })
    ));
}

#[test]
fn missing_and_invalid_values() {
    match error(&["in.csv", "--precision"]) {
        CliError::MissingValue { flag } => assert_eq!(flag, "--precision"),
        e => panic!("{e:?}"),
    }
    match error(&["in.csv", "--deconv-mode"]) {
        CliError::MissingValue { flag } => assert_eq!(flag, "--deconv"),
        e => panic!("{e:?}"),
    }
    match error(&["in.csv", "--bay-steps", "-3"]) {
        CliError::InvalidCount { flag, value } => {
            assert_eq!(flag, "--bay-steps");
            assert_eq!(value, "-3");
        }
        e => panic!("{e:?}"),
    }
    match error(&["in.csv", "--lasso-tol", "abc"]) {
        CliError::InvalidNumber { flag, value } => {
            assert_eq!(flag, "--lasso-tol");
            assert_eq!(value, "abc");
        }
        e => panic!("{e:?}"),
    }
    match error(&["in.csv", "--input-mode", "x"]) {
        CliError::UnknownLabel { kind, value } => {
            assert_eq!(kind, "input mode");
            assert_eq!(value, "x");
        }
        e => panic!("{e:?}"),
    }
}

#[test]
fn range_option() {
    assert!(matches!(
        error(&["in.csv", "--temp-zero-range", "37"]),
        CliError::MissingRangeSeparator { .. }
    ));
    match error(&["in.csv", "--temp-zero-range", "a:7"]) {
        CliError::InvalidRangeBound { text } => assert_eq!(text, "a"),
        e => panic!("{e:?}"),
    }
    match error(&["in.csv", "--temp-zero-range", "1:2:3"]) {
        CliError::InvalidRangeBound { text } => assert_eq!(text, "2:3"),
        e => panic!("{e:?}"),
    }
}

#[test]
fn theoretical_model_arguments() {
    let a = run(&[
        "--theoretical-resistance",
        "1, 2,3",
        "--theoretical-capacitance",
        "0.1,0.2,0.3",
        "--time-start",
        "1e-6",
        "--time-end",
        "10",
        "--time-size",
        "64",
    ]);
    assert!(a.has_theoretical_model());
    assert_eq!(a.input, None);
    assert_eq!(a.theoretical_resistance, Some(vec!["1".to_string(), "2".to_string(), "3".to_string()]));
    assert_eq!(a.time_size, Some(64));

    match error(&["--theoretical-resistance", "1,,2"]) {
        CliError::EmptyListItem { flag } => assert_eq!(flag, "--theoretical-resistance"),
        e => panic!("{e:?}"),
    }
    match error(&["--theoretical-capacitance", "1, x"]) {
        CliError::InvalidListItem { flag, item } => {
            assert_eq!(flag, "--theoretical-capacitance");
            assert_eq!(item, "x");
        }
        e => panic!("{e:?}"),
    }
    assert!(matches!(
        error(&["--theoretical-resistance", "1", "in.csv"]),
        CliError::TheoreticalPairing
    ));
    assert!(matches!(error(&["in.csv", "--time-start", "1"]), CliError::TheoreticalPairing));
    assert!(matches!(
        error(&["--theoretical-resistance", "1", "--theoretical-capacitance", "2"]),
        CliError::TheoreticalTimeRange
    ));
    assert!(matches!(
        error(&[
            "--theoretical-resistance", "1,2", "--theoretical-capacitance", "2",
            "--time-start", "1", "--time-end", "2", "--time-size", "3",
        ]),
        CliError::TheoreticalLengthMismatch { resistance_len: 2, capacitance_len: 1 }
    ));
}

#[test]
fn input_is_required_and_extra_positionals_refused() {
    assert!(matches!(error(&[]), CliError::MissingInputPath));
    assert!(matches!(error(&["--input"]), CliError::MissingInputPath));
    match error(&["a", "b", "c"]) {
        CliError::UnknownArgument { arg } => assert_eq!(arg, "c"),
        e => panic!("{e:?}"),
    }
}

#[test]
fn later_options_override_earlier_ones() {
    let a = run(&["in.csv", "--bay-steps", "5", "--bay-steps", "9", "--deconv", "fft", "--deconv", "bayesian"]);
    assert_eq!(a.bay_steps, Some(9));
    assert_eq!(a.deconv_mode, DeconvMode::Bayesian);
}

#[test]
fn canonical_labels_select_their_modes() {
    for mode in [InputMode::T3ster, InputMode::Temperature, InputMode::Voltage, InputMode::Impedance] {
        assert_eq!(run(&["in.csv", "--input-mode", &mode.label()]).input_mode, mode);
    }
    for mode in [DeconvMode::Bayesian, DeconvMode::Fourier, DeconvMode::Lasso, DeconvMode::Adaptive] {
        assert_eq!(run(&["in.csv", "--deconv", &mode.label()]).deconv_mode, mode);
    }
    for mode in [
        StructureMethod::Lanczos,
        StructureMethod::Sobhy,
        StructureMethod::BoorGolub,
        StructureMethod::Khatwani,
        StructureMethod::PolyLong,
    ] {
        assert_eq!(run(&["in.csv", "--structure-method", &mode.label()]).structure_method, mode);
    }
    for mode in [
        FourierFilter::Hann,
        FourierFilter::Rectangular,
        FourierFilter::Gauss,
        FourierFilter::Fermi,
        FourierFilter::Nuttall,
        FourierFilter::BlackmanNuttall,
        FourierFilter::BlackmanHarris,
    ] {
        assert_eq!(run(&["in.csv", "--filter-name", &mode.label()]).filter_name, mode);
    }
}

#[test]
fn help_stops_reading_where_it_stands() {
    assert!(matches!(
        parse(&["in.csv", "--only-make-z", "-h", "--bogus", "x", "y"]),
        Ok(CliCommand::Help)
    ));
}
