//! The command line of the evaluation tool.
//!
//! [`parse_cli_args`] reads the argument list into [`CliArgs`]: which input
//! to read, where to write, and every evaluation setting given on the command
//! line. Options that carry a real number keep the text given; whether a text
//! reads as a number is told by the caller, for every argument, so that the
//! first faulty argument is reported exactly where it stands.
use vstd::prelude::*;

use crate::config::{
    deconv_mode_label, deconv_mode_of, fourier_filter_label, fourier_filter_of, input_mode_label,
    input_mode_of, lemma_deconv_mode_label_roundtrip, lemma_fourier_filter_label_roundtrip,
    lemma_input_mode_label_roundtrip, lemma_structure_method_label_roundtrip,
    structure_method_label, structure_method_of, DeconvMode, FourierFilter, InputMode,
    StructureMethod,
};
use crate::text::{
    chars_are, chars_of, chars_views, owned, split_on, split_on_spec, split_once_at,
    split_once_spec, string_from_chars, string_views, trim, trim_spec,
};

verus! {

/// The value of a decimal digit.
pub open spec fn digit_value(c: char) -> int {
    (c as u32) - ('0' as u32)
}

/// An ASCII decimal digit.
pub open spec fn is_decimal_digit(c: char) -> bool {
    '0' <= c && c <= '9'
}

/// The number that a string of decimal digits spells.
pub open spec fn decimal_value(s: Seq<char>) -> int
    decreases s.len(),
{
    if s.len() == 0 {
        0
    } else {
        decimal_value(s.drop_last()) * 10 + digit_value(s.last())
    }
}

/// What `str::parse::<usize>` reads: an optional `+`, then one or more
/// decimal digits whose value fits in `usize`.
pub open spec fn parse_usize_spec(s: Seq<char>) -> Option<usize> {
    let digits = if s.len() > 0 && s[0] == '+' {
        s.drop_first()
    } else {
        s
    };
    if digits.len() > 0 && (forall|i: int| 0 <= i < digits.len() ==> is_decimal_digit(#[trigger] digits[i]))
        && decimal_value(digits) <= usize::MAX {
        Some(decimal_value(digits) as usize)
    } else {
        None
    }
}

/// Reads an unsigned integer written in decimal.
///
/// Calls `str::parse::<usize>`; the contract states the documented grammar:
/// an optional `+` followed by decimal digits only, and a value that fits.
#[verifier::external_body]
pub(crate) fn parse_usize(s: &str) -> (r: Option<usize>)
    ensures
        r == parse_usize_spec(s@),
{
    s.parse::<usize>().ok()
}

/// Options that name a file or a directory.
#[derive(Clone, Copy, Debug, PartialEq, Eq, Structural)]
pub enum PathOption {
    Input,
    Output,
    FiguresOutput,
    Calibration,
    T3sterPower,
    T3sterCalibration,
}

/// Options that take no value and switch a setting on.
#[derive(Clone, Copy, Debug, PartialEq, Eq, Structural)]
pub enum SwitchOption {
    OnlyMakeZ,
    NoStructure,
    IsHeating,
    Extrapolate,
}

/// Options that take an unsigned integer.
#[derive(Clone, Copy, Debug, PartialEq, Eq, Structural)]
pub enum CountOption {
    LogTimeSize,
    BaySteps,
    BlockwiseSumWidth,
    MinIndex,
    MinimumWindowSize,
    LassoMaxIter,
    Precision,
    KfacFitDeg,
    DataCutLower,
    DataCutUpper,
    TimeSize,
}

/// Options that take a real number.
#[derive(Clone, Copy, Debug, PartialEq, Eq, Structural)]
pub enum NumberOption {
    LassoAlpha,
    LassoTol,
    TimespecInterpolateFactor,
    FilterRange,
    FilterParameter,
    PowerStep,
    PowerScaleFactor,
    OpticalPower,
    LowerFitLimit,
    UpperFitLimit,
    TimeStart,
    TimeEnd,
}

/// Options that take the label of a mode.
#[derive(Clone, Copy, Debug, PartialEq, Eq, Structural)]
pub enum ModeOption {
    InputMode,
    Deconv,
    Structure,
    Filter,
}

/// Options that take a comma-separated list of real numbers.
#[derive(Clone, Copy, Debug, PartialEq, Eq, Structural)]
pub enum ListOption {
    TheoreticalResistance,
    TheoreticalCapacitance,
}

/// What an argument of the command line is.
#[derive(Clone, Copy, Debug, PartialEq, Eq, Structural)]
pub enum Flag {
    Help,
    Path(PathOption),
    Switch(SwitchOption),
    Count(CountOption),
    Number(NumberOption),
    Mode(ModeOption),
    Range,
    List(ListOption),
}

/// The option that an argument names, if it names one.
pub open spec fn flag_of(arg: Seq<char>) -> Option<Flag> {
    if arg == "--help"@ || arg == "-h"@ {
        Some(Flag::Help)
    } else if arg == "--input"@ || arg == "-i"@ {
        Some(Flag::Path(PathOption::Input))
    } else if arg == "--output"@ || arg == "-o"@ {
        Some(Flag::Path(PathOption::Output))
    } else if arg == "--figures-output"@ {
        Some(Flag::Path(PathOption::FiguresOutput))
    } else if arg == "--only-make-z"@ {
        Some(Flag::Switch(SwitchOption::OnlyMakeZ))
    } else if arg == "--no-structure"@ {
        Some(Flag::Switch(SwitchOption::NoStructure))
    } else if arg == "--log-time-size"@ {
        Some(Flag::Count(CountOption::LogTimeSize))
    } else if arg == "--bay-steps"@ {
        Some(Flag::Count(CountOption::BaySteps))
    } else if arg == "--blockwise-sum-width"@ {
        Some(Flag::Count(CountOption::BlockwiseSumWidth))
    } else if arg == "--min-index"@ {
        Some(Flag::Count(CountOption::MinIndex))
    } else if arg == "--minimum-window-size"@ {
        Some(Flag::Count(CountOption::MinimumWindowSize))
    } else if arg == "--lasso-alpha"@ {
        Some(Flag::Number(NumberOption::LassoAlpha))
    } else if arg == "--lasso-max-iter"@ {
        Some(Flag::Count(CountOption::LassoMaxIter))
    } else if arg == "--lasso-tol"@ {
        Some(Flag::Number(NumberOption::LassoTol))
    } else if arg == "--timespec-interpolate-factor"@ {
        Some(Flag::Number(NumberOption::TimespecInterpolateFactor))
    } else if arg == "--input-mode"@ {
        Some(Flag::Mode(ModeOption::InputMode))
    } else if arg == "--deconv"@ || arg == "--deconv-mode"@ {
        Some(Flag::Mode(ModeOption::Deconv))
    } else if arg == "--structure-method"@ || arg == "--struc-method"@ {
        Some(Flag::Mode(ModeOption::Structure))
    } else if arg == "--precision"@ {
        Some(Flag::Count(CountOption::Precision))
    } else if arg == "--filter-name"@ || arg == "--filter"@ {
        Some(Flag::Mode(ModeOption::Filter))
    } else if arg == "--filter-range"@ {
        Some(Flag::Number(NumberOption::FilterRange))
    } else if arg == "--filter-parameter"@ {
        Some(Flag::Number(NumberOption::FilterParameter))
    } else if arg == "--power-step"@ {
        Some(Flag::Number(NumberOption::PowerStep))
    } else if arg == "--power-scale-factor"@ {
        Some(Flag::Number(NumberOption::PowerScaleFactor))
    } else if arg == "--optical-power"@ {
        Some(Flag::Number(NumberOption::OpticalPower))
    } else if arg == "--is-heating"@ {
        Some(Flag::Switch(SwitchOption::IsHeating))
    } else if arg == "--kfac-fit-deg"@ {
        Some(Flag::Count(CountOption::KfacFitDeg))
    } else if arg == "--calibration"@ {
        Some(Flag::Path(PathOption::Calibration))
    } else if arg == "--t3ster-power"@ {
        Some(Flag::Path(PathOption::T3sterPower))
    } else if arg == "--t3ster-calibration"@ {
        Some(Flag::Path(PathOption::T3sterCalibration))
    } else if arg == "--data-cut-lower"@ {
        Some(Flag::Count(CountOption::DataCutLower))
    } else if arg == "--data-cut-upper"@ {
        Some(Flag::Count(CountOption::DataCutUpper))
    } else if arg == "--temp-zero-range"@ {
        Some(Flag::Range)
    } else if arg == "--extrapolate"@ {
        Some(Flag::Switch(SwitchOption::Extrapolate))
    } else if arg == "--lower-fit-limit"@ {
        Some(Flag::Number(NumberOption::LowerFitLimit))
    } else if arg == "--upper-fit-limit"@ {
        Some(Flag::Number(NumberOption::UpperFitLimit))
    } else if arg == "--theoretical-resistance"@ {
        Some(Flag::List(ListOption::TheoreticalResistance))
    } else if arg == "--theoretical-capacitance"@ {
        Some(Flag::List(ListOption::TheoreticalCapacitance))
    } else if arg == "--time-start"@ {
        Some(Flag::Number(NumberOption::TimeStart))
    } else if arg == "--time-end"@ {
        Some(Flag::Number(NumberOption::TimeEnd))
    } else if arg == "--time-size"@ {
        Some(Flag::Count(CountOption::TimeSize))
    } else {
        None
    }
}

/// Reads which option an argument names, if any.
pub fn lookup_flag(arg: &Vec<char>) -> (r: Option<Flag>)
    ensures
        r == flag_of(arg@),
{
    if chars_are(arg, "--help") || chars_are(arg, "-h") {
        Some(Flag::Help)
    } else if chars_are(arg, "--input") || chars_are(arg, "-i") {
        Some(Flag::Path(PathOption::Input))
    } else if chars_are(arg, "--output") || chars_are(arg, "-o") {
        Some(Flag::Path(PathOption::Output))
    } else if chars_are(arg, "--figures-output") {
        Some(Flag::Path(PathOption::FiguresOutput))
    } else if chars_are(arg, "--only-make-z") {
        Some(Flag::Switch(SwitchOption::OnlyMakeZ))
    } else if chars_are(arg, "--no-structure") {
        Some(Flag::Switch(SwitchOption::NoStructure))
    } else if chars_are(arg, "--log-time-size") {
        Some(Flag::Count(CountOption::LogTimeSize))
    } else if chars_are(arg, "--bay-steps") {
        Some(Flag::Count(CountOption::BaySteps))
    } else if chars_are(arg, "--blockwise-sum-width") {
        Some(Flag::Count(CountOption::BlockwiseSumWidth))
    } else if chars_are(arg, "--min-index") {
        Some(Flag::Count(CountOption::MinIndex))
    } else if chars_are(arg, "--minimum-window-size") {
        Some(Flag::Count(CountOption::MinimumWindowSize))
    } else if chars_are(arg, "--lasso-alpha") {
        Some(Flag::Number(NumberOption::LassoAlpha))
    } else if chars_are(arg, "--lasso-max-iter") {
        Some(Flag::Count(CountOption::LassoMaxIter))
    } else if chars_are(arg, "--lasso-tol") {
        Some(Flag::Number(NumberOption::LassoTol))
    } else if chars_are(arg, "--timespec-interpolate-factor") {
        Some(Flag::Number(NumberOption::TimespecInterpolateFactor))
    } else if chars_are(arg, "--input-mode") {
        Some(Flag::Mode(ModeOption::InputMode))
    } else if chars_are(arg, "--deconv") || chars_are(arg, "--deconv-mode") {
        Some(Flag::Mode(ModeOption::Deconv))
    } else if chars_are(arg, "--structure-method") || chars_are(arg, "--struc-method") {
        Some(Flag::Mode(ModeOption::Structure))
    } else if chars_are(arg, "--precision") {
        Some(Flag::Count(CountOption::Precision))
    } else if chars_are(arg, "--filter-name") || chars_are(arg, "--filter") {
        Some(Flag::Mode(ModeOption::Filter))
    } else if chars_are(arg, "--filter-range") {
        Some(Flag::Number(NumberOption::FilterRange))
    } else if chars_are(arg, "--filter-parameter") {
        Some(Flag::Number(NumberOption::FilterParameter))
    } else if chars_are(arg, "--power-step") {
        Some(Flag::Number(NumberOption::PowerStep))
    } else if chars_are(arg, "--power-scale-factor") {
        Some(Flag::Number(NumberOption::PowerScaleFactor))
    } else if chars_are(arg, "--optical-power") {
        Some(Flag::Number(NumberOption::OpticalPower))
    } else if chars_are(arg, "--is-heating") {
        Some(Flag::Switch(SwitchOption::IsHeating))
    } else if chars_are(arg, "--kfac-fit-deg") {
        Some(Flag::Count(CountOption::KfacFitDeg))
    } else if chars_are(arg, "--calibration") {
        Some(Flag::Path(PathOption::Calibration))
    } else if chars_are(arg, "--t3ster-power") {
        Some(Flag::Path(PathOption::T3sterPower))
    } else if chars_are(arg, "--t3ster-calibration") {
        Some(Flag::Path(PathOption::T3sterCalibration))
    } else if chars_are(arg, "--data-cut-lower") {
        Some(Flag::Count(CountOption::DataCutLower))
    } else if chars_are(arg, "--data-cut-upper") {
        Some(Flag::Count(CountOption::DataCutUpper))
    } else if chars_are(arg, "--temp-zero-range") {
        Some(Flag::Range)
    } else if chars_are(arg, "--extrapolate") {
        Some(Flag::Switch(SwitchOption::Extrapolate))
    } else if chars_are(arg, "--lower-fit-limit") {
        Some(Flag::Number(NumberOption::LowerFitLimit))
    } else if chars_are(arg, "--upper-fit-limit") {
        Some(Flag::Number(NumberOption::UpperFitLimit))
    } else if chars_are(arg, "--theoretical-resistance") {
        Some(Flag::List(ListOption::TheoreticalResistance))
    } else if chars_are(arg, "--theoretical-capacitance") {
        Some(Flag::List(ListOption::TheoreticalCapacitance))
    } else if chars_are(arg, "--time-start") {
        Some(Flag::Number(NumberOption::TimeStart))
    } else if chars_are(arg, "--time-end") {
        Some(Flag::Number(NumberOption::TimeEnd))
    } else if chars_are(arg, "--time-size") {
        Some(Flag::Count(CountOption::TimeSize))
    } else {
        None
    }
}

/// The flag that error messages name for an option.
pub open spec fn count_flag_spec(o: CountOption) -> Seq<char> {
    match o {
        CountOption::LogTimeSize => "--log-time-size"@,
        CountOption::BaySteps => "--bay-steps"@,
        CountOption::BlockwiseSumWidth => "--blockwise-sum-width"@,
        CountOption::MinIndex => "--min-index"@,
        CountOption::MinimumWindowSize => "--minimum-window-size"@,
        CountOption::LassoMaxIter => "--lasso-max-iter"@,
        CountOption::Precision => "--precision"@,
        CountOption::KfacFitDeg => "--kfac-fit-deg"@,
        CountOption::DataCutLower => "--data-cut-lower"@,
        CountOption::DataCutUpper => "--data-cut-upper"@,
        CountOption::TimeSize => "--time-size"@,
    }
}

/// The flag that error messages name for an option.
pub fn count_flag(o: CountOption) -> (r: String)
    ensures
        r@ == count_flag_spec(o),
{
    match o {
        CountOption::LogTimeSize => owned("--log-time-size"),
        CountOption::BaySteps => owned("--bay-steps"),
        CountOption::BlockwiseSumWidth => owned("--blockwise-sum-width"),
        CountOption::MinIndex => owned("--min-index"),
        CountOption::MinimumWindowSize => owned("--minimum-window-size"),
        CountOption::LassoMaxIter => owned("--lasso-max-iter"),
        CountOption::Precision => owned("--precision"),
        CountOption::KfacFitDeg => owned("--kfac-fit-deg"),
        CountOption::DataCutLower => owned("--data-cut-lower"),
        CountOption::DataCutUpper => owned("--data-cut-upper"),
        CountOption::TimeSize => owned("--time-size"),
    }
}

/// The flag that error messages name for an option.
pub open spec fn number_flag_spec(o: NumberOption) -> Seq<char> {
    match o {
        NumberOption::LassoAlpha => "--lasso-alpha"@,
        NumberOption::LassoTol => "--lasso-tol"@,
        NumberOption::TimespecInterpolateFactor => "--timespec-interpolate-factor"@,
        NumberOption::FilterRange => "--filter-range"@,
        NumberOption::FilterParameter => "--filter-parameter"@,
        NumberOption::PowerStep => "--power-step"@,
        NumberOption::PowerScaleFactor => "--power-scale-factor"@,
        NumberOption::OpticalPower => "--optical-power"@,
        NumberOption::LowerFitLimit => "--lower-fit-limit"@,
        NumberOption::UpperFitLimit => "--upper-fit-limit"@,
        NumberOption::TimeStart => "--time-start"@,
        NumberOption::TimeEnd => "--time-end"@,
    }
}

/// The flag that error messages name for an option.
pub fn number_flag(o: NumberOption) -> (r: String)
    ensures
        r@ == number_flag_spec(o),
{
    match o {
        NumberOption::LassoAlpha => owned("--lasso-alpha"),
        NumberOption::LassoTol => owned("--lasso-tol"),
        NumberOption::TimespecInterpolateFactor => owned("--timespec-interpolate-factor"),
        NumberOption::FilterRange => owned("--filter-range"),
        NumberOption::FilterParameter => owned("--filter-parameter"),
        NumberOption::PowerStep => owned("--power-step"),
        NumberOption::PowerScaleFactor => owned("--power-scale-factor"),
        NumberOption::OpticalPower => owned("--optical-power"),
        NumberOption::LowerFitLimit => owned("--lower-fit-limit"),
        NumberOption::UpperFitLimit => owned("--upper-fit-limit"),
        NumberOption::TimeStart => owned("--time-start"),
        NumberOption::TimeEnd => owned("--time-end"),
    }
}

/// The flag that error messages name for an option.
pub open spec fn mode_flag_spec(o: ModeOption) -> Seq<char> {
    match o {
        ModeOption::InputMode => "--input-mode"@,
        ModeOption::Deconv => "--deconv"@,
        ModeOption::Structure => "--structure-method"@,
        ModeOption::Filter => "--filter-name"@,
    }
}

/// The flag that error messages name for an option.
pub fn mode_flag(o: ModeOption) -> (r: String)
    ensures
        r@ == mode_flag_spec(o),
{
    match o {
        ModeOption::InputMode => owned("--input-mode"),
        ModeOption::Deconv => owned("--deconv"),
        ModeOption::Structure => owned("--structure-method"),
        ModeOption::Filter => owned("--filter-name"),
    }
}

/// The flag that error messages name for an option.
pub open spec fn list_flag_spec(o: ListOption) -> Seq<char> {
    match o {
        ListOption::TheoreticalResistance => "--theoretical-resistance"@,
        ListOption::TheoreticalCapacitance => "--theoretical-capacitance"@,
    }
}

/// The flag that error messages name for an option.
pub fn list_flag(o: ListOption) -> (r: String)
    ensures
        r@ == list_flag_spec(o),
{
    match o {
        ListOption::TheoreticalResistance => owned("--theoretical-resistance"),
        ListOption::TheoreticalCapacitance => owned("--theoretical-capacitance"),
    }
}

/// The settings read from the command line.
///
/// Real-number options hold the text given; the caller has vouched that each
/// such text reads as a number.
#[derive(Clone, Debug)]
pub struct CliArgs {
    pub input: Option<String>,
    pub output_dir: Option<String>,
    pub figures_output_dir: Option<String>,
    pub input_mode: InputMode,
    pub deconv_mode: DeconvMode,
    pub structure_method: StructureMethod,
    pub filter_name: FourierFilter,
    pub only_make_z: bool,
    pub no_structure: bool,
    pub is_heating: bool,
    pub extrapolate: bool,
    pub log_time_size: Option<usize>,
    pub bay_steps: Option<usize>,
    pub blockwise_sum_width: Option<usize>,
    pub min_index: Option<usize>,
    pub minimum_window_size: Option<usize>,
    pub lasso_max_iter: Option<usize>,
    pub precision: Option<usize>,
    pub kfac_fit_deg: Option<usize>,
    pub data_cut_lower: Option<usize>,
    pub data_cut_upper: Option<usize>,
    pub time_size: Option<usize>,
    pub lasso_alpha: Option<String>,
    pub lasso_tol: Option<String>,
    pub timespec_interpolate_factor: Option<String>,
    pub filter_range: Option<String>,
    pub filter_parameter: Option<String>,
    pub power_step: Option<String>,
    pub power_scale_factor: Option<String>,
    pub optical_power: Option<String>,
    pub lower_fit_limit: Option<String>,
    pub upper_fit_limit: Option<String>,
    pub time_start: Option<String>,
    pub time_end: Option<String>,
    pub calibration: Option<String>,
    pub t3ster_power: Option<String>,
    pub t3ster_calibration: Option<String>,
    pub temp_0_avg_range: Option<(usize, usize)>,
    pub theoretical_resistance: Option<Vec<String>>,
    pub theoretical_capacitance: Option<Vec<String>>,
}

/// The settings read from the command line, as values.
pub struct CliArgsView {
    pub input: Option<Seq<char>>,
    pub output_dir: Option<Seq<char>>,
    pub figures_output_dir: Option<Seq<char>>,
    pub input_mode: InputMode,
    pub deconv_mode: DeconvMode,
    pub structure_method: StructureMethod,
    pub filter_name: FourierFilter,
    pub only_make_z: bool,
    pub no_structure: bool,
    pub is_heating: bool,
    pub extrapolate: bool,
    pub log_time_size: Option<usize>,
    pub bay_steps: Option<usize>,
    pub blockwise_sum_width: Option<usize>,
    pub min_index: Option<usize>,
    pub minimum_window_size: Option<usize>,
    pub lasso_max_iter: Option<usize>,
    pub precision: Option<usize>,
    pub kfac_fit_deg: Option<usize>,
    pub data_cut_lower: Option<usize>,
    pub data_cut_upper: Option<usize>,
    pub time_size: Option<usize>,
    pub lasso_alpha: Option<Seq<char>>,
    pub lasso_tol: Option<Seq<char>>,
    pub timespec_interpolate_factor: Option<Seq<char>>,
    pub filter_range: Option<Seq<char>>,
    pub filter_parameter: Option<Seq<char>>,
    pub power_step: Option<Seq<char>>,
    pub power_scale_factor: Option<Seq<char>>,
    pub optical_power: Option<Seq<char>>,
    pub lower_fit_limit: Option<Seq<char>>,
    pub upper_fit_limit: Option<Seq<char>>,
    pub time_start: Option<Seq<char>>,
    pub time_end: Option<Seq<char>>,
    pub calibration: Option<Seq<char>>,
    pub t3ster_power: Option<Seq<char>>,
    pub t3ster_calibration: Option<Seq<char>>,
    pub temp_0_avg_range: Option<(usize, usize)>,
    pub theoretical_resistance: Option<Seq<Seq<char>>>,
    pub theoretical_capacitance: Option<Seq<Seq<char>>>,
}

/// The characters of an optional text.
pub open spec fn opt_text(o: Option<String>) -> Option<Seq<char>> {
    match o {
        Some(s) => Some(s@),
        None => None,
    }
}

/// The characters of each text of an optional list.
pub open spec fn opt_texts(o: Option<Vec<String>>) -> Option<Seq<Seq<char>>> {
    match o {
        Some(v) => Some(string_views(v@)),
        None => None,
    }
}

impl View for CliArgs {
    type V = CliArgsView;

    open spec fn view(&self) -> CliArgsView {
        CliArgsView {
            input: opt_text(self.input),
            output_dir: opt_text(self.output_dir),
            figures_output_dir: opt_text(self.figures_output_dir),
            input_mode: self.input_mode,
            deconv_mode: self.deconv_mode,
            structure_method: self.structure_method,
            filter_name: self.filter_name,
            only_make_z: self.only_make_z,
            no_structure: self.no_structure,
            is_heating: self.is_heating,
            extrapolate: self.extrapolate,
            log_time_size: self.log_time_size,
            bay_steps: self.bay_steps,
            blockwise_sum_width: self.blockwise_sum_width,
            min_index: self.min_index,
            minimum_window_size: self.minimum_window_size,
            lasso_max_iter: self.lasso_max_iter,
            precision: self.precision,
            kfac_fit_deg: self.kfac_fit_deg,
            data_cut_lower: self.data_cut_lower,
            data_cut_upper: self.data_cut_upper,
            time_size: self.time_size,
            lasso_alpha: opt_text(self.lasso_alpha),
            lasso_tol: opt_text(self.lasso_tol),
            timespec_interpolate_factor: opt_text(self.timespec_interpolate_factor),
            filter_range: opt_text(self.filter_range),
            filter_parameter: opt_text(self.filter_parameter),
            power_step: opt_text(self.power_step),
            power_scale_factor: opt_text(self.power_scale_factor),
            optical_power: opt_text(self.optical_power),
            lower_fit_limit: opt_text(self.lower_fit_limit),
            upper_fit_limit: opt_text(self.upper_fit_limit),
            time_start: opt_text(self.time_start),
            time_end: opt_text(self.time_end),
            calibration: opt_text(self.calibration),
            t3ster_power: opt_text(self.t3ster_power),
            t3ster_calibration: opt_text(self.t3ster_calibration),
            temp_0_avg_range: self.temp_0_avg_range,
            theoretical_resistance: opt_texts(self.theoretical_resistance),
            theoretical_capacitance: opt_texts(self.theoretical_capacitance),
        }
    }
}

/// The settings before any argument is read.
pub open spec fn initial_cli_args() -> CliArgsView {
    CliArgsView {
        input: None,
        output_dir: None,
        figures_output_dir: None,
        input_mode: InputMode::Impedance,
        deconv_mode: DeconvMode::Bayesian,
        structure_method: StructureMethod::Lanczos,
        filter_name: FourierFilter::Hann,
        only_make_z: false,
        no_structure: false,
        is_heating: false,
        extrapolate: false,
        log_time_size: None,
        bay_steps: None,
        blockwise_sum_width: None,
        min_index: None,
        minimum_window_size: None,
        lasso_max_iter: None,
        precision: None,
        kfac_fit_deg: None,
        data_cut_lower: None,
        data_cut_upper: None,
        time_size: None,
        lasso_alpha: None,
        lasso_tol: None,
        timespec_interpolate_factor: None,
        filter_range: None,
        filter_parameter: None,
        power_step: None,
        power_scale_factor: None,
        optical_power: None,
        lower_fit_limit: None,
        upper_fit_limit: None,
        time_start: None,
        time_end: None,
        calibration: None,
        t3ster_power: None,
        t3ster_calibration: None,
        temp_0_avg_range: None,
        theoretical_resistance: None,
        theoretical_capacitance: None,
    }
}

/// The settings after a path option is read.
pub open spec fn set_path(st: CliArgsView, o: PathOption, value: Option<Seq<char>>) -> CliArgsView {
    match o {
        PathOption::Input => CliArgsView { input: value, ..st },
        PathOption::Output => CliArgsView { output_dir: value, ..st },
        PathOption::FiguresOutput => CliArgsView { figures_output_dir: value, ..st },
        PathOption::Calibration => CliArgsView { calibration: value, ..st },
        PathOption::T3sterPower => CliArgsView { t3ster_power: value, ..st },
        PathOption::T3sterCalibration => CliArgsView { t3ster_calibration: value, ..st },
    }
}

/// The settings after a switch is read.
pub open spec fn set_switch(st: CliArgsView, o: SwitchOption) -> CliArgsView {
    match o {
        SwitchOption::OnlyMakeZ => CliArgsView { only_make_z: true, ..st },
        SwitchOption::NoStructure => CliArgsView { no_structure: true, ..st },
        SwitchOption::IsHeating => CliArgsView { is_heating: true, ..st },
        SwitchOption::Extrapolate => CliArgsView { extrapolate: true, ..st },
    }
}

/// The settings after a count option is read.
pub open spec fn set_count(st: CliArgsView, o: CountOption, value: usize) -> CliArgsView {
    match o {
        CountOption::LogTimeSize => CliArgsView { log_time_size: Some(value), ..st },
        CountOption::BaySteps => CliArgsView { bay_steps: Some(value), ..st },
        CountOption::BlockwiseSumWidth => CliArgsView { blockwise_sum_width: Some(value), ..st },
        CountOption::MinIndex => CliArgsView { min_index: Some(value), ..st },
        CountOption::MinimumWindowSize => CliArgsView { minimum_window_size: Some(value), ..st },
        CountOption::LassoMaxIter => CliArgsView { lasso_max_iter: Some(value), ..st },
        CountOption::Precision => CliArgsView { precision: Some(value), ..st },
        CountOption::KfacFitDeg => CliArgsView { kfac_fit_deg: Some(value), ..st },
        CountOption::DataCutLower => CliArgsView { data_cut_lower: Some(value), ..st },
        CountOption::DataCutUpper => CliArgsView { data_cut_upper: Some(value), ..st },
        CountOption::TimeSize => CliArgsView { time_size: Some(value), ..st },
    }
}

/// The settings after a number option is read.
pub open spec fn set_number(st: CliArgsView, o: NumberOption, value: Seq<char>) -> CliArgsView {
    match o {
        NumberOption::LassoAlpha => CliArgsView { lasso_alpha: Some(value), ..st },
        NumberOption::LassoTol => CliArgsView { lasso_tol: Some(value), ..st },
        NumberOption::TimespecInterpolateFactor => CliArgsView { timespec_interpolate_factor: Some(value), ..st },
        NumberOption::FilterRange => CliArgsView { filter_range: Some(value), ..st },
        NumberOption::FilterParameter => CliArgsView { filter_parameter: Some(value), ..st },
        NumberOption::PowerStep => CliArgsView { power_step: Some(value), ..st },
        NumberOption::PowerScaleFactor => CliArgsView { power_scale_factor: Some(value), ..st },
        NumberOption::OpticalPower => CliArgsView { optical_power: Some(value), ..st },
        NumberOption::LowerFitLimit => CliArgsView { lower_fit_limit: Some(value), ..st },
        NumberOption::UpperFitLimit => CliArgsView { upper_fit_limit: Some(value), ..st },
        NumberOption::TimeStart => CliArgsView { time_start: Some(value), ..st },
        NumberOption::TimeEnd => CliArgsView { time_end: Some(value), ..st },
    }
}

/// The settings after a list option is read.
pub open spec fn set_list(st: CliArgsView, o: ListOption, value: Seq<Seq<char>>) -> CliArgsView {
    match o {
        ListOption::TheoreticalResistance => CliArgsView { theoretical_resistance: Some(value), ..st },
        ListOption::TheoreticalCapacitance => CliArgsView { theoretical_capacitance: Some(value), ..st },
    }
}

impl CliArgs {
    /// The settings before any argument is read.
    pub fn initial() -> (r: Self)
        ensures
            r@ == initial_cli_args(),
    {
        CliArgs {
            input: None,
            output_dir: None,
            figures_output_dir: None,
            input_mode: InputMode::Impedance,
            deconv_mode: DeconvMode::Bayesian,
            structure_method: StructureMethod::Lanczos,
            filter_name: FourierFilter::Hann,
            only_make_z: false,
            no_structure: false,
            is_heating: false,
            extrapolate: false,
            log_time_size: None,
            bay_steps: None,
            blockwise_sum_width: None,
            min_index: None,
            minimum_window_size: None,
            lasso_max_iter: None,
            precision: None,
            kfac_fit_deg: None,
            data_cut_lower: None,
            data_cut_upper: None,
            time_size: None,
            lasso_alpha: None,
            lasso_tol: None,
            timespec_interpolate_factor: None,
            filter_range: None,
            filter_parameter: None,
            power_step: None,
            power_scale_factor: None,
            optical_power: None,
            lower_fit_limit: None,
            upper_fit_limit: None,
            time_start: None,
            time_end: None,
            calibration: None,
            t3ster_power: None,
            t3ster_calibration: None,
            temp_0_avg_range: None,
            theoretical_resistance: None,
            theoretical_capacitance: None,
        }
    }

    fn set_path(&mut self, o: PathOption, value: Option<String>)
        ensures
            final(self)@ == set_path(old(self)@, o, opt_text(value)),
    {
        match o {
            PathOption::Input => self.input = value,
            PathOption::Output => self.output_dir = value,
            PathOption::FiguresOutput => self.figures_output_dir = value,
            PathOption::Calibration => self.calibration = value,
            PathOption::T3sterPower => self.t3ster_power = value,
            PathOption::T3sterCalibration => self.t3ster_calibration = value,
        }
    }

    fn set_switch(&mut self, o: SwitchOption)
        ensures
            final(self)@ == set_switch(old(self)@, o),
    {
        match o {
            SwitchOption::OnlyMakeZ => self.only_make_z = true,
            SwitchOption::NoStructure => self.no_structure = true,
            SwitchOption::IsHeating => self.is_heating = true,
            SwitchOption::Extrapolate => self.extrapolate = true,
        }
    }

    fn set_count(&mut self, o: CountOption, value: usize)
        ensures
            final(self)@ == set_count(old(self)@, o, value),
    {
        match o {
            CountOption::LogTimeSize => self.log_time_size = Some(value),
            CountOption::BaySteps => self.bay_steps = Some(value),
            CountOption::BlockwiseSumWidth => self.blockwise_sum_width = Some(value),
            CountOption::MinIndex => self.min_index = Some(value),
            CountOption::MinimumWindowSize => self.minimum_window_size = Some(value),
            CountOption::LassoMaxIter => self.lasso_max_iter = Some(value),
            CountOption::Precision => self.precision = Some(value),
            CountOption::KfacFitDeg => self.kfac_fit_deg = Some(value),
            CountOption::DataCutLower => self.data_cut_lower = Some(value),
            CountOption::DataCutUpper => self.data_cut_upper = Some(value),
            CountOption::TimeSize => self.time_size = Some(value),
        }
    }

    fn set_number(&mut self, o: NumberOption, value: String)
        ensures
            final(self)@ == set_number(old(self)@, o, value@),
    {
        match o {
            NumberOption::LassoAlpha => self.lasso_alpha = Some(value),
            NumberOption::LassoTol => self.lasso_tol = Some(value),
            NumberOption::TimespecInterpolateFactor => self.timespec_interpolate_factor = Some(value),
            NumberOption::FilterRange => self.filter_range = Some(value),
            NumberOption::FilterParameter => self.filter_parameter = Some(value),
            NumberOption::PowerStep => self.power_step = Some(value),
            NumberOption::PowerScaleFactor => self.power_scale_factor = Some(value),
            NumberOption::OpticalPower => self.optical_power = Some(value),
            NumberOption::LowerFitLimit => self.lower_fit_limit = Some(value),
            NumberOption::UpperFitLimit => self.upper_fit_limit = Some(value),
            NumberOption::TimeStart => self.time_start = Some(value),
            NumberOption::TimeEnd => self.time_end = Some(value),
        }
    }

    fn set_list(&mut self, o: ListOption, value: Vec<String>)
        ensures
            final(self)@ == set_list(old(self)@, o, string_views(value@)),
    {
        match o {
            ListOption::TheoreticalResistance => self.theoretical_resistance = Some(value),
            ListOption::TheoreticalCapacitance => self.theoretical_capacitance = Some(value),
        }
    }

    /// Whether the input is the response of a given RC model rather than a file.
    pub fn has_theoretical_model(&self) -> (r: bool)
        ensures
            r == self.theoretical_resistance.is_some(),
    {
        self.theoretical_resistance.is_some()
    }

    /// The output directory: the one given, else `output/rust-cli`.
    pub fn output_dir_or_default(&self) -> (r: String)
        ensures
            r@ == match opt_text(self.output_dir) {
                Some(d) => d,
                None => "output/rust-cli"@,
            },
    {
        match &self.output_dir {
            Some(d) => d.clone(),
            None => owned("output/rust-cli"),
        }
    }
}

/// Why the command line cannot be read.
#[derive(Clone, Debug)]
pub enum CliError {
    /// An option that needs a value ends the argument list.
    MissingValue { flag: String },
    /// The value of an integer option is not an unsigned integer.
    InvalidCount { flag: String, value: String },
    /// The value of a real-number option is not a number.
    InvalidNumber { flag: String, value: String },
    /// A list option holds an empty item.
    EmptyListItem { flag: String },
    /// A list option holds an item that is not a number.
    InvalidListItem { flag: String, item: String },
    /// A range option lacks the `:` between its bounds.
    MissingRangeSeparator { flag: String },
    /// A bound of a range option is not an unsigned integer.
    InvalidRangeBound { text: String },
    /// A mode option names no mode of its kind.
    UnknownLabel { kind: &'static str, value: String },
    /// A third positional argument.
    UnknownArgument { arg: String },
    /// Only one of the theoretical resistance and capacitance lists is given.
    TheoreticalPairing,
    /// A theoretical model lacks its start time, end time or sample count.
    TheoreticalTimeRange,
    /// The theoretical resistance and capacitance lists differ in length.
    TheoreticalLengthMismatch { resistance_len: usize, capacitance_len: usize },
    /// Neither an input file nor a theoretical model is given.
    MissingInputPath,
}

/// Why the command line cannot be read, as values.
pub enum CliErrorView {
    MissingValue(Seq<char>),
    InvalidCount(Seq<char>, Seq<char>),
    InvalidNumber(Seq<char>, Seq<char>),
    EmptyListItem(Seq<char>),
    InvalidListItem(Seq<char>, Seq<char>),
    MissingRangeSeparator(Seq<char>),
    InvalidRangeBound(Seq<char>),
    UnknownLabel(Seq<char>, Seq<char>),
    UnknownArgument(Seq<char>),
    TheoreticalPairing,
    TheoreticalTimeRange,
    TheoreticalLengthMismatch(usize, usize),
    MissingInputPath,
}

impl View for CliError {
    type V = CliErrorView;

    open spec fn view(&self) -> CliErrorView {
        match self {
            CliError::MissingValue { flag } => CliErrorView::MissingValue(flag@),
            CliError::InvalidCount { flag, value } => CliErrorView::InvalidCount(flag@, value@),
            CliError::InvalidNumber { flag, value } => CliErrorView::InvalidNumber(flag@, value@),
            CliError::EmptyListItem { flag } => CliErrorView::EmptyListItem(flag@),
            CliError::InvalidListItem { flag, item } => CliErrorView::InvalidListItem(flag@, item@),
            CliError::MissingRangeSeparator { flag } => CliErrorView::MissingRangeSeparator(flag@),
            CliError::InvalidRangeBound { text } => CliErrorView::InvalidRangeBound(text@),
            CliError::UnknownLabel { kind, value } => CliErrorView::UnknownLabel(kind@, value@),
            CliError::UnknownArgument { arg } => CliErrorView::UnknownArgument(arg@),
            CliError::TheoreticalPairing => CliErrorView::TheoreticalPairing,
            CliError::TheoreticalTimeRange => CliErrorView::TheoreticalTimeRange,
            CliError::TheoreticalLengthMismatch { resistance_len, capacitance_len } =>
                CliErrorView::TheoreticalLengthMismatch(*resistance_len, *capacitance_len),
            CliError::MissingInputPath => CliErrorView::MissingInputPath,
        }
    }
}

/// What the command line asks for.
#[derive(Clone, Debug)]
pub enum CliCommand {
    /// Print the usage text and stop.
    Help,
    /// Evaluate with these settings.
    Run(CliArgs),
}

/// What the command line asks for, as values.
pub enum CliCommandView {
    Help,
    Run(CliArgsView),
}

impl View for CliCommand {
    type V = CliCommandView;

    open spec fn view(&self) -> CliCommandView {
        match self {
            CliCommand::Help => CliCommandView::Help,
            CliCommand::Run(a) => CliCommandView::Run(a@),
        }
    }
}

/// The outcome of reading a command line, as values.
pub open spec fn cli_result_view(r: Result<CliCommand, CliError>) -> Result<CliCommandView, CliErrorView> {
    match r {
        Ok(c) => Ok(c@),
        Err(e) => Err(e@),
    }
}

/// The items of a list option: the pieces between commas, trimmed.
pub open spec fn list_items_spec(s: Seq<char>) -> Seq<Seq<char>> {
    split_on_spec(s, ',').map_values(|p: Seq<char>| trim_spec(p))
}

/// The first faulty item of a list option at or after item `k`, if any: an
/// empty item, or one that does not read as a number (`item_ok` false).
pub open spec fn list_error_from(
    items: Seq<Seq<char>>,
    item_ok: Seq<bool>,
    flag: Seq<char>,
    k: int,
) -> Option<CliErrorView>
    decreases items.len() - k,
{
    if k < 0 || k >= items.len() {
        None
    } else if items[k].len() == 0 {
        Some(CliErrorView::EmptyListItem(flag))
    } else if !item_ok[k] {
        Some(CliErrorView::InvalidListItem(flag, items[k]))
    } else {
        list_error_from(items, item_ok, flag, k + 1)
    }
}

/// One step of reading: go on at a later argument with new settings, or stop
/// with an outcome.
pub enum CliStep {
    Next(int, CliArgsView),
    Stop(Result<CliCommandView, CliErrorView>),
}

/// Reading the value of a mode option.
pub open spec fn mode_step(st: CliArgsView, o: ModeOption, value: Seq<char>, next: int) -> CliStep {
    match o {
        ModeOption::InputMode => match input_mode_of(crate::text::normalize_label_spec(value)) {
            Some(m) => CliStep::Next(next, CliArgsView { input_mode: m, ..st }),
            None => CliStep::Stop(Err(CliErrorView::UnknownLabel("input mode"@, value))),
        },
        ModeOption::Deconv => match deconv_mode_of(crate::text::normalize_label_spec(value)) {
            Some(m) => CliStep::Next(next, CliArgsView { deconv_mode: m, ..st }),
            None => CliStep::Stop(Err(CliErrorView::UnknownLabel("deconvolution mode"@, value))),
        },
        ModeOption::Structure => match structure_method_of(
            crate::text::normalize_label_spec(value),
        ) {
            Some(m) => CliStep::Next(next, CliArgsView { structure_method: m, ..st }),
            None => CliStep::Stop(Err(CliErrorView::UnknownLabel("structure method"@, value))),
        },
        ModeOption::Filter => match fourier_filter_of(crate::text::normalize_label_spec(value)) {
            Some(m) => CliStep::Next(next, CliArgsView { filter_name: m, ..st }),
            None => CliStep::Stop(Err(CliErrorView::UnknownLabel("Fourier filter"@, value))),
        },
    }
}

/// Reading a path option whose value, if there is one, is `value`.
pub open spec fn path_step(
    st: CliArgsView,
    o: PathOption,
    has_value: bool,
    value: Seq<char>,
    pos: int,
) -> CliStep {
    if has_value {
        CliStep::Next(pos + 2, set_path(st, o, Some(value)))
    } else {
        CliStep::Next(pos + 1, set_path(st, o, None))
    }
}

/// Reading an integer option whose value, if there is one, is `value`.
pub open spec fn count_step(
    st: CliArgsView,
    o: CountOption,
    has_value: bool,
    value: Seq<char>,
    pos: int,
) -> CliStep {
    if !has_value {
        CliStep::Stop(Err(CliErrorView::MissingValue(count_flag_spec(o))))
    } else {
        match parse_usize_spec(value) {
            Some(n) => CliStep::Next(pos + 2, set_count(st, o, n)),
            None => CliStep::Stop(Err(CliErrorView::InvalidCount(count_flag_spec(o), value))),
        }
    }
}

/// Reading a real-number option whose value, if there is one, is `value`;
/// `value_ok` tells whether `value` reads as a number.
pub open spec fn number_step(
    st: CliArgsView,
    o: NumberOption,
    has_value: bool,
    value: Seq<char>,
    value_ok: bool,
    pos: int,
) -> CliStep {
    if !has_value {
        CliStep::Stop(Err(CliErrorView::MissingValue(number_flag_spec(o))))
    } else if value_ok {
        CliStep::Next(pos + 2, set_number(st, o, value))
    } else {
        CliStep::Stop(Err(CliErrorView::InvalidNumber(number_flag_spec(o), value)))
    }
}

/// Reading the range option's value `start:end`.
pub open spec fn range_step(st: CliArgsView, value: Seq<char>, next: int) -> CliStep {
    match split_once_spec(value, ':') {
        None => CliStep::Stop(Err(CliErrorView::MissingRangeSeparator("--temp-zero-range"@))),
        Some((a, b)) => match parse_usize_spec(a) {
            None => CliStep::Stop(Err(CliErrorView::InvalidRangeBound(a))),
            Some(x) => match parse_usize_spec(b) {
                None => CliStep::Stop(Err(CliErrorView::InvalidRangeBound(b))),
                Some(y) => CliStep::Next(next, CliArgsView { temp_0_avg_range: Some((x, y)), ..st }),
            },
        },
    }
}

/// Reading a list option's value; `item_ok` tells which items read as numbers.
pub open spec fn list_step(
    st: CliArgsView,
    o: ListOption,
    value: Seq<char>,
    item_ok: Seq<bool>,
    next: int,
) -> CliStep {
    match list_error_from(list_items_spec(value), item_ok, list_flag_spec(o), 0) {
        Some(e) => CliStep::Stop(Err(e)),
        None => CliStep::Next(next, set_list(st, o, list_items_spec(value))),
    }
}

/// Reading an argument that names no option: the input file first, then the
/// output directory.
pub open spec fn positional_step(st: CliArgsView, arg: Seq<char>, pos: int) -> CliStep {
    if st.input is None {
        CliStep::Next(pos + 1, CliArgsView { input: Some(arg), ..st })
    } else if st.output_dir is None {
        CliStep::Next(pos + 1, CliArgsView { output_dir: Some(arg), ..st })
    } else {
        CliStep::Stop(Err(CliErrorView::UnknownArgument(arg)))
    }
}

/// Reading the argument at `pos`, given `float_ok` (whether each argument
/// reads as a real number) and `items_ok` (the same for each list item of
/// each argument).
pub open spec fn cli_step(
    args: Seq<Seq<char>>,
    float_ok: Seq<bool>,
    items_ok: Seq<Seq<bool>>,
    pos: int,
    st: CliArgsView,
) -> CliStep {
    let arg = args[pos];
    let has_value = pos + 1 < args.len();
    let value = args[pos + 1];
    match flag_of(arg) {
        Some(Flag::Help) => CliStep::Stop(Ok(CliCommandView::Help)),
        Some(Flag::Path(o)) => path_step(st, o, has_value, value, pos),
        Some(Flag::Switch(o)) => CliStep::Next(pos + 1, set_switch(st, o)),
        Some(Flag::Count(o)) => count_step(st, o, has_value, value, pos),
        Some(Flag::Number(o)) => number_step(st, o, has_value, value, float_ok[pos + 1], pos),
        Some(Flag::Mode(o)) => if !has_value {
            CliStep::Stop(Err(CliErrorView::MissingValue(mode_flag_spec(o))))
        } else {
            mode_step(st, o, value, pos + 2)
        },
        Some(Flag::Range) => if !has_value {
            CliStep::Stop(Err(CliErrorView::MissingValue("--temp-zero-range"@)))
        } else {
            range_step(st, value, pos + 2)
        },
        Some(Flag::List(o)) => if !has_value {
            CliStep::Stop(Err(CliErrorView::MissingValue(list_flag_spec(o))))
        } else {
            list_step(st, o, value, items_ok[pos + 1], pos + 2)
        },
        None => positional_step(st, arg, pos),
    }
}

/// The check made on a theoretical model once every argument is read.
pub open spec fn theoretical_args_error(st: CliArgsView) -> Option<CliErrorView> {
    let has_resistance = st.theoretical_resistance is Some;
    let has_capacitance = st.theoretical_capacitance is Some;
    let has_time = st.time_start is Some || st.time_end is Some || st.time_size is Some;
    if !has_resistance && !has_capacitance && !has_time {
        None
    } else if !has_resistance || !has_capacitance {
        Some(CliErrorView::TheoreticalPairing)
    } else if st.time_start is None || st.time_end is None || st.time_size is None {
        Some(CliErrorView::TheoreticalTimeRange)
    } else if st.theoretical_resistance->0.len() != st.theoretical_capacitance->0.len() {
        Some(
            CliErrorView::TheoreticalLengthMismatch(
                st.theoretical_resistance->0.len() as usize,
                st.theoretical_capacitance->0.len() as usize,
            ),
        )
    } else {
        None
    }
}

/// The outcome once every argument is read.
pub open spec fn cli_finish(st: CliArgsView) -> Result<CliCommandView, CliErrorView> {
    match theoretical_args_error(st) {
        Some(e) => Err(e),
        None => if st.theoretical_resistance is None && st.input is None {
            Err(CliErrorView::MissingInputPath)
        } else {
            Ok(CliCommandView::Run(st))
        },
    }
}

/// Reading the arguments from `pos` on, with the settings `st` read so far.
pub open spec fn cli_scan(
    args: Seq<Seq<char>>,
    float_ok: Seq<bool>,
    items_ok: Seq<Seq<bool>>,
    pos: int,
    st: CliArgsView,
) -> Result<CliCommandView, CliErrorView>
    decreases args.len() - pos,
{
    if pos < 0 || pos >= args.len() {
        cli_finish(st)
    } else {
        match cli_step(args, float_ok, items_ok, pos, st) {
            CliStep::Next(p, s) => if pos < p <= args.len() {
                cli_scan(args, float_ok, items_ok, p, s)
            } else {
                cli_finish(s)
            },
            CliStep::Stop(r) => r,
        }
    }
}

/// What a whole command line asks for.
pub open spec fn cli_parse_spec(
    args: Seq<Seq<char>>,
    float_ok: Seq<bool>,
    items_ok: Seq<Seq<bool>>,
) -> Result<CliCommandView, CliErrorView> {
    cli_scan(args, float_ok, items_ok, 0, initial_cli_args())
}

/// `--help` or `-h` asks for help whatever follows it: once reading reaches
/// it, reading stops and the command is a request for help. In particular a
/// command line that starts with it asks for help.
pub proof fn lemma_help_stops_reading(
    args: Seq<Seq<char>>,
    float_ok: Seq<bool>,
    items_ok: Seq<Seq<bool>>,
    pos: int,
    st: CliArgsView,
)
    requires
        0 <= pos < args.len(),
        args[pos] == "--help"@ || args[pos] == "-h"@,
    ensures
        cli_scan(args, float_ok, items_ok, pos, st) == Ok::<CliCommandView, CliErrorView>(
            CliCommandView::Help,
        ),
        pos == 0 ==> cli_parse_spec(args, float_ok, items_ok) == Ok::<
            CliCommandView,
            CliErrorView,
        >(CliCommandView::Help),
{
    assert(flag_of(args[pos]) == Some(Flag::Help));
}

/// The short flags are the long ones: `-o d` sets the output directory to
/// `d`, `-i f` the input file to `f`, and both step past the value, exactly
/// as `--output` and `--input` do (with no value left, the path is unset and
/// reading goes on with the next argument); `-h` asks for help as `--help`
/// does. No other setting changes.
pub proof fn lemma_short_flags_are_the_long_ones(
    args: Seq<Seq<char>>,
    float_ok: Seq<bool>,
    items_ok: Seq<Seq<bool>>,
    pos: int,
    st: CliArgsView,
)
    requires
        0 <= pos < args.len(),
    ensures
        args[pos] == "-o"@ ==> cli_step(args, float_ok, items_ok, pos, st) == (if pos + 1
            < args.len() {
            CliStep::Next(pos + 2, CliArgsView { output_dir: Some(args[pos + 1]), ..st })
        } else {
            CliStep::Next(pos + 1, CliArgsView { output_dir: None, ..st })
        }),
        args[pos] == "-i"@ ==> cli_step(args, float_ok, items_ok, pos, st) == (if pos + 1
            < args.len() {
            CliStep::Next(pos + 2, CliArgsView { input: Some(args[pos + 1]), ..st })
        } else {
            CliStep::Next(pos + 1, CliArgsView { input: None, ..st })
        }),
        args[pos] == "-h"@ ==> cli_step(args, float_ok, items_ok, pos, st) == CliStep::Stop(
            Ok(CliCommandView::Help),
        ),
        args[pos] == "-o"@ ==> cli_step(args, float_ok, items_ok, pos, st) == cli_step(
            args.update(pos, "--output"@),
            float_ok,
            items_ok,
            pos,
            st,
        ),
        args[pos] == "-i"@ ==> cli_step(args, float_ok, items_ok, pos, st) == cli_step(
            args.update(pos, "--input"@),
            float_ok,
            items_ok,
            pos,
            st,
        ),
{
    reveal_strlit("-o");
    reveal_strlit("-i");
    reveal_strlit("-h");
    reveal_strlit("--help");
    reveal_strlit("--input");
    reveal_strlit("--output");
    assert("-o"@.len() == 2 && "-i"@.len() == 2 && "-h"@.len() == 2);
    assert("--help"@.len() == 6 && "--input"@.len() == 7 && "--output"@.len() == 8);
    assert("-o"@[1] == 'o' && "-i"@[1] == 'i' && "-h"@[1] == 'h');
    let a = args[pos];
    if a == "-o"@ {
        assert(a != "--help"@ && a != "-h"@ && a != "--input"@ && a != "-i"@);
        assert(flag_of(a) == Some(Flag::Path(PathOption::Output)));
        let b = args.update(pos, "--output"@);
        assert(b[pos] == "--output"@);
        assert("--output"@ != "--help"@ && "--output"@ != "-h"@ && "--output"@ != "--input"@
            && "--output"@ != "-i"@);
        assert(flag_of(b[pos]) == Some(Flag::Path(PathOption::Output)));
        if pos + 1 < args.len() {
            assert(b[pos + 1] == args[pos + 1]);
        }
    }
    if a == "-i"@ {
        assert(a != "--help"@ && a != "-h"@ && a != "--input"@);
        assert(flag_of(a) == Some(Flag::Path(PathOption::Input)));
        let b = args.update(pos, "--input"@);
        assert(b[pos] == "--input"@);
        assert("--input"@ != "--help"@ && "--input"@ != "-h"@);
        assert(flag_of(b[pos]) == Some(Flag::Path(PathOption::Input)));
        if pos + 1 < args.len() {
            assert(b[pos + 1] == args[pos + 1]);
        }
    }
    if a == "-h"@ {
        assert(flag_of(a) == Some(Flag::Help));
    }
}

/// Every canonical mode label (those that the usage text lists) is accepted
/// by its option and selects that mode, leaving the other settings alone.
pub proof fn lemma_mode_options_accept_canonical_labels(
    st: CliArgsView,
    next: int,
    input: InputMode,
    deconv: DeconvMode,
    structure: StructureMethod,
    filter: FourierFilter,
)
    ensures
        mode_step(st, ModeOption::InputMode, input_mode_label(input), next) == CliStep::Next(
            next,
            CliArgsView { input_mode: input, ..st },
        ),
        mode_step(st, ModeOption::Deconv, deconv_mode_label(deconv), next) == CliStep::Next(
            next,
            CliArgsView { deconv_mode: deconv, ..st },
        ),
        mode_step(st, ModeOption::Structure, structure_method_label(structure), next)
            == CliStep::Next(next, CliArgsView { structure_method: structure, ..st }),
        mode_step(st, ModeOption::Filter, fourier_filter_label(filter), next) == CliStep::Next(
            next,
            CliArgsView { filter_name: filter, ..st },
        ),
{
    lemma_input_mode_label_roundtrip(input);
    lemma_deconv_mode_label_roundtrip(deconv);
    lemma_structure_method_label_roundtrip(structure);
    lemma_fourier_filter_label_roundtrip(filter);
}

/// The flags computed for each argument.
pub open spec fn bool_rows(v: Seq<Vec<bool>>) -> Seq<Seq<bool>> {
    v.map_values(|r: Vec<bool>| r@)
}

/// `float_ok` and `items_ok` hold one entry per argument, and `items_ok`
/// one flag per list item of its argument.
pub open spec fn cli_oracle_fits(
    args: Seq<Seq<char>>,
    float_ok: Seq<bool>,
    items_ok: Seq<Seq<bool>>,
) -> bool {
    &&& float_ok.len() == args.len()
    &&& items_ok.len() == args.len()
    &&& forall|i: int|
        0 <= i < args.len() ==> #[trigger] items_ok[i].len() == list_items_spec(args[i]).len()
}

/// One step of reading, as computed.
enum ExecStep {
    Next(usize, CliArgs),
    Stop(Result<CliCommand, CliError>),
}

spec fn exec_step_view(s: ExecStep) -> CliStep {
    match s {
        ExecStep::Next(p, a) => CliStep::Next(p as int, a@),
        ExecStep::Stop(r) => CliStep::Stop(cli_result_view(r)),
    }
}

/// The items of a list option: the pieces between commas, trimmed.
pub fn list_items(value: &Vec<char>) -> (r: Vec<Vec<char>>)
    ensures
        chars_views(r@) == list_items_spec(value@),
{
    let pieces = split_on(value, ',');
    let mut out: Vec<Vec<char>> = Vec::new();
    let mut k: usize = 0;
    while k < pieces.len()
        invariant
            k <= pieces.len(),
            chars_views(pieces@) == split_on_spec(value@, ','),
            chars_views(out@) == list_items_spec(value@).take(k as int),
        decreases pieces.len() - k,
    {
        let ghost before = chars_views(out@);
        let t = trim(&pieces[k]);
        assert(chars_views(pieces@)[k as int] == pieces@[k as int]@);
        assert(t@ == list_items_spec(value@)[k as int]);
        out.push(t);
        assert(chars_views(out@) =~= before.push(t@));
        k = k + 1;
        assert(chars_views(out@) =~= list_items_spec(value@).take(k as int));
    }
    assert(chars_views(out@) =~= list_items_spec(value@));
    out
}

fn check_list(items: &Vec<Vec<char>>, item_ok: &Vec<bool>, o: ListOption) -> (r: Result<
    Vec<String>,
    CliError,
>)
    requires
        item_ok.len() == items.len(),
    ensures
        match list_error_from(chars_views(items@), item_ok@, list_flag_spec(o), 0) {
            Some(e) => r matches Err(x) && x@ == e,
            None => r matches Ok(v) && string_views(v@) == chars_views(items@),
        },
{
    let mut out: Vec<String> = Vec::new();
    let mut k: usize = 0;
    while k < items.len()
        invariant
            k <= items.len(),
            item_ok.len() == items.len(),
            list_error_from(chars_views(items@), item_ok@, list_flag_spec(o), 0) == list_error_from(
                chars_views(items@),
                item_ok@,
                list_flag_spec(o),
                k as int,
            ),
            string_views(out@) == chars_views(items@).take(k as int),
        decreases items.len() - k,
    {
        if items[k].len() == 0 {
            return Err(CliError::EmptyListItem { flag: list_flag(o) });
        }
        if !item_ok[k] {
            return Err(
                CliError::InvalidListItem { flag: list_flag(o), item: string_from_chars(items[k].as_slice()) },
            );
        }
        let ghost before = string_views(out@);
        let s = string_from_chars(items[k].as_slice());
        assert(chars_views(items@)[k as int] == items@[k as int]@);
        out.push(s);
        assert(string_views(out@) =~= before.push(s@));
        k = k + 1;
        assert(string_views(out@) =~= chars_views(items@).take(k as int));
    }
    assert(string_views(out@) =~= chars_views(items@));
    Ok(out)
}

fn mode_step_exec(st: CliArgs, o: ModeOption, value: &String, next: usize) -> (r: ExecStep)
    ensures
        exec_step_view(r) == mode_step(st@, o, value@, next as int),
{
    let mut s = st;
    match o {
        ModeOption::InputMode => match InputMode::from_label(value.as_str()) {
            Ok(m) => {
                s.input_mode = m;
                ExecStep::Next(next, s)
            },
            Err(_) => ExecStep::Stop(
                Err(CliError::UnknownLabel { kind: "input mode", value: value.clone() }),
            ),
        },
        ModeOption::Deconv => match DeconvMode::from_label(value.as_str()) {
            Ok(m) => {
                s.deconv_mode = m;
                ExecStep::Next(next, s)
            },
            Err(_) => ExecStep::Stop(
                Err(CliError::UnknownLabel { kind: "deconvolution mode", value: value.clone() }),
            ),
        },
        ModeOption::Structure => match StructureMethod::from_label(value.as_str()) {
            Ok(m) => {
                s.structure_method = m;
                ExecStep::Next(next, s)
            },
            Err(_) => ExecStep::Stop(
                Err(CliError::UnknownLabel { kind: "structure method", value: value.clone() }),
            ),
        },
        ModeOption::Filter => match FourierFilter::from_label(value.as_str()) {
            Ok(m) => {
                s.filter_name = m;
                ExecStep::Next(next, s)
            },
            Err(_) => ExecStep::Stop(
                Err(CliError::UnknownLabel { kind: "Fourier filter", value: value.clone() }),
            ),
        },
    }
}

/// Reads the value `start:end` of the range option.
pub fn parse_next_range(value: &String) -> (r: Result<(usize, usize), CliError>)
    ensures
        match split_once_spec(value@, ':') {
            None => r matches Err(e) && e@ == CliErrorView::MissingRangeSeparator(
                "--temp-zero-range"@,
            ),
            Some((a, b)) => match parse_usize_spec(a) {
                None => r matches Err(e) && e@ == CliErrorView::InvalidRangeBound(a),
                Some(x) => match parse_usize_spec(b) {
                    None => r matches Err(e) && e@ == CliErrorView::InvalidRangeBound(b),
                    Some(y) => r matches Ok(p) && p == (x, y),
                },
            },
        },
{
    let chars = chars_of(value.as_str());
    match split_once_at(&chars, ':') {
        None => Err(CliError::MissingRangeSeparator { flag: owned("--temp-zero-range") }),
        Some((a, b)) => {
            let a_text = string_from_chars(a.as_slice());
            let b_text = string_from_chars(b.as_slice());
            match parse_usize(a_text.as_str()) {
                None => Err(CliError::InvalidRangeBound { text: a_text }),
                Some(x) => match parse_usize(b_text.as_str()) {
                    None => Err(CliError::InvalidRangeBound { text: b_text }),
                    Some(y) => Ok((x, y)),
                },
            }
        },
    }
}

fn range_step_exec(st: CliArgs, value: &String, next: usize) -> (r: ExecStep)
    ensures
        exec_step_view(r) == range_step(st@, value@, next as int),
{
    match parse_next_range(value) {
        Err(e) => ExecStep::Stop(Err(e)),
        Ok(range) => {
            let mut s = st;
            s.temp_0_avg_range = Some(range);
            ExecStep::Next(next, s)
        },
    }
}

fn path_step_exec(args: &Vec<String>, pos: usize, st: CliArgs, o: PathOption) -> (r: ExecStep)
    requires
        pos < args.len(),
    ensures
        exec_step_view(r) == path_step(
            st@,
            o,
            pos + 1 < args.len(),
            string_views(args@)[pos + 1],
            pos as int,
        ),
        r matches ExecStep::Next(p, _) ==> pos < p <= args.len(),
{
    let mut s = st;
    if pos + 1 < args.len() {
        s.set_path(o, Some(args[pos + 1].clone()));
        ExecStep::Next(pos + 2, s)
    } else {
        s.set_path(o, None);
        ExecStep::Next(pos + 1, s)
    }
}

/// Reads the value of an integer option: the argument after the flag.
pub fn parse_next_usize(value: Option<&String>, flag: String) -> (r: Result<usize, CliError>)
    ensures
        match value {
            None => r matches Err(e) && e@ == CliErrorView::MissingValue(flag@),
            Some(v) => match parse_usize_spec(v@) {
                Some(n) => r matches Ok(m) && m == n,
                None => r matches Err(e) && e@ == CliErrorView::InvalidCount(flag@, v@),
            },
        },
{
    match value {
        None => Err(CliError::MissingValue { flag }),
        Some(v) => match parse_usize(v.as_str()) {
            Some(n) => Ok(n),
            None => Err(CliError::InvalidCount { flag, value: v.clone() }),
        },
    }
}

fn count_step_exec(args: &Vec<String>, pos: usize, st: CliArgs, o: CountOption) -> (r: ExecStep)
    requires
        pos < args.len(),
    ensures
        exec_step_view(r) == count_step(
            st@,
            o,
            pos + 1 < args.len(),
            string_views(args@)[pos + 1],
            pos as int,
        ),
        r matches ExecStep::Next(p, _) ==> pos < p <= args.len(),
{
    let value = if pos + 1 < args.len() {
        assert(string_views(args@)[pos + 1] == args@[pos + 1]@);
        Some(&args[pos + 1])
    } else {
        None
    };
    match parse_next_usize(value, count_flag(o)) {
        Ok(n) => {
            let mut s = st;
            s.set_count(o, n);
            ExecStep::Next(pos + 2, s)
        },
        Err(e) => ExecStep::Stop(Err(e)),
    }
}

/// Reads the value of a real-number option: the argument after the flag,
/// kept as text; `value_ok` tells whether it reads as a number.
pub fn parse_next_f64(value: Option<&String>, value_ok: bool, flag: String) -> (r: Result<
    String,
    CliError,
>)
    ensures
        match value {
            None => r matches Err(e) && e@ == CliErrorView::MissingValue(flag@),
            Some(v) => if value_ok {
                r matches Ok(t) && t@ == v@
            } else {
                r matches Err(e) && e@ == CliErrorView::InvalidNumber(flag@, v@)
            },
        },
{
    match value {
        None => Err(CliError::MissingValue { flag }),
        Some(v) => if value_ok {
            Ok(v.clone())
        } else {
            Err(CliError::InvalidNumber { flag, value: v.clone() })
        },
    }
}

fn number_step_exec(
    args: &Vec<String>,
    float_ok: &Vec<bool>,
    pos: usize,
    st: CliArgs,
    o: NumberOption,
) -> (r: ExecStep)
    requires
        pos < args.len(),
        float_ok.len() == args.len(),
    ensures
        exec_step_view(r) == number_step(
            st@,
            o,
            pos + 1 < args.len(),
            string_views(args@)[pos + 1],
            float_ok@[pos + 1],
            pos as int,
        ),
        r matches ExecStep::Next(p, _) ==> pos < p <= args.len(),
{
    let (value, value_ok) = if pos + 1 < args.len() {
        assert(string_views(args@)[pos + 1] == args@[pos + 1]@);
        (Some(&args[pos + 1]), float_ok[pos + 1])
    } else {
        (None, false)
    };
    match parse_next_f64(value, value_ok, number_flag(o)) {
        Ok(text) => {
            let mut s = st;
            s.set_number(o, text);
            ExecStep::Next(pos + 2, s)
        },
        Err(e) => ExecStep::Stop(Err(e)),
    }
}

/// Reads the value of a list option: the comma-separated items, trimmed,
/// none empty and each reading as a number (`item_ok`).
pub fn parse_next_f64_list(value: &String, item_ok: &Vec<bool>, o: ListOption) -> (r: Result<
    Vec<String>,
    CliError,
>)
    requires
        item_ok.len() == list_items_spec(value@).len(),
    ensures
        match list_error_from(list_items_spec(value@), item_ok@, list_flag_spec(o), 0) {
            Some(e) => r matches Err(x) && x@ == e,
            None => r matches Ok(v) && string_views(v@) == list_items_spec(value@),
        },
{
    let chars = chars_of(value.as_str());
    let items = list_items(&chars);
    check_list(&items, item_ok, o)
}

fn list_step_exec(value: &String, item_ok: &Vec<bool>, st: CliArgs, o: ListOption, next: usize) -> (r:
    ExecStep)
    requires
        item_ok.len() == list_items_spec(value@).len(),
    ensures
        exec_step_view(r) == list_step(st@, o, value@, item_ok@, next as int),
{
    match parse_next_f64_list(value, item_ok, o) {
        Err(e) => ExecStep::Stop(Err(e)),
        Ok(v) => {
            let mut s = st;
            s.set_list(o, v);
            ExecStep::Next(next, s)
        },
    }
}

fn positional_step_exec(arg: &String, pos: usize, st: CliArgs) -> (r: ExecStep)
    requires
        pos < usize::MAX,
    ensures
        exec_step_view(r) == positional_step(st@, arg@, pos as int),
{
    let mut s = st;
    if s.input.is_none() {
        s.input = Some(arg.clone());
        ExecStep::Next(pos + 1, s)
    } else if s.output_dir.is_none() {
        s.output_dir = Some(arg.clone());
        ExecStep::Next(pos + 1, s)
    } else {
        ExecStep::Stop(Err(CliError::UnknownArgument { arg: arg.clone() }))
    }
}

fn cli_step_exec(
    args: &Vec<String>,
    float_ok: &Vec<bool>,
    items_ok: &Vec<Vec<bool>>,
    pos: usize,
    st: CliArgs,
) -> (r: ExecStep)
    requires
        pos < args.len(),
        cli_oracle_fits(string_views(args@), float_ok@, bool_rows(items_ok@)),
    ensures
        exec_step_view(r) == cli_step(string_views(args@), float_ok@, bool_rows(items_ok@), pos as int, st@),
        r matches ExecStep::Next(p, _) ==> pos < p <= args.len(),
{
    let ghost a = string_views(args@);
    let arg = chars_of(args[pos].as_str());
    assert(a[pos as int] == args@[pos as int]@);
    match lookup_flag(&arg) {
        Some(Flag::Help) => ExecStep::Stop(Ok(CliCommand::Help)),
        Some(Flag::Path(o)) => path_step_exec(args, pos, st, o),
        Some(Flag::Switch(o)) => {
            let mut s = st;
            s.set_switch(o);
            ExecStep::Next(pos + 1, s)
        },
        Some(Flag::Count(o)) => count_step_exec(args, pos, st, o),
        Some(Flag::Number(o)) => number_step_exec(args, float_ok, pos, st, o),
        Some(Flag::Mode(o)) => {
            if pos + 1 >= args.len() {
                ExecStep::Stop(Err(CliError::MissingValue { flag: mode_flag(o) }))
            } else {
                assert(a[pos + 1] == args@[pos + 1]@);
                mode_step_exec(st, o, &args[pos + 1], pos + 2)
            }
        },
        Some(Flag::Range) => {
            if pos + 1 >= args.len() {
                ExecStep::Stop(Err(CliError::MissingValue { flag: owned("--temp-zero-range") }))
            } else {
                assert(a[pos + 1] == args@[pos + 1]@);
                range_step_exec(st, &args[pos + 1], pos + 2)
            }
        },
        Some(Flag::List(o)) => {
            if pos + 1 >= args.len() {
                ExecStep::Stop(Err(CliError::MissingValue { flag: list_flag(o) }))
            } else {
                assert(a[pos + 1] == args@[pos + 1]@);
                assert(bool_rows(items_ok@)[pos + 1] == items_ok@[pos + 1]@);
                list_step_exec(&args[pos + 1], &items_ok[pos + 1], st, o, pos + 2)
            }
        },
        None => positional_step_exec(&args[pos], pos, st),
    }
}

/// The check made on a theoretical model once every argument is read: the
/// two lists come together, with a start time, an end time and a sample
/// count, and have the same length.
pub fn validate_theoretical_args(args: &CliArgs) -> (r: Result<(), CliError>)
    ensures
        match theoretical_args_error(args@) {
            Some(e) => r matches Err(x) && x@ == e,
            None => r is Ok,
        },
{
    let has_resistance = args.theoretical_resistance.is_some();
    let has_capacitance = args.theoretical_capacitance.is_some();
    let has_time = args.time_start.is_some() || args.time_end.is_some() || args.time_size.is_some();
    if !has_resistance && !has_capacitance && !has_time {
        return Ok(());
    }
    if !has_resistance || !has_capacitance {
        return Err(CliError::TheoreticalPairing);
    }
    if args.time_start.is_none() || args.time_end.is_none() || args.time_size.is_none() {
        return Err(CliError::TheoreticalTimeRange);
    }
    match (&args.theoretical_resistance, &args.theoretical_capacitance) {
        (Some(r), Some(c)) => {
            if r.len() != c.len() {
                Err(
                    CliError::TheoreticalLengthMismatch {
                        resistance_len: r.len(),
                        capacitance_len: c.len(),
                    },
                )
            } else {
                Ok(())
            }
        },
        _ => Ok(()),
    }
}

fn cli_finish_exec(st: CliArgs) -> (r: Result<CliCommand, CliError>)
    ensures
        cli_result_view(r) == cli_finish(st@),
{
    match validate_theoretical_args(&st) {
        Err(e) => Err(e),
        Ok(()) => {
            if st.theoretical_resistance.is_none() && st.input.is_none() {
                Err(CliError::MissingInputPath)
            } else {
                Ok(CliCommand::Run(st))
            }
        },
    }
}

/// Reads a command line (the arguments after the program name).
///
/// `float_ok[i]` tells whether `args[i]` reads as a real number, and
/// `items_ok[i][k]` whether the `k`-th comma-separated, trimmed item of
/// `args[i]` does. Options are read left to right; the first faulty one
/// stops the reading, and `--help` stops it at once.
pub fn parse_cli_args(args: &Vec<String>, float_ok: &Vec<bool>, items_ok: &Vec<Vec<bool>>) -> (r:
    Result<CliCommand, CliError>)
    requires
        cli_oracle_fits(string_views(args@), float_ok@, bool_rows(items_ok@)),
    ensures
        cli_result_view(r) == cli_parse_spec(string_views(args@), float_ok@, bool_rows(items_ok@)),
{
    let mut st = CliArgs::initial();
    let mut pos: usize = 0;
    while pos < args.len()
        invariant
            pos <= args.len(),
            cli_oracle_fits(string_views(args@), float_ok@, bool_rows(items_ok@)),
            cli_scan(string_views(args@), float_ok@, bool_rows(items_ok@), pos as int, st@)
                == cli_parse_spec(string_views(args@), float_ok@, bool_rows(items_ok@)),
        decreases args.len() - pos,
    {
        match cli_step_exec(args, float_ok, items_ok, pos, st) {
            ExecStep::Next(p, s) => {
                pos = p;
                st = s;
            },
            ExecStep::Stop(r) => {
                return r;
            },
        }
    }
    cli_finish_exec(st)
}

} // verus!
