//! The labelled modes that select the stages of an evaluation.
//!
//! Each mode is read from a label that may carry surrounding whitespace,
//! upper-case ASCII letters and `-` in place of `_`; each mode writes back a
//! canonical label that reads as the same mode.
use vstd::prelude::*;

use crate::error::{is_unknown_mode, PyrthError};
use crate::text::{
    chars_are, chars_of, lemma_normalize_plain, normalize_label_chars, normalize_label_spec, owned,
};

verus! {

/// How the measured transient is given: raw T3Ster files, a temperature
/// curve, a voltage curve, or a thermal impedance curve.
#[derive(Clone, Copy, Debug, PartialEq, Eq, Structural)]
pub enum InputMode {
    T3ster,
    Temperature,
    Voltage,
    Impedance,
}

/// The mode that a normalized label names, if any.
pub open spec fn input_mode_of(label: Seq<char>) -> Option<InputMode> {
    if label == "t3ster"@ {
        Some(InputMode::T3ster)
    } else if label == "temp"@ || label == "temperature"@ {
        Some(InputMode::Temperature)
    } else if label == "volt"@ || label == "voltage"@ {
        Some(InputMode::Voltage)
    } else if label == "impedance"@ {
        Some(InputMode::Impedance)
    } else {
        None
    }
}

/// The canonical label of a mode.
pub open spec fn input_mode_label(mode: InputMode) -> Seq<char> {
    match mode {
        InputMode::T3ster => "t3ster"@,
        InputMode::Temperature => "temp"@,
        InputMode::Voltage => "volt"@,
        InputMode::Impedance => "impedance"@,
    }
}

impl InputMode {
    /// Reads a mode from its label; the label is first trimmed, lower-cased
    /// (ASCII) and has `-` turned into `_`.
    pub fn from_label(value: &str) -> (r: Result<Self, PyrthError>)
        ensures
            match r {
                Ok(mode) => input_mode_of(normalize_label_spec(value@)) == Some(mode),
                Err(e) => input_mode_of(normalize_label_spec(value@)) is None && is_unknown_mode(
                    e,
                    "input mode"@,
                    value@,
                ),
            },
    {
        let label = normalize_label_chars(&chars_of(value));
        if chars_are(&label, "t3ster") {
            Ok(InputMode::T3ster)
        } else if chars_are(&label, "temp") || chars_are(&label, "temperature") {
            Ok(InputMode::Temperature)
        } else if chars_are(&label, "volt") || chars_are(&label, "voltage") {
            Ok(InputMode::Voltage)
        } else if chars_are(&label, "impedance") {
            Ok(InputMode::Impedance)
        } else {
            Err(PyrthError::UnknownMode { kind: "input mode", value: owned(value) })
        }
    }

    /// The canonical label of the mode.
    pub fn label(&self) -> (r: String)
        ensures
            r@ == input_mode_label(*self),
    {
        match self {
            InputMode::T3ster => owned("t3ster"),
            InputMode::Temperature => owned("temp"),
            InputMode::Voltage => owned("volt"),
            InputMode::Impedance => owned("impedance"),
        }
    }
}

impl core::str::FromStr for InputMode {
    type Err = PyrthError;

    /// Reads a mode from its label, as [`InputMode::from_label`] does.
    fn from_str(value: &str) -> (r: Result<Self, PyrthError>)
        ensures
            match r {
                Ok(mode) => input_mode_of(normalize_label_spec(value@)) == Some(mode),
                Err(e) => input_mode_of(normalize_label_spec(value@)) is None && is_unknown_mode(
                    e,
                    "input mode"@,
                    value@,
                ),
            },
    {
        Self::from_label(value)
    }
}

/// How the time constant spectrum is recovered from the impedance derivative.
#[derive(Clone, Copy, Debug, PartialEq, Eq, Structural)]
pub enum DeconvMode {
    Bayesian,
    Fourier,
    Lasso,
    Adaptive,
}

/// The mode that a normalized label names, if any.
pub open spec fn deconv_mode_of(label: Seq<char>) -> Option<DeconvMode> {
    if label == "bayesian"@ {
        Some(DeconvMode::Bayesian)
    } else if label == "fft"@ || label == "fourier"@ {
        Some(DeconvMode::Fourier)
    } else if label == "lasso"@ {
        Some(DeconvMode::Lasso)
    } else if label == "adaptive"@ {
        Some(DeconvMode::Adaptive)
    } else {
        None
    }
}

/// The canonical label of a mode.
pub open spec fn deconv_mode_label(mode: DeconvMode) -> Seq<char> {
    match mode {
        DeconvMode::Bayesian => "bayesian"@,
        DeconvMode::Fourier => "fourier"@,
        DeconvMode::Lasso => "lasso"@,
        DeconvMode::Adaptive => "adaptive"@,
    }
}

impl DeconvMode {
    /// Reads a mode from its label; the label is first trimmed, lower-cased
    /// (ASCII) and has `-` turned into `_`.
    pub fn from_label(value: &str) -> (r: Result<Self, PyrthError>)
        ensures
            match r {
                Ok(mode) => deconv_mode_of(normalize_label_spec(value@)) == Some(mode),
                Err(e) => deconv_mode_of(normalize_label_spec(value@)) is None && is_unknown_mode(
                    e,
                    "deconvolution mode"@,
                    value@,
                ),
            },
    {
        let label = normalize_label_chars(&chars_of(value));
        if chars_are(&label, "bayesian") {
            Ok(DeconvMode::Bayesian)
        } else if chars_are(&label, "fft") || chars_are(&label, "fourier") {
            Ok(DeconvMode::Fourier)
        } else if chars_are(&label, "lasso") {
            Ok(DeconvMode::Lasso)
        } else if chars_are(&label, "adaptive") {
            Ok(DeconvMode::Adaptive)
        } else {
            Err(PyrthError::UnknownMode { kind: "deconvolution mode", value: owned(value) })
        }
    }

    /// The canonical label of the mode.
    pub fn label(&self) -> (r: String)
        ensures
            r@ == deconv_mode_label(*self),
    {
        match self {
            DeconvMode::Bayesian => owned("bayesian"),
            DeconvMode::Fourier => owned("fourier"),
            DeconvMode::Lasso => owned("lasso"),
            DeconvMode::Adaptive => owned("adaptive"),
        }
    }
}

impl core::str::FromStr for DeconvMode {
    type Err = PyrthError;

    /// Reads a mode from its label, as [`DeconvMode::from_label`] does.
    fn from_str(value: &str) -> (r: Result<Self, PyrthError>)
        ensures
            match r {
                Ok(mode) => deconv_mode_of(normalize_label_spec(value@)) == Some(mode),
                Err(e) => deconv_mode_of(normalize_label_spec(value@)) is None && is_unknown_mode(
                    e,
                    "deconvolution mode"@,
                    value@,
                ),
            },
    {
        Self::from_label(value)
    }
}

/// The window applied by the Fourier deconvolution.
#[derive(Clone, Copy, Debug, PartialEq, Eq, Structural)]
pub enum FourierFilter {
    Hann,
    Rectangular,
    Gauss,
    Fermi,
    Nuttall,
    BlackmanNuttall,
    BlackmanHarris,
}

/// The mode that a normalized label names, if any.
pub open spec fn fourier_filter_of(label: Seq<char>) -> Option<FourierFilter> {
    if label == "hann"@ {
        Some(FourierFilter::Hann)
    } else if label == "rectangular"@ {
        Some(FourierFilter::Rectangular)
    } else if label == "gauss"@ || label == "gaussian"@ {
        Some(FourierFilter::Gauss)
    } else if label == "fermi"@ {
        Some(FourierFilter::Fermi)
    } else if label == "nuttall"@ {
        Some(FourierFilter::Nuttall)
    } else if label == "blackman_nuttall"@ || label == "blackmannuttall"@ {
        Some(FourierFilter::BlackmanNuttall)
    } else if label == "blackman_harris"@ || label == "blackmanharris"@ {
        Some(FourierFilter::BlackmanHarris)
    } else {
        None
    }
}

/// The canonical label of a mode.
pub open spec fn fourier_filter_label(mode: FourierFilter) -> Seq<char> {
    match mode {
        FourierFilter::Hann => "hann"@,
        FourierFilter::Rectangular => "rectangular"@,
        FourierFilter::Gauss => "gauss"@,
        FourierFilter::Fermi => "fermi"@,
        FourierFilter::Nuttall => "nuttall"@,
        FourierFilter::BlackmanNuttall => "blackman_nuttall"@,
        FourierFilter::BlackmanHarris => "blackman_harris"@,
    }
}

impl FourierFilter {
    /// Reads a mode from its label; the label is first trimmed, lower-cased
    /// (ASCII) and has `-` turned into `_`.
    pub fn from_label(value: &str) -> (r: Result<Self, PyrthError>)
        ensures
            match r {
                Ok(mode) => fourier_filter_of(normalize_label_spec(value@)) == Some(mode),
                Err(e) => fourier_filter_of(normalize_label_spec(value@)) is None && is_unknown_mode(
                    e,
                    "Fourier filter"@,
                    value@,
                ),
            },
    {
        let label = normalize_label_chars(&chars_of(value));
        if chars_are(&label, "hann") {
            Ok(FourierFilter::Hann)
        } else if chars_are(&label, "rectangular") {
            Ok(FourierFilter::Rectangular)
        } else if chars_are(&label, "gauss") || chars_are(&label, "gaussian") {
            Ok(FourierFilter::Gauss)
        } else if chars_are(&label, "fermi") {
            Ok(FourierFilter::Fermi)
        } else if chars_are(&label, "nuttall") {
            Ok(FourierFilter::Nuttall)
        } else if chars_are(&label, "blackman_nuttall") || chars_are(&label, "blackmannuttall") {
            Ok(FourierFilter::BlackmanNuttall)
        } else if chars_are(&label, "blackman_harris") || chars_are(&label, "blackmanharris") {
            Ok(FourierFilter::BlackmanHarris)
        } else {
            Err(PyrthError::UnknownMode { kind: "Fourier filter", value: owned(value) })
        }
    }

    /// The canonical label of the mode.
    pub fn label(&self) -> (r: String)
        ensures
            r@ == fourier_filter_label(*self),
    {
        match self {
            FourierFilter::Hann => owned("hann"),
            FourierFilter::Rectangular => owned("rectangular"),
            FourierFilter::Gauss => owned("gauss"),
            FourierFilter::Fermi => owned("fermi"),
            FourierFilter::Nuttall => owned("nuttall"),
            FourierFilter::BlackmanNuttall => owned("blackman_nuttall"),
            FourierFilter::BlackmanHarris => owned("blackman_harris"),
        }
    }
}

impl core::str::FromStr for FourierFilter {
    type Err = PyrthError;

    /// Reads a mode from its label, as [`FourierFilter::from_label`] does.
    fn from_str(value: &str) -> (r: Result<Self, PyrthError>)
        ensures
            match r {
                Ok(mode) => fourier_filter_of(normalize_label_spec(value@)) == Some(mode),
                Err(e) => fourier_filter_of(normalize_label_spec(value@)) is None && is_unknown_mode(
                    e,
                    "Fourier filter"@,
                    value@,
                ),
            },
    {
        Self::from_label(value)
    }
}

/// How the Cauer ladder (the structure function) is derived from the Foster network.
#[derive(Clone, Copy, Debug, PartialEq, Eq, Structural)]
pub enum StructureMethod {
    Lanczos,
    Sobhy,
    BoorGolub,
    Khatwani,
    PolyLong,
}

/// The mode that a normalized label names, if any.
pub open spec fn structure_method_of(label: Seq<char>) -> Option<StructureMethod> {
    if label == "lanczos"@ {
        Some(StructureMethod::Lanczos)
    } else if label == "sobhy"@ {
        Some(StructureMethod::Sobhy)
    } else if label == "boor_golub"@ || label == "boorgolub"@ {
        Some(StructureMethod::BoorGolub)
    } else if label == "khatwani"@ {
        Some(StructureMethod::Khatwani)
    } else if label == "polylong"@ || label == "poly_long"@ {
        Some(StructureMethod::PolyLong)
    } else {
        None
    }
}

/// The canonical label of a mode.
pub open spec fn structure_method_label(mode: StructureMethod) -> Seq<char> {
    match mode {
        StructureMethod::Lanczos => "lanczos"@,
        StructureMethod::Sobhy => "sobhy"@,
        StructureMethod::BoorGolub => "boor_golub"@,
        StructureMethod::Khatwani => "khatwani"@,
        StructureMethod::PolyLong => "polylong"@,
    }
}

impl StructureMethod {
    /// Reads a mode from its label; the label is first trimmed, lower-cased
    /// (ASCII) and has `-` turned into `_`.
    pub fn from_label(value: &str) -> (r: Result<Self, PyrthError>)
        ensures
            match r {
                Ok(mode) => structure_method_of(normalize_label_spec(value@)) == Some(mode),
                Err(e) => structure_method_of(normalize_label_spec(value@)) is None && is_unknown_mode(
                    e,
                    "structure method"@,
                    value@,
                ),
            },
    {
        let label = normalize_label_chars(&chars_of(value));
        if chars_are(&label, "lanczos") {
            Ok(StructureMethod::Lanczos)
        } else if chars_are(&label, "sobhy") {
            Ok(StructureMethod::Sobhy)
        } else if chars_are(&label, "boor_golub") || chars_are(&label, "boorgolub") {
            Ok(StructureMethod::BoorGolub)
        } else if chars_are(&label, "khatwani") {
            Ok(StructureMethod::Khatwani)
        } else if chars_are(&label, "polylong") || chars_are(&label, "poly_long") {
            Ok(StructureMethod::PolyLong)
        } else {
            Err(PyrthError::UnknownMode { kind: "structure method", value: owned(value) })
        }
    }

    /// The canonical label of the mode.
    pub fn label(&self) -> (r: String)
        ensures
            r@ == structure_method_label(*self),
    {
        match self {
            StructureMethod::Lanczos => owned("lanczos"),
            StructureMethod::Sobhy => owned("sobhy"),
            StructureMethod::BoorGolub => owned("boor_golub"),
            StructureMethod::Khatwani => owned("khatwani"),
            StructureMethod::PolyLong => owned("polylong"),
        }
    }
}

impl core::str::FromStr for StructureMethod {
    type Err = PyrthError;

    /// Reads a mode from its label, as [`StructureMethod::from_label`] does.
    fn from_str(value: &str) -> (r: Result<Self, PyrthError>)
        ensures
            match r {
                Ok(mode) => structure_method_of(normalize_label_spec(value@)) == Some(mode),
                Err(e) => structure_method_of(normalize_label_spec(value@)) is None && is_unknown_mode(
                    e,
                    "structure method"@,
                    value@,
                ),
            },
    {
        Self::from_label(value)
    }
}

/// Reading back the canonical label of any InputMode gives that mode.
pub proof fn lemma_input_mode_label_roundtrip(mode: InputMode)
    ensures
        input_mode_of(normalize_label_spec(input_mode_label(mode))) == Some(mode),
{
    reveal_strlit("impedance");
    reveal_strlit("t3ster");
    reveal_strlit("temp");
    reveal_strlit("temperature");
    reveal_strlit("volt");
    reveal_strlit("voltage");
    match mode {
        InputMode::T3ster => {
            lemma_normalize_plain("t3ster"@);
        },
        InputMode::Temperature => {
            lemma_normalize_plain("temp"@);
        },
        InputMode::Voltage => {
            lemma_normalize_plain("volt"@);
        },
        InputMode::Impedance => {
            lemma_normalize_plain("impedance"@);
        },
    }
}

/// Reading back the canonical label of any DeconvMode gives that mode.
pub proof fn lemma_deconv_mode_label_roundtrip(mode: DeconvMode)
    ensures
        deconv_mode_of(normalize_label_spec(deconv_mode_label(mode))) == Some(mode),
{
    reveal_strlit("adaptive");
    reveal_strlit("bayesian");
    reveal_strlit("fft");
    reveal_strlit("fourier");
    reveal_strlit("lasso");
    match mode {
        DeconvMode::Bayesian => {
            lemma_normalize_plain("bayesian"@);
        },
        DeconvMode::Fourier => {
            lemma_normalize_plain("fourier"@);
        },
        DeconvMode::Lasso => {
            lemma_normalize_plain("lasso"@);
        },
        DeconvMode::Adaptive => {
            lemma_normalize_plain("adaptive"@);
        },
    }
}

/// Reading back the canonical label of any FourierFilter gives that mode.
pub proof fn lemma_fourier_filter_label_roundtrip(mode: FourierFilter)
    ensures
        fourier_filter_of(normalize_label_spec(fourier_filter_label(mode))) == Some(mode),
{
    reveal_strlit("blackman_harris");
    reveal_strlit("blackman_nuttall");
    reveal_strlit("blackmanharris");
    reveal_strlit("blackmannuttall");
    reveal_strlit("fermi");
    reveal_strlit("gauss");
    reveal_strlit("gaussian");
    reveal_strlit("hann");
    reveal_strlit("nuttall");
    reveal_strlit("rectangular");
    match mode {
        FourierFilter::Hann => {
            lemma_normalize_plain("hann"@);
        },
        FourierFilter::Rectangular => {
            lemma_normalize_plain("rectangular"@);
        },
        FourierFilter::Gauss => {
            lemma_normalize_plain("gauss"@);
        },
        FourierFilter::Fermi => {
            lemma_normalize_plain("fermi"@);
        },
        FourierFilter::Nuttall => {
            lemma_normalize_plain("nuttall"@);
        },
        FourierFilter::BlackmanNuttall => {
            lemma_normalize_plain("blackman_nuttall"@);
        },
        FourierFilter::BlackmanHarris => {
            lemma_normalize_plain("blackman_harris"@);
        },
    }
}

/// Reading back the canonical label of any StructureMethod gives that mode.
pub proof fn lemma_structure_method_label_roundtrip(mode: StructureMethod)
    ensures
        structure_method_of(normalize_label_spec(structure_method_label(mode))) == Some(mode),
{
    reveal_strlit("boor_golub");
    reveal_strlit("boorgolub");
    reveal_strlit("khatwani");
    reveal_strlit("lanczos");
    reveal_strlit("poly_long");
    reveal_strlit("polylong");
    reveal_strlit("sobhy");
    match mode {
        StructureMethod::Lanczos => {
            lemma_normalize_plain("lanczos"@);
        },
        StructureMethod::Sobhy => {
            lemma_normalize_plain("sobhy"@);
        },
        StructureMethod::BoorGolub => {
            lemma_normalize_plain("boor_golub"@);
        },
        StructureMethod::Khatwani => {
            lemma_normalize_plain("khatwani"@);
        },
        StructureMethod::PolyLong => {
            lemma_normalize_plain("polylong"@);
        },
    }
}

impl Default for FourierFilter {
    fn default() -> (r: Self)
        ensures
            r == FourierFilter::Hann,
    {
        FourierFilter::Hann
    }
}

} // verus!
