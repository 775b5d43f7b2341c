use pyrth::config::{DeconvMode, FourierFilter, InputMode, StructureMethod};
use pyrth::error::PyrthError;

#[test]
fn labels_are_read_case_blind_and_trimmed() {
    assert_eq!(InputMode::from_label("  Temp ").unwrap(), InputMode::Temperature);
    assert_eq!(InputMode::from_label("VOLTAGE").unwrap(), InputMode::Voltage);
    assert_eq!(InputMode::from_label("t3ster").unwrap(), InputMode::T3ster);
    assert_eq!(InputMode::from_label("impedance").unwrap(), InputMode::Impedance);
    assert_eq!(DeconvMode::from_label("FFT").unwrap(), DeconvMode::Fourier);
    assert_eq!(DeconvMode::from_label("lasso").unwrap(), DeconvMode::Lasso);
    assert_eq!(DeconvMode::from_label("Adaptive").unwrap(), DeconvMode::Adaptive);
    assert_eq!(DeconvMode::from_label("bayesian").unwrap(), DeconvMode::Bayesian);
    assert_eq!(
        FourierFilter::from_label("Blackman-Harris").unwrap(),
        FourierFilter::BlackmanHarris
    );
    assert_eq!(FourierFilter::from_label("blackmannuttall").unwrap(), FourierFilter::BlackmanNuttall);
    assert_eq!(FourierFilter::from_label("gaussian").unwrap(), FourierFilter::Gauss);
    assert_eq!(StructureMethod::from_label("poly-long").unwrap(), StructureMethod::PolyLong);
    assert_eq!(StructureMethod::from_label("Boor-Golub").unwrap(), StructureMethod::BoorGolub);
}

#[test]
fn unicode_whitespace_around_a_label_is_trimmed() {
    assert_eq!(InputMode::from_label("\u{3000}temp\u{a0}\n").unwrap(), InputMode::Temperature);
    assert!(InputMode::from_label("te mp").is_err());
}

#[test]
fn unknown_labels_name_kind_and_value() {
    match InputMode::from_label("bogus") {
        Err(PyrthError::UnknownMode { kind, value }) => {
            assert_eq!(kind, "input mode");
            assert_eq!(value, "bogus");
        }
        other => panic!("unexpected {other:?}"),
    }
    assert!(matches!(
        DeconvMode::from_label("gauss"),
        Err(PyrthError::UnknownMode { kind: "deconvolution mode", .. })
    ));
    assert!(matches!(
        FourierFilter::from_label("hamming"),
        Err(PyrthError::UnknownMode { kind: "Fourier filter", .. })
    ));
    assert!(matches!(
        StructureMethod::from_label(" "),
        Err(PyrthError::UnknownMode { kind: "structure method", .. })
    ));
}

#[test]
fn every_label_reads_back_as_its_mode() {
    for mode in [InputMode::T3ster, InputMode::Temperature, InputMode::Voltage, InputMode::Impedance] {
        assert_eq!(InputMode::from_label(&mode.label()).unwrap(), mode);
    }
    for mode in [DeconvMode::Bayesian, DeconvMode::Fourier, DeconvMode::Lasso, DeconvMode::Adaptive] {
        assert_eq!(DeconvMode::from_label(&mode.label()).unwrap(), mode);
    }
    for mode in [
        FourierFilter::Hann,
        FourierFilter::Rectangular,
        FourierFilter::Gauss,
        FourierFilter::Fermi,
        FourierFilter::Nuttall,
        FourierFilter::BlackmanNuttall,
        FourierFilter::BlackmanHarris,
    ] {
        assert_eq!(FourierFilter::from_label(&mode.label()).unwrap(), mode);
    }
    for mode in [
        StructureMethod::Lanczos,
        StructureMethod::Sobhy,
        StructureMethod::BoorGolub,
        StructureMethod::Khatwani,
        StructureMethod::PolyLong,
    ] {
        assert_eq!(StructureMethod::from_label(&mode.label()).unwrap(), mode);
    }
}

#[test]
fn canonical_labels() {
    assert_eq!(InputMode::Temperature.label(), "temp");
    assert_eq!(InputMode::Voltage.label(), "volt");
    assert_eq!(DeconvMode::Fourier.label(), "fourier");
    assert_eq!(FourierFilter::BlackmanNuttall.label(), "blackman_nuttall");
    assert_eq!(StructureMethod::BoorGolub.label(), "boor_golub");
    assert_eq!(StructureMethod::PolyLong.label(), "polylong");
}

#[test]
fn modes_parse_from_str() {
    assert_eq!("lanczos".parse::<StructureMethod>().unwrap(), StructureMethod::Lanczos);
    assert_eq!("temperature".parse::<InputMode>().unwrap(), InputMode::Temperature);
    assert_eq!("fourier".parse::<DeconvMode>().unwrap(), DeconvMode::Fourier);
    assert_eq!("fermi".parse::<FourierFilter>().unwrap(), FourierFilter::Fermi);
    assert!("nope".parse::<FourierFilter>().is_err());
}

#[test]
fn default_filter_is_hann() {
    assert_eq!(FourierFilter::default(), FourierFilter::Hann);
}
