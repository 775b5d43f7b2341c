use pyrth::comparison::{
    check_spectra, compares_structure, overlap_len, resistance_source, ResistanceSource,
};
use pyrth::error::PyrthError;

fn invalid(r: PyrthError) -> (&'static str, &'static str, String) {
    match r {
        PyrthError::InvalidParameter { parameter, expected, actual } => (parameter, expected, actual),
        other => panic!("{other:?}"),
    }
}

#[test]
fn missing_time_spectrum_is_rejected() {
    // The reference holds no spectrum, the candidate does.
    assert_eq!(
        invalid(check_spectra(false, true).unwrap_err()),
        ("reference.time_spectrum", "present", "missing".to_string())
    );
}

#[test]
fn missing_resistance_source_is_rejected() {
    // Both hold a one-sample spectrum; neither a Cauer nor a Foster network.
    assert!(check_spectra(true, true).is_ok());
    assert_eq!(overlap_len(1, 1, "time_spectrum").unwrap(), 1);
    assert!(!compares_structure(None, None));
    assert_eq!(
        invalid(resistance_source(None, None).unwrap_err()),
        (
            "total_resistance",
            "non-empty Cauer cumulative resistance or Foster resistance",
            "missing".to_string()
        )
    );
}

#[test]
fn candidate_spectrum_is_checked_after_the_reference() {
    assert_eq!(
        invalid(check_spectra(true, false).unwrap_err()).0,
        "candidate.time_spectrum"
    );
    assert_eq!(
        invalid(check_spectra(false, false).unwrap_err()).0,
        "reference.time_spectrum"
    );
}

#[test]
fn overlap_is_the_shorter_length() {
    assert_eq!(overlap_len(5, 3, "time_spectrum").unwrap(), 3);
    assert_eq!(overlap_len(2, 7, "time_spectrum").unwrap(), 2);
    assert_eq!(
        invalid(overlap_len(0, 4, "cauer.differential_structure").unwrap_err()),
        ("cauer.differential_structure", "at least one overlapping sample", "0".to_string())
    );
}

#[test]
fn structures_are_compared_only_when_both_are_non_empty() {
    assert!(compares_structure(Some(3), Some(4)));
    assert!(!compares_structure(Some(3), None));
    assert!(!compares_structure(Some(0), Some(4)));
    assert!(!compares_structure(None, Some(4)));
}

#[test]
fn cauer_ladder_is_preferred_for_total_resistance() {
    assert_eq!(resistance_source(Some(4), Some(2)).unwrap(), ResistanceSource::CauerCumulative);
    assert_eq!(resistance_source(Some(0), Some(2)).unwrap(), ResistanceSource::FosterSum);
    assert_eq!(resistance_source(None, Some(2)).unwrap(), ResistanceSource::FosterSum);
    assert!(resistance_source(Some(0), Some(0)).is_err());
}
