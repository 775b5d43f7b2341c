use pyrth::bootstrap::{check_repetitions, BootstrapTally};
use pyrth::error::PyrthError;

#[test]
fn zero_repetitions_are_refused() {
    match check_repetitions(0) {
        Err(PyrthError::InvalidParameter { parameter, expected, actual }) => {
            assert_eq!(parameter, "repetitions");
            assert_eq!(expected, "greater than zero");
            assert_eq!(actual, "0");
        }
        other => panic!("{other:?}"),
    }
    assert!(check_repetitions(1).is_ok());
    assert!(check_repetitions(200).is_ok());
}

#[test]
fn repetitions_with_other_sample_counts_are_dropped() {
    let mut tally = BootstrapTally::new();
    assert!(tally.offer(100, 250));
    assert!(tally.offer(100, 250));
    assert!(!tally.offer(99, 250));
    assert!(!tally.offer(100, 251));
    assert!(tally.offer(100, 250));
    assert_eq!(tally.successful_repetitions().unwrap(), 3);
}

#[test]
fn no_kept_repetition_is_an_error() {
    let tally = BootstrapTally::new();
    match tally.successful_repetitions() {
        Err(PyrthError::InvalidParameter { parameter, expected, actual }) => {
            assert_eq!(parameter, "repetitions");
            assert_eq!(expected, "at least one successful evaluation");
            assert_eq!(actual, "0");
        }
        other => panic!("{other:?}"),
    }
}
