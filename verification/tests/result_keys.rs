use pyrth::export::ResultParts;
use pyrth::result_keys::{data_handlers_for_result, evaluation_result_keys, result_has_key};

fn parts(d: bool, t: bool, f: bool, c: bool) -> ResultParts {
    ResultParts { has_derivative: d, has_time_spectrum: t, has_foster: f, has_cauer: c }
}

#[test]
fn impedance_only_result_has_three_keys() {
    let p = parts(false, false, false, false);
    assert_eq!(evaluation_result_keys(p), vec!["time", "impedance", "log_time"]);
    assert_eq!(data_handlers_for_result(p), vec!["impedance"]);
    assert!(result_has_key(p, "log_time"));
    assert!(!result_has_key(p, "cauer"));
    assert!(!result_has_key(p, ""));
}

#[test]
fn full_result_keys_in_order() {
    let p = parts(true, true, true, true);
    let keys = evaluation_result_keys(p);
    assert_eq!(
        keys,
        vec![
            "time",
            "impedance",
            "log_time",
            "derivative",
            "imp_deriv_interp",
            "log_time_interp",
            "time_spec",
            "foster",
            "therm_resist_fost",
            "therm_capa_fost",
            "cauer",
            "cau_res",
            "cau_cap",
            "int_cau_res",
            "int_cau_cap",
            "diff_struc",
        ]
    );
    assert_eq!(keys.len(), 16);
    assert_eq!(data_handlers_for_result(p), vec!["impedance", "time_spec", "structure"]);
    for k in &keys {
        assert!(result_has_key(p, k));
    }
    assert!(!result_has_key(p, "structure"));
}

#[test]
fn partial_result_keys() {
    let p = parts(true, true, true, false);
    let keys = evaluation_result_keys(p);
    assert_eq!(keys.len(), 10);
    assert_eq!(keys.last().map(String::as_str), Some("therm_capa_fost"));
    assert_eq!(data_handlers_for_result(p), vec!["impedance", "time_spec"]);
    assert!(result_has_key(p, "time_spec"));
    assert!(!result_has_key(p, "diff_struc"));
    let p = parts(false, false, false, true);
    assert_eq!(data_handlers_for_result(p), vec!["impedance", "structure"]);
    assert!(result_has_key(p, "int_cau_cap"));
}

#[test]
fn result_keys_are_distinct() {
    for bits in 0..16u8 {
        let p = parts(bits & 1 != 0, bits & 2 != 0, bits & 4 != 0, bits & 8 != 0);
        let keys = evaluation_result_keys(p);
        for i in 0..keys.len() {
            for j in (i + 1)..keys.len() {
                assert_ne!(keys[i], keys[j]);
            }
        }
    }
}
