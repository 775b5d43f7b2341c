use pyrth::error::PyrthError;
use pyrth::t3ster::{
    numbered_data_rows_of, t3ster_data_rows, t3ster_header_lines, t3ster_power_entries,
    t3ster_raw_layout,
};

fn raw_text(headers: usize) -> String {
    let mut text = String::new();
    for i in 0..headers {
        text.push_str(&format!("# h{i}\r\n"));
    }
    text.push_str("0 2048\n1.5, 2050\n\n# comment\n2;2100 extra\nbad\n");
    text
}

#[test]
fn header_lines_are_trimmed_after_the_hash() {
    let h = t3ster_header_lines("  #  one \nno\n#two\n   #\n");
    assert_eq!(h, vec!["one".to_string(), "two".to_string(), "".to_string()]);
}

#[test]
fn raw_layout_takes_lsb_and_reference_rows() {
    let raw = t3ster_raw_layout(&raw_text(9)).unwrap();
    assert_eq!(raw.lsb, "h6");
    assert_eq!(raw.uref, "h8");
    assert_eq!(
        raw.rows,
        vec![
            ("0".to_string(), "2048".to_string()),
            ("1.5".to_string(), "2050".to_string()),
            ("2".to_string(), "2100".to_string()),
        ]
    );
}

#[test]
fn raw_layout_needs_more_than_eight_header_rows() {
    match t3ster_raw_layout(&raw_text(7)) {
        Err(PyrthError::InvalidParameter { parameter, expected, actual }) => {
            assert_eq!(parameter, "t3ster raw");
            assert_eq!(expected, "legacy T3Ster header with LSB and reference voltage rows");
            assert_eq!(actual, "8 header rows");
        }
        other => panic!("{other:?}"),
    }
}

#[test]
fn data_rows_split_on_commas_semicolons_and_spaces() {
    let rows = t3ster_data_rows("25,1.20\n 50 ; 1.1 \n# x\n75\t1.0\t9\nonly\n");
    assert_eq!(
        rows,
        vec![
            ("25".to_string(), "1.20".to_string()),
            ("50".to_string(), "1.1".to_string()),
            ("75".to_string(), "1.0".to_string()),
        ]
    );
}

#[test]
fn power_entries_match_keys_in_any_case() {
    let v = t3ster_power_entries("Name = x\n power = 1.5 \nPOWERSTEP=2\npowers=3\nPower\n");
    assert_eq!(v, vec!["1.5".to_string(), "2".to_string()]);
}

#[test]
fn numbered_rows_keep_line_indices() {
    let rows = numbered_data_rows_of("time,value\n\n1,2\n# c\n3 4\n");
    assert_eq!(
        rows,
        vec![
            (0, "time".to_string(), "value".to_string()),
            (2, "1".to_string(), "2".to_string()),
            (4, "3".to_string(), "4".to_string()),
        ]
    );
}
