use pyrth::optimization::validate_same_len;
use pyrth::error::PyrthError;
use pyrth::text::{chars_of, normalize_label_chars, text_lines, trim};

fn s(v: &[char]) -> String {
    v.iter().collect()
}

#[test]
fn white_space_is_the_unicode_set() {
    for c in ['\t', '\n', '\u{b}', '\u{c}', '\r', ' ', '\u{85}', '\u{a0}', '\u{1680}', '\u{2000}', '\u{200a}', '\u{2028}', '\u{2029}', '\u{202f}', '\u{205f}', '\u{3000}'] {
        let text: String = [c, 'x', c].iter().collect();
        assert_eq!(s(&trim(&chars_of(&text))), "x", "{c:?}");
    }
    for c in ['a', '0', '_', '-', '\u{200b}', '\u{180e}', '\u{feff}'] {
        let text: String = [c, 'x', c].iter().collect();
        assert_eq!(s(&trim(&chars_of(&text))), text, "{c:?}");
    }
}

#[test]
fn trim_drops_leading_and_trailing_white_space() {
    assert_eq!(s(&trim(&chars_of("  a b \t"))), "a b");
    assert_eq!(s(&trim(&chars_of("\u{3000}x\u{a0}"))), "x");
    assert_eq!(s(&trim(&chars_of("   "))), "");
}

#[test]
fn normalizing_a_label_twice_changes_nothing() {
    for label in ["  Blackman-Harris ", "T3STER", "poly-long", "\u{2003}Temp"] {
        let once = normalize_label_chars(&chars_of(label));
        let twice = normalize_label_chars(&once);
        assert_eq!(once, twice);
    }
    assert_eq!(s(&normalize_label_chars(&chars_of(" Boor-Golub\n"))), "boor_golub");
}

#[test]
fn lines_follow_str_lines() {
    for text in ["", "\n", "a", "a\n", "a\r\nb", "a\r", "a\n\nb\n", "x\r\n\r\ny"] {
        let mine: Vec<String> = text_lines(&chars_of(text)).iter().map(|l| s(l)).collect();
        let std: Vec<String> = text.lines().map(String::from).collect();
        assert_eq!(mine, std, "{text:?}");
    }
}

#[test]
fn decimal_text_of_numbers() {
    match validate_same_len(0, 1045, "values") {
        Err(PyrthError::InvalidParameter { actual, .. }) => assert_eq!(actual, "0 != 1045"),
        other => panic!("{other:?}"),
    }
}
