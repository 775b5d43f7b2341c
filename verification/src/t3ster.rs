//! The layout of T3Ster measurement files.
//!
//! A raw file holds `#` header rows, the seventh of which is the ADC step
//! (LSB) and the ninth the reference voltage, followed by data rows of time
//! and ADC count. A calibration file holds rows of temperature and voltage;
//! a power file holds `key = value` entries. Fields are separated by commas,
//! semicolons or ASCII whitespace. These functions find the rows and fields;
//! the numbers in them are read by the caller. Two-column data files (time
//! and value, or temperature and voltage) share the row layout.
use vstd::prelude::*;

use crate::error::{is_invalid_parameter, PyrthError};
use crate::text::{
    chars_eq_ignore_ascii_case, chars_of, chars_views, decimal_text, eq_ignore_ascii_case_spec,
    fields, fields_spec, lines_spec, owned, split_once_at, split_once_spec, string_from_chars,
    string_views, sub_chars, text_lines, trim, trim_spec, usize_text,
};

verus! {

/// The header text of a line: a trimmed line that starts with `#`, without
/// the `#` and trimmed again.
pub open spec fn header_row(line: Seq<char>) -> Option<Seq<char>> {
    let t = trim_spec(line);
    if t.len() > 0 && t[0] == '#' {
        Some(trim_spec(t.drop_first()))
    } else {
        None
    }
}

/// The header texts of the lines, in order.
pub open spec fn header_rows(lines: Seq<Seq<char>>) -> Seq<Seq<char>>
    decreases lines.len(),
{
    if lines.len() == 0 {
        Seq::empty()
    } else {
        let prev = header_rows(lines.drop_last());
        match header_row(lines.last()) {
            Some(h) => prev.push(h),
            None => prev,
        }
    }
}

/// The first two fields of a data line: a line that is neither blank nor a
/// `#` comment and has at least two fields.
pub open spec fn data_row(line: Seq<char>) -> Option<(Seq<char>, Seq<char>)> {
    let t = trim_spec(line);
    if t.len() == 0 || t[0] == '#' {
        None
    } else if fields_spec(t).len() >= 2 {
        Some((fields_spec(t)[0], fields_spec(t)[1]))
    } else {
        None
    }
}

/// The first two fields of each data line, in order.
pub open spec fn data_rows(lines: Seq<Seq<char>>) -> Seq<(Seq<char>, Seq<char>)>
    decreases lines.len(),
{
    if lines.len() == 0 {
        Seq::empty()
    } else {
        let prev = data_rows(lines.drop_last());
        match data_row(lines.last()) {
            Some(r) => prev.push(r),
            None => prev,
        }
    }
}

/// The value of a `Power = ...` or `POWERSTEP = ...` entry (keys in any
/// case), trimmed.
pub open spec fn power_entry(line: Seq<char>) -> Option<Seq<char>> {
    match split_once_spec(trim_spec(line), '=') {
        Some((key, value)) => if eq_ignore_ascii_case_spec(trim_spec(key), "power"@)
            || eq_ignore_ascii_case_spec(trim_spec(key), "powerstep"@) {
            Some(trim_spec(value))
        } else {
            None
        },
        None => None,
    }
}

/// The values of the power entries, in order.
pub open spec fn power_entries(lines: Seq<Seq<char>>) -> Seq<Seq<char>>
    decreases lines.len(),
{
    if lines.len() == 0 {
        Seq::empty()
    } else {
        let prev = power_entries(lines.drop_last());
        match power_entry(lines.last()) {
            Some(v) => prev.push(v),
            None => prev,
        }
    }
}

/// The texts held by a list of string pairs.
pub open spec fn pair_views(v: Seq<(String, String)>) -> Seq<(Seq<char>, Seq<char>)> {
    v.map_values(|p: (String, String)| (p.0@, p.1@))
}

fn header_row_exec(line: &Vec<char>) -> (r: Option<Vec<char>>)
    ensures
        match header_row(line@) {
            Some(h) => r matches Some(x) && x@ == h,
            None => r is None,
        },
{
    let t = trim(line);
    if t.len() > 0 && t[0] == '#' {
        let rest = sub_chars(&t, 1, t.len());
        assert(rest@ =~= t@.drop_first());
        Some(trim(&rest))
    } else {
        None
    }
}

fn data_row_exec(line: &Vec<char>) -> (r: Option<(String, String)>)
    ensures
        match data_row(line@) {
            Some((a, b)) => r matches Some((x, y)) && x@ == a && y@ == b,
            None => r is None,
        },
{
    let t = trim(line);
    if t.len() == 0 || t[0] == '#' {
        None
    } else {
        let f = fields(&t);
        if f.len() >= 2 {
            assert(chars_views(f@)[0] == f@[0]@);
            assert(chars_views(f@)[1] == f@[1]@);
            Some((string_from_chars(f[0].as_slice()), string_from_chars(f[1].as_slice())))
        } else {
            None
        }
    }
}

fn power_entry_exec(line: &Vec<char>) -> (r: Option<String>)
    ensures
        match power_entry(line@) {
            Some(v) => r matches Some(x) && x@ == v,
            None => r is None,
        },
{
    let t = trim(line);
    match split_once_at(&t, '=') {
        Some((key, value)) => {
            let k = trim(&key);
            if chars_eq_ignore_ascii_case(&k, "power") || chars_eq_ignore_ascii_case(
                &k,
                "powerstep",
            ) {
                let v = trim(&value);
                Some(string_from_chars(v.as_slice()))
            } else {
                None
            }
        },
        None => None,
    }
}

/// The header rows of a text: each trimmed line that starts with `#`,
/// without the `#`, trimmed again.
pub fn t3ster_header_lines(text: &str) -> (r: Vec<String>)
    ensures
        string_views(r@) == header_rows(lines_spec(text@)),
{
    let lines = text_lines(&chars_of(text));
    let ghost ls = lines_spec(text@);
    let mut out: Vec<String> = Vec::new();
    let mut k: usize = 0;
    while k < lines.len()
        invariant
            k <= lines.len(),
            chars_views(lines@) == ls,
            string_views(out@) == header_rows(ls.take(k as int)),
        decreases lines.len() - k,
    {
        assert(ls.take(k + 1).drop_last() =~= ls.take(k as int));
        assert(ls[k as int] == lines@[k as int]@);
        let ghost before = string_views(out@);
        match header_row_exec(&lines[k]) {
            Some(h) => {
                let s = string_from_chars(h.as_slice());
                out.push(s);
                assert(string_views(out@) =~= before.push(s@));
            },
            None => {},
        }
        k = k + 1;
    }
    assert(ls.take(lines.len() as int) =~= ls);
    out
}

/// The first two fields of each data row of a text: each line that is
/// neither blank nor a `#` comment and has at least two fields.
pub fn t3ster_data_rows(text: &str) -> (r: Vec<(String, String)>)
    ensures
        pair_views(r@) == data_rows(lines_spec(text@)),
{
    let lines = text_lines(&chars_of(text));
    let ghost ls = lines_spec(text@);
    let mut out: Vec<(String, String)> = Vec::new();
    let mut k: usize = 0;
    while k < lines.len()
        invariant
            k <= lines.len(),
            chars_views(lines@) == ls,
            pair_views(out@) == data_rows(ls.take(k as int)),
        decreases lines.len() - k,
    {
        assert(ls.take(k + 1).drop_last() =~= ls.take(k as int));
        assert(ls[k as int] == lines@[k as int]@);
        let ghost before = pair_views(out@);
        match data_row_exec(&lines[k]) {
            Some(row) => {
                let ghost rv = (row.0@, row.1@);
                out.push(row);
                assert(pair_views(out@) =~= before.push(rv));
            },
            None => {},
        }
        k = k + 1;
    }
    assert(ls.take(lines.len() as int) =~= ls);
    out
}

/// The values of the `Power` and `POWERSTEP` entries of a power file, in
/// order, trimmed.
pub fn t3ster_power_entries(text: &str) -> (r: Vec<String>)
    ensures
        string_views(r@) == power_entries(lines_spec(text@)),
{
    let lines = text_lines(&chars_of(text));
    let ghost ls = lines_spec(text@);
    let mut out: Vec<String> = Vec::new();
    let mut k: usize = 0;
    while k < lines.len()
        invariant
            k <= lines.len(),
            chars_views(lines@) == ls,
            string_views(out@) == power_entries(ls.take(k as int)),
        decreases lines.len() - k,
    {
        assert(ls.take(k + 1).drop_last() =~= ls.take(k as int));
        assert(ls[k as int] == lines@[k as int]@);
        let ghost before = string_views(out@);
        match power_entry_exec(&lines[k]) {
            Some(v) => {
                let ghost vv = v@;
                out.push(v);
                assert(string_views(out@) =~= before.push(vv));
            },
            None => {},
        }
        k = k + 1;
    }
    assert(ls.take(lines.len() as int) =~= ls);
    out
}

/// The numeric texts of a raw T3Ster file: the ADC step, the reference
/// voltage, and the time/ADC-count rows.
#[derive(Clone, Debug)]
pub struct T3sterRawText {
    /// The seventh header row.
    pub lsb: String,
    /// The ninth header row.
    pub uref: String,
    /// The first two fields of each data row.
    pub rows: Vec<(String, String)>,
}

/// The message for a raw file with too few header rows.
pub open spec fn header_count_text(n: nat) -> Seq<char> {
    decimal_text(n) + " header rows"@
}

/// Finds the numeric texts of a raw T3Ster file. A file with at most eight
/// header rows lacks the LSB and reference voltage rows and is refused.
pub fn t3ster_raw_layout(text: &str) -> (r: Result<T3sterRawText, PyrthError>)
    ensures
        header_rows(lines_spec(text@)).len() <= 8 <==> r is Err,
        r matches Err(e) ==> is_invalid_parameter(
            e,
            "t3ster raw"@,
            "legacy T3Ster header with LSB and reference voltage rows"@,
            header_count_text(header_rows(lines_spec(text@)).len()),
        ),
        r matches Ok(raw) ==> {
            &&& raw.lsb@ == header_rows(lines_spec(text@))[6]
            &&& raw.uref@ == header_rows(lines_spec(text@))[8]
            &&& pair_views(raw.rows@) == data_rows(lines_spec(text@))
        },
{
    let headers = t3ster_header_lines(text);
    let ghost hv = header_rows(lines_spec(text@));
    assert(string_views(headers@).len() == headers@.len());
    if headers.len() <= 8 {
        let mut actual = usize_text(headers.len());
        let suffix = " header rows";
        actual.append(suffix);
        return Err(
            PyrthError::InvalidParameter {
                parameter: "t3ster raw",
                expected: "legacy T3Ster header with LSB and reference voltage rows",
                actual,
            },
        );
    }
    assert(hv[6] == headers@[6]@);
    assert(hv[8] == headers@[8]@);
    let lsb = headers[6].clone();
    let uref = headers[8].clone();
    Ok(T3sterRawText { lsb, uref, rows: t3ster_data_rows(text) })
}

/// The data rows of the lines, each with the index of its line.
pub open spec fn numbered_data_rows(lines: Seq<Seq<char>>) -> Seq<(int, Seq<char>, Seq<char>)>
    decreases lines.len(),
{
    if lines.len() == 0 {
        Seq::empty()
    } else {
        let prev = numbered_data_rows(lines.drop_last());
        match data_row(lines.last()) {
            Some((a, b)) => prev.push((lines.len() - 1, a, b)),
            None => prev,
        }
    }
}

/// The texts held by a list of numbered string pairs.
pub open spec fn numbered_views(v: Seq<(usize, String, String)>) -> Seq<(int, Seq<char>, Seq<char>)> {
    v.map_values(|p: (usize, String, String)| (p.0 as int, p.1@, p.2@))
}

/// The first two fields of each data row of a two-column text, with the
/// index (from zero) of the line that holds it.
pub fn numbered_data_rows_of(text: &str) -> (r: Vec<(usize, String, String)>)
    ensures
        numbered_views(r@) == numbered_data_rows(lines_spec(text@)),
{
    let lines = text_lines(&chars_of(text));
    let ghost ls = lines_spec(text@);
    let mut out: Vec<(usize, String, String)> = Vec::new();
    let mut k: usize = 0;
    while k < lines.len()
        invariant
            k <= lines.len(),
            chars_views(lines@) == ls,
            numbered_views(out@) == numbered_data_rows(ls.take(k as int)),
        decreases lines.len() - k,
    {
        assert(ls.take(k + 1).drop_last() =~= ls.take(k as int));
        assert(ls[k as int] == lines@[k as int]@);
        let ghost before = numbered_views(out@);
        match data_row_exec(&lines[k]) {
            Some((a, b)) => {
                let ghost rv = (k as int, a@, b@);
                out.push((k, a, b));
                assert(numbered_views(out@) =~= before.push(rv));
            },
            None => {},
        }
        k = k + 1;
    }
    assert(ls.take(lines.len() as int) =~= ls);
    out
}

} // verus!
