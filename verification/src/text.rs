//! Character-level text handling shared by the label, command-line and
//! measurement-file readers.
//!
//! Text is handled as `Vec<char>`; its view is the `Seq<char>` of its
//! characters, which is also the view of a `String` or `&str` with the same
//! content.
use vstd::prelude::*;

verus! {

/// The Unicode `White_Space` property (PropList.txt): the characters that
/// `char::is_whitespace` and `str::trim` treat as whitespace.
pub open spec fn is_white_space_spec(c: char) -> bool {
    let n = c as u32;
    ||| 0x9 <= n <= 0xd
    ||| n == 0x20
    ||| n == 0x85
    ||| n == 0xa0
    ||| n == 0x1680
    ||| 0x2000 <= n <= 0x200a
    ||| n == 0x2028
    ||| n == 0x2029
    ||| n == 0x202f
    ||| n == 0x205f
    ||| n == 0x3000
}

/// `char::is_ascii_whitespace`: space, tab, line feed, form feed, carriage return.
pub open spec fn is_ascii_white_space_spec(c: char) -> bool {
    c == ' ' || c == '\t' || c == '\n' || c == '\u{c}' || c == '\r'
}

/// `char::to_ascii_lowercase`: `A`..=`Z` map to `a`..=`z`, all else is kept.
pub open spec fn ascii_lower_spec(c: char) -> char {
    if 'A' <= c && c <= 'Z' {
        ((c as u32) + 32) as char
    } else {
        c
    }
}

/// `str::trim_start`: drops the leading whitespace.
pub open spec fn trim_start_spec(s: Seq<char>) -> Seq<char>
    decreases s.len(),
{
    if s.len() > 0 && is_white_space_spec(s[0]) {
        trim_start_spec(s.drop_first())
    } else {
        s
    }
}

/// `str::trim_end`: drops the trailing whitespace.
pub open spec fn trim_end_spec(s: Seq<char>) -> Seq<char>
    decreases s.len(),
{
    if s.len() > 0 && is_white_space_spec(s.last()) {
        trim_end_spec(s.drop_last())
    } else {
        s
    }
}

/// `str::trim`: drops leading and trailing whitespace.
pub open spec fn trim_spec(s: Seq<char>) -> Seq<char> {
    trim_end_spec(trim_start_spec(s))
}

/// Lower-cases ASCII letters and turns `-` into `_`, character by character.
pub open spec fn fold_label_chars(s: Seq<char>) -> Seq<char> {
    Seq::new(
        s.len(),
        |i: int|
            if ascii_lower_spec(s[i]) == '-' {
                '_'
            } else {
                ascii_lower_spec(s[i])
            },
    )
}

/// The canonical form of a user-supplied label: trimmed, ASCII letters in
/// lower case, `-` written as `_`.
pub open spec fn normalize_label_spec(s: Seq<char>) -> Seq<char> {
    fold_label_chars(trim_spec(s))
}

/// `char::eq_ignore_ascii_case` on two characters.
pub open spec fn eq_ignore_ascii_case_char(a: char, b: char) -> bool {
    ascii_lower_spec(a) == ascii_lower_spec(b)
}

/// `str::eq_ignore_ascii_case`: same length, and equal up to ASCII case.
pub open spec fn eq_ignore_ascii_case_spec(a: Seq<char>, b: Seq<char>) -> bool {
    a.len() == b.len() && forall|i: int| 0 <= i < a.len() ==> eq_ignore_ascii_case_char(a[i], b[i])
}

/// Tells whether `c` has the Unicode `White_Space` property.
///
/// Calls `char::is_whitespace`; the contract states that it answers with
/// the `White_Space` character set of the Unicode character database.
#[verifier::external_body]
pub(crate) fn is_white_space(c: char) -> (r: bool)
    ensures
        r == is_white_space_spec(c),
{
    c.is_whitespace()
}

/// The texts held by a list of strings.
pub open spec fn string_views(v: Seq<String>) -> Seq<Seq<char>> {
    v.map_values(|s: String| s@)
}

/// Builds a `String` from its characters.
///
/// Calls `String::from_iter`; the contract states that the string holds
/// exactly the given characters, in order.
#[verifier::external_body]
pub(crate) fn string_from_chars(chars: &[char]) -> (r: String)
    ensures
        r@ == chars@,
{
    String::from_iter(chars.iter())
}

/// An owned copy of a string slice.
pub fn owned(s: &str) -> (r: String)
    ensures
        r@ == s@,
{
    broadcast use vstd::string::group_string_axioms;

    s.to_string()
}

/// The characters of a string slice, in order.
pub fn chars_of(s: &str) -> (r: Vec<char>)
    ensures
        r@ == s@,
{
    let mut out: Vec<char> = Vec::new();
    for c in it: s.chars()
        invariant
            out@ == it.seq().take(it.index() as int),
    {
        out.push(c);
    }
    out
}

/// `char::is_ascii_whitespace`.
pub fn is_ascii_white_space(c: char) -> (r: bool)
    ensures
        r == is_ascii_white_space_spec(c),
{
    c == ' ' || c == '\t' || c == '\n' || c == '\u{c}' || c == '\r'
}

/// `char::to_ascii_lowercase`.
pub fn ascii_lower(c: char) -> (r: char)
    ensures
        r == ascii_lower_spec(c),
{
    if 'A' <= c && c <= 'Z' {
        let n: u8 = ((c as u32) + 32) as u8;
        n as char
    } else {
        c
    }
}

/// A copy of `s[from..to]`.
pub fn sub_chars(s: &Vec<char>, from: usize, to: usize) -> (r: Vec<char>)
    requires
        from <= to <= s.len(),
    ensures
        r@ == s@.subrange(from as int, to as int),
{
    let mut out: Vec<char> = Vec::new();
    let mut i = from;
    while i < to
        invariant
            from <= i <= to <= s.len(),
            out@ == s@.subrange(from as int, i as int),
        decreases to - i,
    {
        out.push(s[i]);
        i = i + 1;
    }
    out
}

/// Whether two character sequences are equal.
pub fn chars_eq(a: &Vec<char>, b: &Vec<char>) -> (r: bool)
    ensures
        r == (a@ == b@),
{
    if a.len() != b.len() {
        return false;
    }
    let mut i: usize = 0;
    while i < a.len()
        invariant
            a.len() == b.len(),
            i <= a.len(),
            forall|k: int| 0 <= k < i ==> a@[k] == b@[k],
        decreases a.len() - i,
    {
        if a[i] != b[i] {
            return false;
        }
        i = i + 1;
    }
    assert(a@ =~= b@);
    true
}

/// Whether the characters `a` spell the string `lit`.
pub fn chars_are(a: &Vec<char>, lit: &str) -> (r: bool)
    ensures
        r == (a@ == lit@),
{
    let b = chars_of(lit);
    chars_eq(a, &b)
}

/// `str::eq_ignore_ascii_case`.
pub fn chars_eq_ignore_ascii_case(a: &Vec<char>, lit: &str) -> (r: bool)
    ensures
        r == eq_ignore_ascii_case_spec(a@, lit@),
{
    let b = chars_of(lit);
    if a.len() != b.len() {
        return false;
    }
    let mut i: usize = 0;
    while i < a.len()
        invariant
            a.len() == b.len(),
            b@ == lit@,
            i <= a.len(),
            forall|k: int| 0 <= k < i ==> eq_ignore_ascii_case_char(a@[k], b@[k]),
        decreases a.len() - i,
    {
        if ascii_lower(a[i]) != ascii_lower(b[i]) {
            return false;
        }
        i = i + 1;
    }
    true
}

proof fn lemma_trim_start_at(s: Seq<char>, i: int)
    requires
        0 <= i <= s.len(),
        forall|k: int| 0 <= k < i ==> is_white_space_spec(#[trigger] s[k]),
        i == s.len() || !is_white_space_spec(s[i]),
    ensures
        trim_start_spec(s) == s.subrange(i, s.len() as int),
    decreases i,
{
    if i == 0 {
        assert(s.subrange(0, s.len() as int) =~= s);
    } else {
        let t = s.drop_first();
        assert forall|k: int| 0 <= k < i - 1 implies is_white_space_spec(#[trigger] t[k]) by {
            assert(t[k] == s[k + 1]);
        }
        if i - 1 < t.len() {
            assert(t[i - 1] == s[i]);
        }
        assert(is_white_space_spec(s[0]));
        lemma_trim_start_at(t, i - 1);
        assert(t.subrange(i - 1, t.len() as int) =~= s.subrange(i, s.len() as int));
    }
}

proof fn lemma_trim_end_at(s: Seq<char>, j: int)
    requires
        0 <= j <= s.len(),
        forall|k: int| j <= k < s.len() ==> is_white_space_spec(#[trigger] s[k]),
        j == 0 || !is_white_space_spec(s[j - 1]),
    ensures
        trim_end_spec(s) == s.subrange(0, j),
    decreases s.len() - j,
{
    if j == s.len() {
        assert(s.subrange(0, j) =~= s);
    } else {
        let t = s.drop_last();
        assert forall|k: int| j <= k < t.len() implies is_white_space_spec(#[trigger] t[k]) by {
            assert(t[k] == s[k]);
        }
        if j > 0 {
            assert(t[j - 1] == s[j - 1]);
        }
        assert(is_white_space_spec(s[s.len() - 1]));
        lemma_trim_end_at(t, j);
        assert(t.subrange(0, j) =~= s.subrange(0, j));
    }
}

/// A character that normalization of labels leaves alone.
pub open spec fn is_plain_label_char(c: char) -> bool {
    !is_white_space_spec(c) && !('A' <= c && c <= 'Z') && c != '-'
}

/// A label made of plain characters is its own normal form.
pub proof fn lemma_normalize_plain(s: Seq<char>)
    requires
        forall|i: int| 0 <= i < s.len() ==> is_plain_label_char(#[trigger] s[i]),
    ensures
        normalize_label_spec(s) == s,
{
    if s.len() > 0 {
        assert(!is_white_space_spec(s[0]));
        assert(!is_white_space_spec(s.last()));
    }
    assert(trim_start_spec(s) == s);
    assert(trim_end_spec(s) == s);
    assert(fold_label_chars(s) =~= s);
}

proof fn lemma_fold_keeps_white_space(c: char)
    ensures
        is_white_space_spec(fold_label_chars(seq![c])[0]) == is_white_space_spec(c),
{
    assert(fold_label_chars(seq![c])[0] == (if ascii_lower_spec(c) == '-' {
        '_'
    } else {
        ascii_lower_spec(c)
    }));
}

/// Normalizing a label twice gives the same as normalizing it once, so a
/// canonical label reads as the mode it came from.
pub proof fn lemma_normalize_label_idempotent(s: Seq<char>)
    ensures
        normalize_label_spec(normalize_label_spec(s)) == normalize_label_spec(s),
{
    let t = trim_spec(s);
    let n = fold_label_chars(t);
    lemma_trim_is_trimmed(s);
    if n.len() > 0 {
        lemma_fold_keeps_white_space(t[0]);
        assert(fold_label_chars(seq![t[0]])[0] == n[0]);
        lemma_fold_keeps_white_space(t.last());
        assert(fold_label_chars(seq![t.last()])[0] == n.last());
    }
    assert(trim_start_spec(n) == n);
    assert(trim_end_spec(n) == n);
    assert(fold_label_chars(n) =~= n);
}

proof fn lemma_trim_start_first(s: Seq<char>)
    ensures
        trim_start_spec(s).len() > 0 ==> !is_white_space_spec(trim_start_spec(s)[0]),
        trim_start_spec(s).len() <= s.len(),
        trim_start_spec(s) == s.subrange(s.len() - trim_start_spec(s).len(), s.len() as int),
    decreases s.len(),
{
    if s.len() > 0 && is_white_space_spec(s[0]) {
        lemma_trim_start_first(s.drop_first());
        let t = trim_start_spec(s.drop_first());
        assert(s.drop_first().subrange(s.len() - 1 - t.len(), s.len() - 1) =~= s.subrange(
            s.len() - t.len(),
            s.len() as int,
        ));
    } else {
        assert(s.subrange(0, s.len() as int) =~= s);
    }
}

proof fn lemma_trim_end_last(s: Seq<char>)
    ensures
        trim_end_spec(s).len() > 0 ==> !is_white_space_spec(trim_end_spec(s).last()),
        trim_end_spec(s).len() <= s.len(),
        trim_end_spec(s) == s.subrange(0, trim_end_spec(s).len() as int),
        trim_end_spec(s).len() > 0 ==> trim_end_spec(s)[0] == s[0],
    decreases s.len(),
{
    if s.len() > 0 && is_white_space_spec(s.last()) {
        lemma_trim_end_last(s.drop_last());
        let t = trim_end_spec(s.drop_last());
        assert(s.drop_last().subrange(0, t.len() as int) =~= s.subrange(0, t.len() as int));
    } else {
        assert(s.subrange(0, s.len() as int) =~= s);
    }
}

/// A trimmed text neither starts nor ends with whitespace.
pub proof fn lemma_trim_is_trimmed(s: Seq<char>)
    ensures
        trim_spec(s).len() > 0 ==> !is_white_space_spec(trim_spec(s)[0]) && !is_white_space_spec(
            trim_spec(s).last(),
        ),
{
    lemma_trim_start_first(s);
    lemma_trim_end_last(trim_start_spec(s));
}

/// `str::trim` on characters.
pub fn trim(s: &Vec<char>) -> (r: Vec<char>)
    ensures
        r@ == trim_spec(s@),
{
    let mut i: usize = 0;
    while i < s.len() && is_white_space(s[i])
        invariant
            i <= s.len(),
            forall|k: int| 0 <= k < i ==> is_white_space_spec(#[trigger] s@[k]),
        decreases s.len() - i,
    {
        i = i + 1;
    }
    let mut j: usize = s.len();
    while j > i && is_white_space(s[j - 1])
        invariant
            i <= j <= s.len(),
            forall|k: int| j <= k < s.len() ==> is_white_space_spec(#[trigger] s@[k]),
        decreases j,
    {
        j = j - 1;
    }
    proof {
        lemma_trim_start_at(s@, i as int);
        let t = s@.subrange(i as int, s@.len() as int);
        assert forall|k: int| j - i <= k < t.len() implies is_white_space_spec(#[trigger] t[k]) by {
            assert(t[k] == s@[k + i]);
        }
        if j > i {
            assert(t[j - i - 1] == s@[j - 1]);
        }
        lemma_trim_end_at(t, j - i);
        assert(t.subrange(0, j - i) =~= s@.subrange(i as int, j as int));
    }
    sub_chars(s, i, j)
}

/// The canonical form of a label: see [`normalize_label_spec`].
pub fn normalize_label_chars(s: &Vec<char>) -> (r: Vec<char>)
    ensures
        r@ == normalize_label_spec(s@),
{
    let t = trim(s);
    let mut out: Vec<char> = Vec::new();
    let mut i: usize = 0;
    while i < t.len()
        invariant
            i <= t.len(),
            t@ == trim_spec(s@),
            out@ == fold_label_chars(t@).take(i as int),
        decreases t.len() - i,
    {
        let l = ascii_lower(t[i]);
        let c = if l == '-' { '_' } else { l };
        out.push(c);
        i = i + 1;
        assert(out@ =~= fold_label_chars(t@).take(i as int));
    }
    assert(out@ =~= fold_label_chars(t@));
    out
}

/// Splitting at every `sep`: the pieces before the last `sep`, and the
/// piece after it.
pub open spec fn split_acc(s: Seq<char>, sep: char) -> (Seq<Seq<char>>, Seq<char>)
    decreases s.len(),
{
    if s.len() == 0 {
        (Seq::empty(), Seq::empty())
    } else {
        let (done, cur) = split_acc(s.drop_last(), sep);
        if s.last() == sep {
            (done.push(cur), Seq::empty())
        } else {
            (done, cur.push(s.last()))
        }
    }
}

/// `str::split` at a character: the pieces between the separators, empty
/// pieces included; at least one piece.
pub open spec fn split_on_spec(s: Seq<char>, sep: char) -> Seq<Seq<char>> {
    split_acc(s, sep).0.push(split_acc(s, sep).1)
}

/// The character sequences held by a vector of character vectors.
pub open spec fn chars_views(v: Seq<Vec<char>>) -> Seq<Seq<char>> {
    v.map_values(|c: Vec<char>| c@)
}

/// `str::split` at a character.
pub fn split_on(s: &Vec<char>, sep: char) -> (r: Vec<Vec<char>>)
    ensures
        chars_views(r@) == split_on_spec(s@, sep),
{
    let mut done: Vec<Vec<char>> = Vec::new();
    let mut cur: Vec<char> = Vec::new();
    let mut i: usize = 0;
    while i < s.len()
        invariant
            i <= s.len(),
            (chars_views(done@), cur@) == split_acc(s@.take(i as int), sep),
        decreases s.len() - i,
    {
        let ghost prev = s@.take(i as int);
        assert(s@.take(i as int + 1).drop_last() =~= prev);
        let c = s[i];
        if c == sep {
            let piece = cur;
            done.push(piece);
            cur = Vec::new();
            assert(chars_views(done@) =~= split_acc(prev, sep).0.push(split_acc(prev, sep).1));
        } else {
            cur.push(c);
        }
        i = i + 1;
    }
    assert(s@.take(s.len() as int) =~= s@);
    let ghost before = chars_views(done@);
    let last = cur;
    done.push(last);
    assert(chars_views(done@) =~= before.push(last@));
    done
}

/// `i` is the first place where `c` occurs in `s`.
pub open spec fn is_first_index(s: Seq<char>, c: char, i: int) -> bool {
    0 <= i < s.len() && s[i] == c && forall|j: int| 0 <= j < i ==> s[j] != c
}

/// `str::split_once` at a character: the text before the first `c` and the
/// text after it, if `c` occurs.
pub open spec fn split_once_spec(s: Seq<char>, c: char) -> Option<(Seq<char>, Seq<char>)> {
    if exists|i: int| is_first_index(s, c, i) {
        let i = choose|i: int| is_first_index(s, c, i);
        Some((s.take(i), s.skip(i + 1)))
    } else {
        None
    }
}

/// `str::split_once` at a character.
pub fn split_once_at(s: &Vec<char>, c: char) -> (r: Option<(Vec<char>, Vec<char>)>)
    ensures
        match split_once_spec(s@, c) {
            Some((a, b)) => r matches Some((x, y)) && x@ == a && y@ == b,
            None => r is None,
        },
{
    let mut i: usize = 0;
    while i < s.len() && s[i] != c
        invariant
            i <= s.len(),
            forall|j: int| 0 <= j < i ==> s@[j] != c,
        decreases s.len() - i,
    {
        i = i + 1;
    }
    if i == s.len() {
        assert(!exists|k: int| is_first_index(s@, c, k));
        None
    } else {
        assert(is_first_index(s@, c, i as int));
        let ghost k = choose|k: int| is_first_index(s@, c, k);
        assert(k == i) by {
            if k < i {
                assert(s@[k] != c);
            } else if k > i {
                assert(s@[i as int] != c);
            }
        }
        let a = sub_chars(s, 0, i);
        let b = sub_chars(s, i + 1, s.len());
        assert(a@ =~= s@.take(i as int));
        assert(b@ =~= s@.skip(i + 1));
        Some((a, b))
    }
}

/// A line without the `\r` of a `\r\n` ending.
pub open spec fn strip_cr_spec(l: Seq<char>) -> Seq<char> {
    if l.len() > 0 && l.last() == '\r' {
        l.drop_last()
    } else {
        l
    }
}

/// `str::lines`: the text split at `\n` or `\r\n`; a final line ending is
/// optional, so a text that ends with one has no empty last line.
pub open spec fn lines_spec(s: Seq<char>) -> Seq<Seq<char>> {
    let pieces = split_on_spec(s, '\n');
    let ended = pieces.drop_last().map_values(|p: Seq<char>| strip_cr_spec(p));
    if pieces.last().len() == 0 {
        ended
    } else {
        ended.push(pieces.last())
    }
}

/// `str::lines` on characters.
pub fn text_lines(s: &Vec<char>) -> (r: Vec<Vec<char>>)
    ensures
        chars_views(r@) == lines_spec(s@),
{
    let pieces = split_on(s, '\n');
    let ghost p = split_on_spec(s@, '\n');
    let n = pieces.len();
    assert(p.len() == split_acc(s@, '\n').0.len() + 1);
    assert(chars_views(pieces@).len() == pieces@.len());
    assert(n >= 1);
    let mut out: Vec<Vec<char>> = Vec::new();
    let mut k: usize = 0;
    while k + 1 < n
        invariant
            n == pieces.len(),
            n >= 1,
            k + 1 <= n,
            chars_views(pieces@) == p,
            chars_views(out@) == p.drop_last().map_values(|q: Seq<char>| strip_cr_spec(q)).take(
                k as int,
            ),
        decreases n - k,
    {
        let ghost before = chars_views(out@);
        let piece = &pieces[k];
        assert(p[k as int] == piece@);
        let len = piece.len();
        let line = if len > 0 && piece[len - 1] == '\r' {
            sub_chars(piece, 0, len - 1)
        } else {
            sub_chars(piece, 0, len)
        };
        assert(line@ =~= strip_cr_spec(p[k as int]));
        out.push(line);
        assert(chars_views(out@) =~= before.push(line@));
        k = k + 1;
        assert(chars_views(out@) =~= p.drop_last().map_values(
            |q: Seq<char>| strip_cr_spec(q),
        ).take(k as int));
    }
    let ghost ended = p.drop_last().map_values(|q: Seq<char>| strip_cr_spec(q));
    assert(ended.take(k as int) =~= ended);
    let last = &pieces[n - 1];
    assert(p.last() == last@);
    if last.len() > 0 {
        let copy = sub_chars(last, 0, last.len());
        assert(copy@ =~= last@);
        out.push(copy);
        assert(chars_views(out@) =~= ended.push(p.last()));
    }
    out
}

/// A field separator of a data line: comma, semicolon or ASCII whitespace.
pub open spec fn is_field_separator(c: char) -> bool {
    c == ',' || c == ';' || is_ascii_white_space_spec(c)
}

/// Splitting into fields: the fields completed so far, and the one being read.
pub open spec fn fields_acc(s: Seq<char>) -> (Seq<Seq<char>>, Seq<char>)
    decreases s.len(),
{
    if s.len() == 0 {
        (Seq::empty(), Seq::empty())
    } else {
        let (done, cur) = fields_acc(s.drop_last());
        if is_field_separator(s.last()) {
            if cur.len() > 0 {
                (done.push(cur), Seq::empty())
            } else {
                (done, Seq::empty())
            }
        } else {
            (done, cur.push(s.last()))
        }
    }
}

/// The non-empty pieces of a line between field separators.
pub open spec fn fields_spec(s: Seq<char>) -> Seq<Seq<char>> {
    if fields_acc(s).1.len() > 0 {
        fields_acc(s).0.push(fields_acc(s).1)
    } else {
        fields_acc(s).0
    }
}

/// The non-empty pieces of a line between field separators.
pub fn fields(s: &Vec<char>) -> (r: Vec<Vec<char>>)
    ensures
        chars_views(r@) == fields_spec(s@),
{
    let mut done: Vec<Vec<char>> = Vec::new();
    let mut cur: Vec<char> = Vec::new();
    let mut i: usize = 0;
    while i < s.len()
        invariant
            i <= s.len(),
            (chars_views(done@), cur@) == fields_acc(s@.take(i as int)),
        decreases s.len() - i,
    {
        let ghost prev = s@.take(i as int);
        assert(s@.take(i as int + 1).drop_last() =~= prev);
        let c = s[i];
        if c == ',' || c == ';' || is_ascii_white_space(c) {
            if cur.len() > 0 {
                let piece = cur;
                done.push(piece);
                assert(chars_views(done@) =~= fields_acc(prev).0.push(fields_acc(prev).1));
            }
            cur = Vec::new();
        } else {
            cur.push(c);
        }
        i = i + 1;
    }
    assert(s@.take(s.len() as int) =~= s@);
    if cur.len() > 0 {
        let ghost before = chars_views(done@);
        let last = cur;
        done.push(last);
        assert(chars_views(done@) =~= before.push(last@));
    }
    done
}

/// The decimal digit for `d`, for `d` below ten.
pub open spec fn digit_char(d: nat) -> char {
    ((d + 48) as u32) as char
}

/// The decimal numeral of `n`, without leading zeros.
pub open spec fn decimal_text(n: nat) -> Seq<char>
    decreases n,
{
    if n < 10 {
        seq![digit_char(n)]
    } else {
        decimal_text(n / 10).push(digit_char(n % 10))
    }
}

/// Writes an unsigned integer in decimal.
///
/// Calls `usize::to_string` (its `Display`); the contract states that the
/// text is the decimal numeral of `n`, without sign or leading zeros.
#[verifier::external_body]
pub(crate) fn usize_text(n: usize) -> (r: String)
    ensures
        r@ == decimal_text(n as nat),
{
    n.to_string()
}

/// Lexicographic order of texts by code point (the order of `str`, whose
/// UTF-8 bytes compare as their code points do).
pub open spec fn text_lt(a: Seq<char>, b: Seq<char>) -> bool
    decreases a.len(),
{
    if a.len() == 0 {
        b.len() > 0
    } else if b.len() == 0 {
        false
    } else if a[0] < b[0] {
        true
    } else if a[0] > b[0] {
        false
    } else {
        text_lt(a.drop_first(), b.drop_first())
    }
}

/// No text comes before itself.
pub proof fn lemma_text_lt_irreflexive(a: Seq<char>)
    ensures
        !text_lt(a, a),
    decreases a.len(),
{
    if a.len() > 0 {
        lemma_text_lt_irreflexive(a.drop_first());
    }
}

/// The order of texts is transitive.
pub proof fn lemma_text_lt_transitive(a: Seq<char>, b: Seq<char>, c: Seq<char>)
    requires
        text_lt(a, b),
        text_lt(b, c),
    ensures
        text_lt(a, c),
    decreases a.len(),
{
    if a.len() > 0 && b.len() > 0 && c.len() > 0 {
        if a[0] == b[0] && b[0] == c[0] {
            lemma_text_lt_transitive(a.drop_first(), b.drop_first(), c.drop_first());
        }
    }
}

/// Of two different texts, one comes before the other.
pub proof fn lemma_text_lt_total(a: Seq<char>, b: Seq<char>)
    ensures
        a == b || text_lt(a, b) || text_lt(b, a),
    decreases a.len(),
{
    if a.len() > 0 && b.len() > 0 {
        if a[0] == b[0] {
            lemma_text_lt_total(a.drop_first(), b.drop_first());
            if a.drop_first() == b.drop_first() {
                assert(a[0] == b[0]);
                assert(a =~= seq![a[0]] + a.drop_first());
                assert(b =~= seq![b[0]] + b.drop_first());
            }
        }
    } else if a.len() == 0 && b.len() == 0 {
        assert(a =~= b);
    }
}

/// Whether `a` comes before `b` in the order of texts.
pub fn chars_lt(a: &Vec<char>, b: &Vec<char>) -> (r: bool)
    ensures
        r == text_lt(a@, b@),
{
    let mut i: usize = 0;
    assert(a@.skip(0) =~= a@);
    assert(b@.skip(0) =~= b@);
    while i < a.len() && i < b.len() && a[i] == b[i]
        invariant
            i <= a.len(),
            i <= b.len(),
            text_lt(a@, b@) == text_lt(a@.skip(i as int), b@.skip(i as int)),
        decreases a.len() - i,
    {
        assert(a@.skip(i as int).drop_first() =~= a@.skip(i + 1));
        assert(b@.skip(i as int).drop_first() =~= b@.skip(i + 1));
        i = i + 1;
    }
    let ghost x = a@.skip(i as int);
    let ghost y = b@.skip(i as int);
    assert(x.len() == a.len() - i);
    assert(y.len() == b.len() - i);
    if i == a.len() {
        i < b.len()
    } else if i == b.len() {
        false
    } else {
        assert(x[0] == a@[i as int]);
        assert(y[0] == b@[i as int]);
        a[i] < b[i]
    }
}

/// A decimal numeral has at least one digit.
pub proof fn lemma_decimal_text_nonempty(n: nat)
    ensures
        decimal_text(n).len() >= 1,
    decreases n,
{
    if n >= 10 {
        lemma_decimal_text_nonempty(n / 10);
    }
}

/// Different numbers have different decimal numerals.
pub proof fn lemma_decimal_text_injective(a: nat, b: nat)
    requires
        decimal_text(a) == decimal_text(b),
    ensures
        a == b,
    decreases a,
{
    if a < 10 && b < 10 {
        assert(decimal_text(a)[0] == digit_char(a));
        assert(decimal_text(b)[0] == digit_char(b));
        assert((digit_char(a) as u32) == a + 48);
        assert((digit_char(b) as u32) == b + 48);
    } else if a < 10 {
        lemma_decimal_text_nonempty(b / 10);
        assert(decimal_text(b).len() >= 2);
    } else if b < 10 {
        lemma_decimal_text_nonempty(a / 10);
        assert(decimal_text(a).len() >= 2);
    } else {
        let da = decimal_text(a);
        let db = decimal_text(b);
        assert(da.last() == digit_char(a % 10));
        assert(db.last() == digit_char(b % 10));
        assert((digit_char(a % 10) as u32) == a % 10 + 48);
        assert((digit_char(b % 10) as u32) == b % 10 + 48);
        assert(da.drop_last() =~= decimal_text(a / 10));
        assert(db.drop_last() =~= decimal_text(b / 10));
        lemma_decimal_text_injective(a / 10, b / 10);
    }
}

} // verus!
