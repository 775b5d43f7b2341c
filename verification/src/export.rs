//! What an evaluation result is exported as: which series are written, under
//! which file names, headers, titles and axis scales, and how text is
//! escaped for SVG.
use vstd::prelude::*;

use std::path::PathBuf;

use crate::text::{chars_of, owned, string_from_chars};
use crate::registry::distinct_texts;
use crate::result_keys::lemma_texts_distinct;

verus! {

/// `std::path::PathBuf`, declared so that the records of written files can
/// hold paths. Nothing inside a path is visible to the proofs.
#[verifier::external_type_specification]
#[verifier::external_body]
pub struct ExPathBuf(PathBuf);

/// How an axis of a figure is scaled.
#[derive(Clone, Copy, Debug, PartialEq, Eq, Structural)]
pub enum AxisScale {
    Linear,
    Log10,
}

/// The name of an axis scale, as written in a figure.
pub open spec fn axis_scale_label(s: AxisScale) -> Seq<char> {
    match s {
        AxisScale::Linear => "linear"@,
        AxisScale::Log10 => "log10"@,
    }
}

impl AxisScale {
    /// The name of the scale, as written in a figure.
    pub fn label(self) -> (r: &'static str)
        ensures
            r@ == axis_scale_label(self),
    {
        match self {
            AxisScale::Linear => "linear",
            AxisScale::Log10 => "log10",
        }
    }
}

/// The text that stands for a character in XML.
pub open spec fn xml_escape_char(c: char) -> Seq<char> {
    if c == '&' {
        "&amp;"@
    } else if c == '<' {
        "&lt;"@
    } else if c == '>' {
        "&gt;"@
    } else if c == '"' {
        "&quot;"@
    } else {
        seq![c]
    }
}

/// A text with `&`, `<`, `>` and `"` written as XML entities.
pub open spec fn escape_xml_spec(s: Seq<char>) -> Seq<char>
    decreases s.len(),
{
    if s.len() == 0 {
        Seq::empty()
    } else {
        escape_xml_spec(s.drop_last()) + xml_escape_char(s.last())
    }
}

fn push_all(out: &mut Vec<char>, lit: &str)
    ensures
        final(out)@ == old(out)@ + lit@,
{
    let chars = chars_of(lit);
    let mut i: usize = 0;
    while i < chars.len()
        invariant
            i <= chars.len(),
            chars@ == lit@,
            out@ == old(out)@ + chars@.take(i as int),
        decreases chars.len() - i,
    {
        out.push(chars[i]);
        i = i + 1;
        assert(out@ =~= old(out)@ + chars@.take(i as int));
    }
    assert(chars@.take(chars.len() as int) =~= chars@);
}

/// Writes `&`, `<`, `>` and `"` as XML entities.
pub fn escape_xml(value: &str) -> (r: String)
    ensures
        r@ == escape_xml_spec(value@),
{
    let chars = chars_of(value);
    let mut out: Vec<char> = Vec::new();
    let mut i: usize = 0;
    while i < chars.len()
        invariant
            i <= chars.len(),
            chars@ == value@,
            out@ == escape_xml_spec(chars@.take(i as int)),
        decreases chars.len() - i,
    {
        let c = chars[i];
        assert(chars@.take(i + 1).drop_last() =~= chars@.take(i as int));
        if c == '&' {
            push_all(&mut out, "&amp;");
        } else if c == '<' {
            push_all(&mut out, "&lt;");
        } else if c == '>' {
            push_all(&mut out, "&gt;");
        } else if c == '"' {
            push_all(&mut out, "&quot;");
        } else {
            let ghost before = out@;
            out.push(c);
            assert(out@ =~= before + seq![c]);
        }
        i = i + 1;
    }
    assert(chars@.take(chars.len() as int) =~= chars@);
    string_from_chars(out.as_slice())
}

/// An escaped text holds no `<`, `>` or `"`: it cannot close or open markup
/// nor end an attribute value.
pub proof fn lemma_escape_xml_has_no_markup(s: Seq<char>)
    ensures
        forall|i: int|
            0 <= i < escape_xml_spec(s).len() ==> {
                let c = #[trigger] escape_xml_spec(s)[i];
                c != '<' && c != '>' && c != '"'
            },
    decreases s.len(),
{
    reveal_strlit("&amp;");
    reveal_strlit("&lt;");
    reveal_strlit("&gt;");
    reveal_strlit("&quot;");
    if s.len() > 0 {
        lemma_escape_xml_has_no_markup(s.drop_last());
        let prev = escape_xml_spec(s.drop_last());
        let tail = xml_escape_char(s.last());
        assert forall|i: int| 0 <= i < escape_xml_spec(s).len() implies {
            let c = #[trigger] escape_xml_spec(s)[i];
            c != '<' && c != '>' && c != '"'
        } by {
            if i >= prev.len() {
                assert(escape_xml_spec(s)[i] == tail[i - prev.len()]);
            } else {
                assert(escape_xml_spec(s)[i] == prev[i]);
            }
        }
    }
}

/// A text without `&`, `<`, `>` and `"` is its own escape.
pub proof fn lemma_escape_xml_plain(s: Seq<char>)
    requires
        forall|i: int|
            0 <= i < s.len() ==> {
                let c = #[trigger] s[i];
                c != '&' && c != '<' && c != '>' && c != '"'
            },
    ensures
        escape_xml_spec(s) == s,
    decreases s.len(),
{
    if s.len() > 0 {
        let t = s.drop_last();
        assert forall|i: int| 0 <= i < t.len() implies {
            let c = #[trigger] t[i];
            c != '&' && c != '<' && c != '>' && c != '"'
        } by {
            assert(t[i] == s[i]);
        }
        lemma_escape_xml_plain(t);
        assert(s.last() == s[s.len() - 1]);
        assert(t + seq![s.last()] =~= s);
    }
}

/// The parts that an evaluation result holds besides the impedance curve.
#[derive(Clone, Copy, Debug, PartialEq, Eq, Structural)]
pub struct ResultParts {
    pub has_derivative: bool,
    pub has_time_spectrum: bool,
    pub has_foster: bool,
    pub has_cauer: bool,
}

/// A series of an evaluation result that is written out.
#[derive(Clone, Copy, Debug, PartialEq, Eq, Structural)]
pub enum ExportSeries {
    /// Thermal impedance over time.
    Impedance,
    /// Impedance derivative over (padded) time.
    ImpDeriv,
    /// Time constant spectrum over (padded) time.
    TimeSpec,
    /// Foster resistances and capacitances.
    Foster,
    /// Cumulative Cauer capacitance over cumulative resistance.
    Cauer,
    /// Differential structure over cumulative resistance.
    DiffStruc,
}

/// The series written for a result, in order: the impedance always; the
/// derivative when present, and then the spectrum when present too; the
/// Foster network when present; the Cauer ladder and its differential
/// structure when present.
pub open spec fn export_series_spec(parts: ResultParts) -> Seq<ExportSeries> {
    seq![ExportSeries::Impedance] + (if parts.has_derivative {
        seq![ExportSeries::ImpDeriv] + (if parts.has_time_spectrum {
            seq![ExportSeries::TimeSpec]
        } else {
            Seq::empty()
        })
    } else {
        Seq::empty()
    }) + (if parts.has_foster {
        seq![ExportSeries::Foster]
    } else {
        Seq::empty()
    }) + (if parts.has_cauer {
        seq![ExportSeries::Cauer, ExportSeries::DiffStruc]
    } else {
        Seq::empty()
    })
}

/// The series written for a result; see [`export_series_spec`].
pub fn export_series(parts: ResultParts) -> (r: Vec<ExportSeries>)
    ensures
        r@ == export_series_spec(parts),
{
    let mut out: Vec<ExportSeries> = Vec::new();
    out.push(ExportSeries::Impedance);
    if parts.has_derivative {
        out.push(ExportSeries::ImpDeriv);
        if parts.has_time_spectrum {
            out.push(ExportSeries::TimeSpec);
        }
    }
    if parts.has_foster {
        out.push(ExportSeries::Foster);
    }
    if parts.has_cauer {
        out.push(ExportSeries::Cauer);
        out.push(ExportSeries::DiffStruc);
    }
    assert(out@ =~= export_series_spec(parts));
    out
}

/// The file name of a series, without extension.
pub open spec fn series_stem_spec(s: ExportSeries) -> Seq<char> {
    match s {
        ExportSeries::Impedance => "impedance"@,
        ExportSeries::ImpDeriv => "imp_deriv"@,
        ExportSeries::TimeSpec => "time_spec"@,
        ExportSeries::Foster => "foster"@,
        ExportSeries::Cauer => "cauer"@,
        ExportSeries::DiffStruc => "diff_struc"@,
    }
}

/// The column names of a series: the first column, then the second.
pub open spec fn series_columns_spec(s: ExportSeries) -> (Seq<char>, Seq<char>) {
    match s {
        ExportSeries::Impedance => ("time"@, "impedance"@),
        ExportSeries::ImpDeriv => ("time"@, "imp_deriv"@),
        ExportSeries::TimeSpec => ("time"@, "time_spec"@),
        ExportSeries::Foster => ("resistance"@, "capacitance"@),
        ExportSeries::Cauer => ("cumulative_resistance"@, "cumulative_capacitance"@),
        ExportSeries::DiffStruc => ("cumulative_resistance"@, "differential_structure"@),
    }
}

/// The title of the figure of a series.
pub open spec fn series_title_spec(s: ExportSeries) -> Seq<char> {
    match s {
        ExportSeries::Impedance => "Thermal impedance"@,
        ExportSeries::ImpDeriv => "Impedance derivative"@,
        ExportSeries::TimeSpec => "Time constant spectrum"@,
        ExportSeries::Foster => "Foster network"@,
        ExportSeries::Cauer => "Cauer structure"@,
        ExportSeries::DiffStruc => "Differential structure"@,
    }
}

/// The axis scales of the figure of a series: horizontal, then vertical.
pub open spec fn series_scales_spec(s: ExportSeries) -> (AxisScale, AxisScale) {
    match s {
        ExportSeries::Impedance | ExportSeries::ImpDeriv | ExportSeries::TimeSpec => (
            AxisScale::Log10,
            AxisScale::Linear,
        ),
        ExportSeries::Foster => (AxisScale::Linear, AxisScale::Linear),
        ExportSeries::Cauer | ExportSeries::DiffStruc => (AxisScale::Linear, AxisScale::Log10),
    }
}

/// Every exported series gets a file of its own: the file names of the
/// series exported for a result are distinct.
pub proof fn lemma_export_stems_distinct(parts: ResultParts)
    ensures
        distinct_texts(export_series_spec(parts).map_values(|s: ExportSeries| series_stem_spec(s))),
{
    reveal_strlit("impedance");
    reveal_strlit("imp_deriv");
    reveal_strlit("time_spec");
    reveal_strlit("foster");
    reveal_strlit("cauer");
    reveal_strlit("diff_struc");
    let series = export_series_spec(parts);
    let stems = series.map_values(|s: ExportSeries| series_stem_spec(s));
    assert forall|i: int, j: int| 0 <= i < j < stems.len() implies ({
        let a = #[trigger] stems[i];
        let b = #[trigger] stems[j];
        a.len() != b.len() || a[0] != b[0] || a[4] != b[4] || a[8] != b[8]
    }) by {
        assert(stems[i] == series_stem_spec(series[i]));
        assert(stems[j] == series_stem_spec(series[j]));
    }
    lemma_texts_distinct(stems);
}

/// Whether a column name is that of an abscissa: a time, or a resistance
/// along the heat-flow path (the Foster or the cumulative Cauer one).
pub open spec fn is_abscissa_name(name: Seq<char>) -> bool {
    name == "time"@ || name == "resistance"@ || name == "cumulative_resistance"@
}

/// Every series is written against its abscissa: the first column names a
/// time or a resistance, the second names the quantity plotted over it and is
/// neither. The horizontal axis is logarithmic exactly when it is time.
pub proof fn lemma_series_written_against_abscissa(s: ExportSeries)
    ensures
        is_abscissa_name(series_columns_spec(s).0),
        !is_abscissa_name(series_columns_spec(s).1),
        (series_scales_spec(s).0 == AxisScale::Log10) <==> (series_columns_spec(s).0 == "time"@),
{
    reveal_strlit("time");
    reveal_strlit("resistance");
    reveal_strlit("cumulative_resistance");
    reveal_strlit("impedance");
    reveal_strlit("imp_deriv");
    reveal_strlit("time_spec");
    reveal_strlit("capacitance");
    reveal_strlit("cumulative_capacitance");
    reveal_strlit("differential_structure");
    assert("time"@.len() == 4 && "resistance"@.len() == 10 && "cumulative_resistance"@.len()
        == 21);
    assert("impedance"@.len() == 9 && "imp_deriv"@.len() == 9 && "time_spec"@.len() == 9);
    assert("capacitance"@.len() == 11 && "cumulative_capacitance"@.len() == 22
        && "differential_structure"@.len() == 22);
}

impl ExportSeries {
    /// The file name of the series, without extension.
    pub fn stem(self) -> (r: String)
        ensures
            r@ == series_stem_spec(self),
    {
        match self {
            ExportSeries::Impedance => owned("impedance"),
            ExportSeries::ImpDeriv => owned("imp_deriv"),
            ExportSeries::TimeSpec => owned("time_spec"),
            ExportSeries::Foster => owned("foster"),
            ExportSeries::Cauer => owned("cauer"),
            ExportSeries::DiffStruc => owned("diff_struc"),
        }
    }

    /// The column names of the series; they also label the figure's axes.
    pub fn columns(self) -> (r: (&'static str, &'static str))
        ensures
            (r.0@, r.1@) == series_columns_spec(self),
    {
        match self {
            ExportSeries::Impedance => ("time", "impedance"),
            ExportSeries::ImpDeriv => ("time", "imp_deriv"),
            ExportSeries::TimeSpec => ("time", "time_spec"),
            ExportSeries::Foster => ("resistance", "capacitance"),
            ExportSeries::Cauer => ("cumulative_resistance", "cumulative_capacitance"),
            ExportSeries::DiffStruc => ("cumulative_resistance", "differential_structure"),
        }
    }

    /// The title of the series' figure.
    pub fn title(self) -> (r: &'static str)
        ensures
            r@ == series_title_spec(self),
    {
        match self {
            ExportSeries::Impedance => "Thermal impedance",
            ExportSeries::ImpDeriv => "Impedance derivative",
            ExportSeries::TimeSpec => "Time constant spectrum",
            ExportSeries::Foster => "Foster network",
            ExportSeries::Cauer => "Cauer structure",
            ExportSeries::DiffStruc => "Differential structure",
        }
    }

    /// The axis scales of the series' figure: horizontal, then vertical.
    pub fn scales(self) -> (r: (AxisScale, AxisScale))
        ensures
            r == series_scales_spec(self),
    {
        match self {
            ExportSeries::Impedance | ExportSeries::ImpDeriv | ExportSeries::TimeSpec => (
                AxisScale::Log10,
                AxisScale::Linear,
            ),
            ExportSeries::Foster => (AxisScale::Linear, AxisScale::Linear),
            ExportSeries::Cauer | ExportSeries::DiffStruc => (AxisScale::Linear, AxisScale::Log10),
        }
    }
}

/// The paths of the CSV files written for a result; a series that the
/// result lacks has no file.
#[derive(Debug, PartialEq, Eq)]
pub struct ExportedCsvFiles {
    pub impedance: PathBuf,
    pub imp_deriv: Option<PathBuf>,
    pub time_spec: Option<PathBuf>,
    pub foster: Option<PathBuf>,
    pub cauer: Option<PathBuf>,
    pub diff_struc: Option<PathBuf>,
}

impl ExportedCsvFiles {
    /// The path recorded for a series, if any.
    pub open spec fn path_of(self, series: ExportSeries) -> Option<PathBuf> {
        match series {
            ExportSeries::Impedance => Some(self.impedance),
            ExportSeries::ImpDeriv => self.imp_deriv,
            ExportSeries::TimeSpec => self.time_spec,
            ExportSeries::Foster => self.foster,
            ExportSeries::Cauer => self.cauer,
            ExportSeries::DiffStruc => self.diff_struc,
        }
    }

    /// The record after the impedance file alone is written.
    pub fn new(impedance: PathBuf) -> (r: Self)
        ensures
            forall|s: ExportSeries|
                #[trigger] r.path_of(s) == if s == ExportSeries::Impedance {
                    Some(impedance)
                } else {
                    None
                },
    {
        ExportedCsvFiles {
            impedance,
            imp_deriv: None,
            time_spec: None,
            foster: None,
            cauer: None,
            diff_struc: None,
        }
    }

    /// Records the file written for a series.
    pub fn record(&mut self, series: ExportSeries, path: PathBuf)
        ensures
            final(self).path_of(series) == Some(path),
            forall|s: ExportSeries|
                s != series ==> #[trigger] final(self).path_of(s) == old(self).path_of(s),
    {
        match series {
            ExportSeries::Impedance => self.impedance = path,
            ExportSeries::ImpDeriv => self.imp_deriv = Some(path),
            ExportSeries::TimeSpec => self.time_spec = Some(path),
            ExportSeries::Foster => self.foster = Some(path),
            ExportSeries::Cauer => self.cauer = Some(path),
            ExportSeries::DiffStruc => self.diff_struc = Some(path),
        }
    }
}

/// The paths of the SVG figures written for a result; a series that the
/// result lacks has no file.
#[derive(Debug, PartialEq, Eq)]
pub struct ExportedFigureFiles {
    pub impedance: PathBuf,
    pub imp_deriv: Option<PathBuf>,
    pub time_spec: Option<PathBuf>,
    pub foster: Option<PathBuf>,
    pub cauer: Option<PathBuf>,
    pub diff_struc: Option<PathBuf>,
}

impl ExportedFigureFiles {
    /// The path recorded for a series, if any.
    pub open spec fn path_of(self, series: ExportSeries) -> Option<PathBuf> {
        match series {
            ExportSeries::Impedance => Some(self.impedance),
            ExportSeries::ImpDeriv => self.imp_deriv,
            ExportSeries::TimeSpec => self.time_spec,
            ExportSeries::Foster => self.foster,
            ExportSeries::Cauer => self.cauer,
            ExportSeries::DiffStruc => self.diff_struc,
        }
    }

    /// The record after the impedance file alone is written.
    pub fn new(impedance: PathBuf) -> (r: Self)
        ensures
            forall|s: ExportSeries|
                #[trigger] r.path_of(s) == if s == ExportSeries::Impedance {
                    Some(impedance)
                } else {
                    None
                },
    {
        ExportedFigureFiles {
            impedance,
            imp_deriv: None,
            time_spec: None,
            foster: None,
            cauer: None,
            diff_struc: None,
        }
    }

    /// Records the file written for a series.
    pub fn record(&mut self, series: ExportSeries, path: PathBuf)
        ensures
            final(self).path_of(series) == Some(path),
            forall|s: ExportSeries|
                s != series ==> #[trigger] final(self).path_of(s) == old(self).path_of(s),
    {
        match series {
            ExportSeries::Impedance => self.impedance = path,
            ExportSeries::ImpDeriv => self.imp_deriv = Some(path),
            ExportSeries::TimeSpec => self.time_spec = Some(path),
            ExportSeries::Foster => self.foster = Some(path),
            ExportSeries::Cauer => self.cauer = Some(path),
            ExportSeries::DiffStruc => self.diff_struc = Some(path),
        }
    }
}

} // verus!
