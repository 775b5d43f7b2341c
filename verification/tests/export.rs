use std::path::PathBuf;

use pyrth::export::{
    escape_xml, export_series, AxisScale, ExportSeries, ExportedCsvFiles, ExportedFigureFiles,
    ResultParts,
};

#[test]
fn xml_special_characters_are_escaped() {
    assert_eq!(escape_xml("a<b & \"c\">"), "a&lt;b &amp; &quot;c&quot;&gt;");
    assert_eq!(escape_xml("Thermal impedance"), "Thermal impedance");
    assert_eq!(escape_xml("&amp;"), "&amp;amp;");
    let escaped = escape_xml("<<\"x\">>");
    assert!(!escaped.contains('<') && !escaped.contains('>') && !escaped.contains('"'));
}

#[test]
fn only_available_series_are_exported() {
    let only_z = ResultParts { has_derivative: false, has_time_spectrum: false, has_foster: false, has_cauer: false };
    assert_eq!(export_series(only_z), vec![ExportSeries::Impedance]);
    let all = ResultParts { has_derivative: true, has_time_spectrum: true, has_foster: true, has_cauer: true };
    assert_eq!(
        export_series(all),
        vec![
            ExportSeries::Impedance,
            ExportSeries::ImpDeriv,
            ExportSeries::TimeSpec,
            ExportSeries::Foster,
            ExportSeries::Cauer,
            ExportSeries::DiffStruc,
        ]
    );
    let spectrum_without_derivative = ResultParts { has_derivative: false, has_time_spectrum: true, has_foster: true, has_cauer: false };
    assert_eq!(export_series(spectrum_without_derivative), vec![ExportSeries::Impedance, ExportSeries::Foster]);
}

#[test]
fn series_names_headers_and_scales() {
    assert_eq!(ExportSeries::ImpDeriv.stem(), "imp_deriv");
    assert_eq!(ExportSeries::DiffStruc.stem(), "diff_struc");
    assert_eq!(ExportSeries::Impedance.columns(), ("time", "impedance"));
    assert_eq!(ExportSeries::Cauer.columns(), ("cumulative_resistance", "cumulative_capacitance"));
    assert_eq!(ExportSeries::Impedance.title(), "Thermal impedance");
    assert_eq!(ExportSeries::Cauer.scales(), (AxisScale::Linear, AxisScale::Log10));
    assert_eq!(ExportSeries::TimeSpec.scales(), (AxisScale::Log10, AxisScale::Linear));
    assert_eq!(AxisScale::Log10.label(), "log10");
    assert_eq!(AxisScale::Linear.label(), "linear");
}

#[test]
fn exported_files_record_each_series() {
    let mut csv = ExportedCsvFiles::new(PathBuf::from("o/impedance.csv"));
    assert_eq!(csv.foster, None);
    csv.record(ExportSeries::Foster, PathBuf::from("o/foster.csv"));
    csv.record(ExportSeries::DiffStruc, PathBuf::from("o/diff_struc.csv"));
    assert_eq!(csv.foster, Some(PathBuf::from("o/foster.csv")));
    assert_eq!(csv.diff_struc, Some(PathBuf::from("o/diff_struc.csv")));
    assert_eq!(csv.impedance, PathBuf::from("o/impedance.csv"));
    assert_eq!(csv.cauer, None);
    let mut svg = ExportedFigureFiles::new(PathBuf::from("f/impedance.svg"));
    svg.record(ExportSeries::TimeSpec, PathBuf::from("f/time_spec.svg"));
    assert_eq!(svg.time_spec, Some(PathBuf::from("f/time_spec.svg")));
    assert_eq!(svg.imp_deriv, None);
}

#[test]
fn exported_series_have_distinct_file_names() {
    for bits in 0..16u8 {
        let parts = ResultParts {
            has_derivative: bits & 1 != 0,
            has_time_spectrum: bits & 2 != 0,
            has_foster: bits & 4 != 0,
            has_cauer: bits & 8 != 0,
        };
        let stems: Vec<String> = export_series(parts).into_iter().map(|s| s.stem()).collect();
        for i in 0..stems.len() {
            for j in (i + 1)..stems.len() {
                assert_ne!(stems[i], stems[j]);
            }
        }
    }
}
