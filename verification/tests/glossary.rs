use deepl_cli::args::GlosNew;
use deepl_cli::errors::ConfigError;
use deepl_cli::glossary::{
    normalize_inline, normalize_preformatted, parse_inline_entries, plan_glossary,
    render_table, resolve_entry_input, EntriesFormat, EntrySource,
};
use deepl_cli::strutil::{split, str_eq, trim};

fn new_params(
    source: &str,
    target: &str,
    file: Option<&str>,
    tsv: bool,
    entries: Option<&str>,
) -> GlosNew {
    GlosNew {
        name: "en-it".to_string(),
        source: source.to_string(),
        target: target.to_string(),
        file: file.map(|s| s.to_string()),
        tsv,
        entries: entries.map(|s| s.to_string()),
    }
}

#[test]
fn inline_pairs_two_rows_trailing_comma() {
    // A trailing empty segment produces no row.
    let rows = parse_inline_entries("hello=ciao, goodbye=ciao,");
    assert_eq!(rows.len(), 2);
    assert_eq!(rows[0].source, "hello");
    assert_eq!(rows[0].target, "ciao");
    assert_eq!(rows[1].source, "goodbye");
    assert_eq!(rows[1].target, "ciao");
}

#[test]
fn inline_pairs_malformed_segment_skipped() {
    let rows = parse_inline_entries("a=b, malformed, c=d");
    assert_eq!(rows.len(), 2);
    assert_eq!(rows[0].source, "a");
    assert_eq!(rows[0].target, "b");
    assert_eq!(rows[1].source, "c");
    assert_eq!(rows[1].target, "d");
}

#[test]
fn inline_pairs_two_equals_skipped() {
    let rows = parse_inline_entries("a=b=c, x=y");
    assert_eq!(rows.len(), 1);
    assert_eq!(rows[0].source, "x");
    assert_eq!(rows[0].target, "y");
}

#[test]
fn inline_pairs_fields_are_trimmed() {
    let rows = parse_inline_entries("  hello =  ciao ");
    assert_eq!(rows.len(), 1);
    assert_eq!(rows[0].source, "hello");
    assert_eq!(rows[0].target, "ciao");
}

#[test]
fn inline_pairs_empty_input_yields_no_rows() {
    let rows = parse_inline_entries("");
    assert_eq!(rows.len(), 0);
    assert_eq!(render_table(&rows), "");
}

#[test]
fn inline_pairs_empty_field_kept() {
    // A segment with exactly one '=' is well-formed even when a field is
    // empty after trimming.
    let rows = parse_inline_entries("=b");
    assert_eq!(rows.len(), 1);
    assert_eq!(rows[0].source, "");
    assert_eq!(rows[0].target, "b");
}

#[test]
fn render_is_comma_rows_newline_terminated() {
    let rows = parse_inline_entries("hello=ciao, goodbye=ciao,");
    assert_eq!(render_table(&rows), "hello,ciao\ngoodbye,ciao\n");
}

#[test]
fn inline_output_format_ignores_tsv_request() {
    // Inline-parsed entries are always comma-delimited, whatever the flag.
    let with_flag = normalize_inline("hello=ciao, goodbye=ciao,", true);
    let without_flag = normalize_inline("hello=ciao, goodbye=ciao,", false);
    assert_eq!(with_flag.format, EntriesFormat::Csv);
    assert_eq!(without_flag.format, EntriesFormat::Csv);
    assert_eq!(with_flag.content, "hello,ciao\ngoodbye,ciao\n");
    assert_eq!(without_flag.content, with_flag.content);
}

#[test]
fn preformatted_keeps_content_and_honours_tsv() {
    let t = normalize_preformatted("hallo\twelt\n".to_string(), true);
    assert_eq!(t.content, "hallo\twelt\n");
    assert_eq!(t.format, EntriesFormat::Tsv);
    let c = normalize_preformatted("hallo,welt\n".to_string(), false);
    assert_eq!(c.format, EntriesFormat::Csv);
}

#[test]
fn resolve_prefers_file() {
    let r = resolve_entry_input(
        Some("entries.csv".to_string()),
        Some("a=b".to_string()),
    );
    match r {
        Ok(EntrySource::FromFile(p)) => assert_eq!(p, "entries.csv"),
        _ => panic!("expected the file source"),
    }
}

#[test]
fn resolve_leading_dash_means_stdin() {
    let r = resolve_entry_input(None, Some("-".to_string()));
    assert!(matches!(r, Ok(EntrySource::FromStdin)));
    let r2 = resolve_entry_input(None, Some("a=b".to_string()));
    match r2 {
        Ok(EntrySource::InlinePairs(e)) => assert_eq!(e, "a=b"),
        _ => panic!("expected inline pairs"),
    }
}

#[test]
fn resolve_nothing_is_a_config_error() {
    let r = resolve_entry_input(None, None);
    assert_eq!(r.err(), Some(ConfigError::MissingGlossaryEntries));
    assert_eq!(
        ConfigError::MissingGlossaryEntries.message(),
        "missing required glossary entries"
    );
}

#[test]
fn glossary_create() {
    // The inline entries of a creation request, with a trailing comma,
    // normalize to a non-empty comma-separated table.
    let params = new_params("EN", "IT", None, false, Some("hello=ciao, goodbye=ciao,"));
    let plan = plan_glossary(params).expect("plan");
    let raw = match plan.input {
        EntrySource::InlinePairs(e) => e,
        _ => panic!("expected inline pairs"),
    };
    let table = normalize_inline(&raw, plan.tsv);
    assert!(!table.content.is_empty());
    assert_eq!(table.content, "hello,ciao\ngoodbye,ciao\n");
}

#[test]
fn plan_glossary_rejects_bad_languages() {
    let r = plan_glossary(new_params("XX", "IT", None, false, Some("a=b")));
    assert_eq!(r.err(), Some(ConfigError::InvalidSourceLang));
    let r2 = plan_glossary(new_params("EN", "YY", None, false, Some("a=b")));
    assert_eq!(r2.err(), Some(ConfigError::InvalidTargetLang));
    assert_eq!(ConfigError::InvalidSourceLang.message(), "invalid source lang");
}

#[test]
fn plan_glossary_requires_some_entries() {
    let r = plan_glossary(new_params("EN", "IT", None, false, None));
    assert_eq!(r.err(), Some(ConfigError::MissingGlossaryEntries));
}

#[test]
fn plan_glossary_accepts_lowercase_codes() {
    let r = plan_glossary(new_params("en", "it", None, false, Some("a=b")));
    assert!(r.is_ok());
}

#[test]
fn trim_removes_ascii_whitespace() {
    assert_eq!(trim("  a b \t\n"), "a b");
    assert_eq!(trim(""), "");
    assert_eq!(trim(" \t "), "");
    assert_eq!(trim("x"), "x");
}

#[test]
fn split_keeps_empty_parts() {
    let parts = split("a,b,", ',');
    assert_eq!(parts, vec!["a".to_string(), "b".to_string(), "".to_string()]);
    assert_eq!(split("", ','), vec!["".to_string()]);
}

#[test]
fn str_eq_is_string_equality() {
    assert!(str_eq("abc", "abc"));
    assert!(!str_eq("abc", "abd"));
    assert!(!str_eq("abc", "ab"));
    assert!(str_eq("", ""));
}
