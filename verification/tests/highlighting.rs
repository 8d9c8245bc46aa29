use lirstings::engine::highlight_records;
use lirstings::engine::language_known;
use lirstings::error::PipelineError;
use lirstings::records::HighlightResult;
use lirstings::records::Record;

fn rec(lang: Option<&str>, text: &str, theme: &str) -> Record {
    Record { lang: lang.map(|l| l.to_string()), text: text.to_string(), theme: theme.to_string() }
}

fn reconstruct(lines: &Vec<Vec<lirstings::records::StyledSpan>>) -> String {
    let mut out = String::new();
    for (i, line) in lines.iter().enumerate() {
        if i > 0 {
            out.push('\n');
        }
        for span in line {
            out.push_str(&span.text);
        }
    }
    out
}

#[test]
fn known_language_resolves() {
    assert!(language_known("python"));
    assert!(language_known("json"));
    assert!(language_known("lua"));
    assert!(!language_known("no-such-language"));
}

#[test]
fn python_listing_highlights_to_spans_covering_text() {
    let text = "def foo():\n    return 1";
    let records = vec![rec(Some("python"), text, "github::dark")];
    let doc = highlight_records(&records).expect("highlighting succeeds");
    assert_eq!(doc.len(), 1);
    match &doc[0] {
        HighlightResult::Spans(lines) => {
            assert!(!lines.is_empty());
            assert!(lines.iter().any(|l| !l.is_empty()));
            assert_eq!(reconstruct(lines), text);
            assert!(lines.iter().flatten().any(|span| span.style.is_some()));
        }
        HighlightResult::Unavailable => panic!("expected spans for a known language"),
    }
}

#[test]
fn multiline_text_is_reconstructed_exactly() {
    let text = "x = 1\n\n\ny = \"a\\nb\"\nprint(x, y)\n";
    let records = vec![rec(Some("python"), text, "github::light")];
    let doc = highlight_records(&records).expect("highlighting succeeds");
    match &doc[0] {
        HighlightResult::Spans(lines) => assert_eq!(reconstruct(lines), text),
        HighlightResult::Unavailable => panic!("expected spans"),
    }
}

#[test]
fn absent_language_is_unavailable() {
    let records = vec![rec(None, "plain text", "github::dark")];
    let doc = highlight_records(&records).expect("no language is not an error");
    assert_eq!(doc.len(), 1);
    assert!(matches!(doc[0], HighlightResult::Unavailable));
}

#[test]
fn unknown_language_is_unavailable() {
    let records = vec![rec(Some("no-such-language"), "text", "github::dark")];
    let doc = highlight_records(&records).expect("unknown language is not an error");
    assert!(matches!(doc[0], HighlightResult::Unavailable));
}

#[test]
fn unknown_theme_aborts_with_unknown_theme_error() {
    let records = vec![rec(Some("python"), "x = 1", "not-a-real-theme")];
    let err = highlight_records(&records).expect_err("unknown theme is fatal");
    assert_eq!(err, PipelineError::UnknownTheme);
}

#[test]
fn unknown_theme_with_unknown_language_is_still_unavailable() {
    // The theme is only resolved for records that are actually highlighted.
    let records = vec![rec(None, "x", "not-a-real-theme")];
    let doc = highlight_records(&records).expect("nothing to highlight");
    assert!(matches!(doc[0], HighlightResult::Unavailable));
}

#[test]
fn results_are_index_aligned_with_records() {
    let records = vec![
        rec(None, "a", "github::dark"),
        rec(Some("python"), "b = 2", "github::dark"),
        rec(Some("no-such-language"), "c", "github::dark"),
    ];
    let doc = highlight_records(&records).expect("run succeeds");
    assert_eq!(doc.len(), records.len());
    assert!(matches!(doc[0], HighlightResult::Unavailable));
    assert!(matches!(doc[1], HighlightResult::Spans(_)));
    assert!(matches!(doc[2], HighlightResult::Unavailable));
}

#[test]
fn empty_record_list_gives_empty_document() {
    let records: Vec<Record> = vec![];
    let doc = highlight_records(&records).expect("empty query succeeds");
    assert!(doc.is_empty());
}

#[test]
fn side_channel_wire_format_serializes_spans() {
    let records = vec![rec(Some("python"), "x = 1", "github::dark")];
    let doc = highlight_records(&records).expect("highlighting succeeds");
    let wire: Vec<Option<Vec<Vec<(String, Option<syntastica::style::Style>)>>>> = doc
        .into_iter()
        .map(|res| match res {
            HighlightResult::Unavailable => None,
            HighlightResult::Spans(lines) => Some(
                lines
                    .into_iter()
                    .map(|line| line.into_iter().map(|sp| (sp.text, sp.style)).collect())
                    .collect(),
            ),
        })
        .collect();
    let text = serde_json::to_string(&wire).expect("the wire format serializes");
    assert!(text.starts_with("[["));
    let unavailable: Vec<Option<Vec<Vec<(String, Option<syntastica::style::Style>)>>>> =
        vec![None];
    assert_eq!(serde_json::to_string(&unavailable).expect("serializes"), "[null]");
}
