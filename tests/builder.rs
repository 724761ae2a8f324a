use playground_annotate_snippets::{
    render_document, Document, Error, Excerpt, Notice, RenderError, Seeker, Severity, SpanLabel,
};
use std::io::Cursor;

const SOURCE: &str = "This is an example
content of the slice
which will be annotated
with the list of annotations below.
";

fn example() -> Error {
    Error::new("expected type, found `x`".to_string())
        .error(260, 0, 12, SOURCE.to_string(), "found `x`".to_string())
        .help("try using a foobs instead".to_string())
}

#[test]
fn new_sets_error_title() {
    let e = Error::new("bad thing".to_string());
    let doc = e.document();
    let title = doc.title.as_ref().unwrap();
    assert_eq!(title.label.as_deref(), Some("bad thing"));
    assert_eq!(title.severity, Severity::Error);
    assert!(doc.slices.is_empty());
    assert!(doc.footer.is_empty());
}

#[test]
fn error_adds_folded_excerpt() {
    let e = Error::new("t".to_string()).error(7, 2, 5, "abcdef".to_string(), "lbl".to_string());
    let doc = e.document();
    assert_eq!(doc.slices.len(), 1);
    let s = &doc.slices[0];
    assert_eq!(s.source, "abcdef");
    assert_eq!(s.line_start, 7);
    assert!(s.origin.is_none());
    assert!(s.fold);
    assert_eq!(s.annotations.len(), 1);
    assert_eq!((s.annotations[0].start, s.annotations[0].end), (2, 5));
    assert_eq!(s.annotations[0].label, "lbl");
    assert_eq!(s.annotations[0].severity, Severity::Error);
}

#[test]
fn help_adds_help_footer() {
    let e = Error::new("t".to_string()).help("do this".to_string());
    let doc = e.document();
    assert_eq!(doc.footer.len(), 1);
    assert_eq!(doc.footer[0].label.as_deref(), Some("do this"));
    assert_eq!(doc.footer[0].severity, Severity::Help);
}

#[test]
fn calls_keep_their_order() {
    let e = Error::new("t".to_string())
        .help("h1".to_string())
        .error(1, 0, 1, "a".to_string(), "first".to_string())
        .help("h2".to_string())
        .error(2, 0, 1, "b".to_string(), "second".to_string())
        .error(3, 0, 1, "c".to_string(), "third".to_string());
    let doc = e.document();
    let lines: Vec<usize> = doc.slices.iter().map(|s| s.line_start).collect();
    assert_eq!(lines, vec![1, 2, 3]);
    let labels: Vec<&str> = doc.slices.iter().map(|s| s.annotations[0].label.as_str()).collect();
    assert_eq!(labels, vec!["first", "second", "third"]);
    let helps: Vec<&str> = doc.footer.iter().map(|n| n.label.as_deref().unwrap()).collect();
    assert_eq!(helps, vec!["h1", "h2"]);
}

#[test]
fn title_only_renders_one_line() {
    let text = Error::new("expected type".to_string()).to_string().unwrap();
    assert_eq!(text, "error: expected type");
    assert!(!text.contains('|'));
    assert!(!text.contains("= help"));
}

#[test]
fn two_excerpts_render_in_order() {
    let text = Error::new("two".to_string())
        .error(10, 4, 5, "let x = 1;\n".to_string(), "here".to_string())
        .error(20, 4, 5, "let y = 2;\n".to_string(), "there".to_string())
        .to_string()
        .unwrap();
    let first = text.find("10 | let x = 1;").unwrap();
    let second = text.find("20 | let y = 2;").unwrap();
    assert!(first < second);
    assert!(text.find("^ here").unwrap() < second);
    assert!(text.find("^ there").unwrap() > second);
}

#[test]
fn example_renders_header_gutter_and_help() {
    let text = example().to_string().unwrap();
    let lines: Vec<&str> = text.lines().collect();
    assert_eq!(lines[0], "error: expected type, found `x`");
    let first_numbered = lines.iter().find(|l| l.starts_with(|c: char| c.is_ascii_digit())).unwrap();
    assert!(first_numbered.starts_with("260 |"));
    assert_eq!(lines.last().unwrap().trim(), "= help: try using a foobs instead");
}

#[test]
fn example_renders_exactly() {
    let text = example().to_string().unwrap();
    let expected = "error: expected type, found `x`
    |
260 | This is an example
    | ^^^^^^^^^^^^ found `x`
    |
    = help: try using a foobs instead";
    assert_eq!(text, expected);
}

#[test]
fn same_calls_render_identically() {
    let a = example().to_string().unwrap();
    let b = example().to_string().unwrap();
    assert_eq!(a.as_bytes(), b.as_bytes());
}

#[test]
fn backward_range_is_accepted_then_reported() {
    let e = Error::new("t".to_string()).error(1, 9, 3, SOURCE.to_string(), "oops".to_string());
    let s = &e.document().slices[0];
    assert_eq!((s.annotations[0].start, s.annotations[0].end), (9, 3));
    assert_eq!(e.to_string(), Err(RenderError::InvalidRange));
}

#[test]
fn empty_range_renders() {
    let text = Error::new("t".to_string())
        .error(1, 3, 3, "abcdef\n".to_string(), "here".to_string())
        .to_string()
        .unwrap();
    assert!(text.contains("1 | abcdef"));
}

#[test]
fn huge_line_start_is_reported() {
    let e = Error::new("t".to_string()).error(usize::MAX, 0, 1, "ab\ncd\n".to_string(), "x".to_string());
    assert_eq!(e.to_string(), Err(RenderError::LineNumberOverflow));
}

#[test]
fn largest_line_start_that_fits_renders() {
    let text = Error::new("t".to_string())
        .error(usize::MAX - 1, 0, 1, "a".to_string(), "x".to_string())
        .to_string()
        .unwrap();
    assert!(text.contains(&format!("{} | a", usize::MAX - 1)));
}

#[test]
fn invalid_range_is_reported_before_overflow() {
    let e = Error::new("t".to_string())
        .error(usize::MAX, 0, 1, "ab".to_string(), "x".to_string())
        .error(1, 5, 2, "ab".to_string(), "y".to_string());
    assert_eq!(e.to_string(), Err(RenderError::InvalidRange));
}

#[test]
fn empty_label_title() {
    let text = Error::new(String::new()).to_string().unwrap();
    assert_eq!(text, "error");
}

#[test]
fn seeker_wraps_cursor() {
    let _s = Seeker::new(Cursor::new(vec![1u8, 2, 3]));
    let _t = Seeker::new(Cursor::new("text"));
}

#[test]
fn hand_built_document_renders() {
    let doc = Document {
        title: Some(Notice { label: Some("w".to_string()), severity: Severity::Warning }),
        slices: vec![Excerpt {
            source: "abc\n".to_string(),
            line_start: 5,
            origin: Some("src/x.rs".to_string()),
            fold: false,
            annotations: vec![SpanLabel { start: 0, end: 1, label: "l".to_string(), severity: Severity::Note }],
        }],
        footer: vec![Notice { label: Some("n".to_string()), severity: Severity::Info }],
    };
    let text = render_document(&doc);
    assert!(text.starts_with("warning: w"));
    assert!(text.contains("--> src/x.rs"));
    assert!(text.contains("5 | abc"));
    assert!(text.contains("- note: l"));
    assert!(text.ends_with("= info: n"));
}

#[test]
fn range_past_source_is_reported() {
    let e = Error::new("t".to_string()).error(1, 5, 6, "a".to_string(), "far".to_string());
    let s = &e.document().slices[0];
    assert_eq!((s.annotations[0].start, s.annotations[0].end), (5, 6));
    assert_eq!(e.to_string(), Err(RenderError::InvalidRange));
}

#[test]
fn range_ending_at_source_end_renders() {
    let text = Error::new("t".to_string())
        .error(1, 0, 3, "abc".to_string(), "all".to_string())
        .to_string()
        .unwrap();
    assert!(text.contains("1 | abc"));
    assert!(text.contains("^^^ all"));
}

#[test]
fn range_one_past_source_end_is_reported() {
    let e = Error::new("t".to_string()).error(1, 0, 4, "abc".to_string(), "all".to_string());
    assert_eq!(e.to_string(), Err(RenderError::InvalidRange));
}
