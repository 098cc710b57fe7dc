use iscc_cli::extract::{extract_html, extract_nothing, extract_text, extract_tika};
use iscc_cli::identifier::get_iscc_id;
use iscc_cli::media::GeneralMediaType;
use iscc_cli::metadata::MetaNode;

fn meta_with_title(t: &str) -> MetaNode {
    MetaNode::Object(vec![(
        "meta".to_string(),
        MetaNode::Object(vec![("dc:title".to_string(), MetaNode::Text(t.to_string()))]),
    )])
}

#[test]
fn text_extraction_takes_first_nonblank_line() {
    let e = extract_text("\n\n  Lorem ipsum\nsecond line\n".to_string());
    assert_eq!(e.content, "\n\n  Lorem ipsum\nsecond line\n");
    assert_eq!(e.title, "  Lorem ipsum");
    assert_eq!(e.extra, "");
}

#[test]
fn text_extraction_of_blank_text_has_empty_title() {
    let e = extract_text("   \n\t\n".to_string());
    assert_eq!(e.title, "");
}

#[test]
fn media_without_text_extracts_nothing() {
    let e = extract_nothing();
    assert_eq!((e.content.as_str(), e.title.as_str(), e.extra.as_str()), ("", "", ""));
}

#[test]
fn html_is_rendered_to_text() {
    let html = b"<html><body><h1>Demo Title</h1><p>Some <b>bold</b> text.</p></body></html>";
    let e = extract_html(html).unwrap();
    assert!(!e.content.contains('<'));
    assert!(e.content.contains("Demo Title"));
    assert!(e.content.contains("Some"));
    assert!(e.title.contains("Demo Title"));
    assert_eq!(e.extra, "");
}

#[test]
fn html_lines_are_wrapped_at_72_columns() {
    let words = "word ".repeat(60);
    let html = format!("<p>{}</p>", words);
    let e = extract_html(html.as_bytes()).unwrap();
    assert!(e.content.lines().count() > 1);
    assert!(e.content.lines().all(|l| l.chars().count() <= 72));
}

#[test]
fn remote_title_prefers_metadata() {
    let e = extract_tika("first line\nsecond".to_string(), &meta_with_title("Meta Title"));
    assert_eq!(e.title, "Meta Title");
    assert_eq!(e.content, "first line\nsecond");
    assert_eq!(e.extra, "");
}

#[test]
fn remote_title_falls_back_to_first_line() {
    let meta = MetaNode::Object(vec![("author".to_string(), MetaNode::Text("A".to_string()))]);
    let e = extract_tika("\n  \nReal first\nsecond".to_string(), &meta);
    assert_eq!(e.title, "Real first");
}

#[test]
fn caller_title_wins_without_guess() {
    let media = GeneralMediaType::Text("pdf".to_string());
    let e = extract_tika("content line".to_string(), &meta_with_title("Meta Title"));
    let id = get_iscc_id(&media, &e, "X", "Y", false, b"bytes", None, false).unwrap();
    assert_eq!(id.title, "X");
    assert_eq!(id.extra, "Y");
}

#[test]
fn caller_title_wins_over_first_line() {
    let media = GeneralMediaType::Text("plain".to_string());
    let text = "A heading\nbody\n";
    let e = extract_text(text.to_string());
    let id = get_iscc_id(&media, &e, "X", "", false, text.as_bytes(), None, false).unwrap();
    assert_eq!(id.title, "X");
}

#[test]
fn guess_reports_metadata_title() {
    let media = GeneralMediaType::Text("pdf".to_string());
    let e = extract_tika("content line".to_string(), &meta_with_title("Meta Title"));
    let id = get_iscc_id(&media, &e, "", "", true, b"bytes", None, false).unwrap();
    assert_eq!(id.title, "Meta Title");
}

#[test]
fn guess_reports_first_line_without_metadata_title() {
    let media = GeneralMediaType::Text("pdf".to_string());
    let meta = MetaNode::Object(vec![("author".to_string(), MetaNode::Text("A".to_string()))]);
    let e = extract_tika("\nA heading\nbody".to_string(), &meta);
    let id = get_iscc_id(&media, &e, "ignored", "also ignored", true, b"bytes", None, false)
        .unwrap();
    assert_eq!(id.title, "A heading");
    assert_eq!(id.extra, "");
}
