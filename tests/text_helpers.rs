use iscc_cli::text::{contains_text, first_nonblank, is_blank_text, same_text, trimmed};

#[test]
fn first_nonblank_skips_blank_lines() {
    assert_eq!(first_nonblank("\n   \n\t\n  Hello world \nnext"), "  Hello world ");
}

#[test]
fn first_nonblank_of_blank_text_is_empty() {
    assert_eq!(first_nonblank(""), "");
    assert_eq!(first_nonblank(" \n\t\r\n \u{a0}\n"), "");
}

#[test]
fn first_nonblank_drops_carriage_return() {
    assert_eq!(first_nonblank("\r\nTitle line\r\nbody"), "Title line");
}

#[test]
fn first_nonblank_of_single_line() {
    assert_eq!(first_nonblank("only"), "only");
}

#[test]
fn trimming_matches_std() {
    for s in ["", "  ", " a ", "\u{3000}x y\u{2029}", "abc", "\n\tq\r"] {
        assert_eq!(trimmed(s), s.trim());
    }
}

#[test]
fn blankness() {
    assert!(is_blank_text(""));
    assert!(is_blank_text(" \t\n\u{85}"));
    assert!(!is_blank_text(" x "));
}

#[test]
fn substring_search() {
    assert!(contains_text("dc:title", "title"));
    assert!(contains_text("title", "title"));
    assert!(!contains_text("Title", "title"));
    assert!(!contains_text("tit", "title"));
    assert!(contains_text("anything", ""));
}

#[test]
fn text_equality() {
    assert!(same_text("plain", "plain"));
    assert!(!same_text("plain", "plains"));
    assert!(!same_text("html", "htmL"));
}
