use iscc_cli::metadata::{searchkey, MetaNode};
use iscc_cli::tika::title;

fn obj(entries: Vec<(&str, MetaNode)>) -> MetaNode {
    MetaNode::Object(entries.into_iter().map(|(k, v)| (k.to_string(), v)).collect())
}

fn text(s: &str) -> MetaNode {
    MetaNode::Text(s.to_string())
}

#[test]
fn title_under_prefixed_key() {
    let tree = obj(vec![("meta", obj(vec![("dc:title", text("Hello"))]))]);
    assert_eq!(searchkey(&tree, "title", false), vec!["Hello".to_string()]);
    assert_eq!(title(&tree), "Hello");
}

#[test]
fn title_found_by_hunting_below_matching_key() {
    let tree = obj(vec![("meta", obj(vec![("title", obj(vec![("nested", text("World"))]))]))]);
    assert_eq!(searchkey(&tree, "title", false), vec!["World".to_string()]);
    assert_eq!(title(&tree), "World");
}

#[test]
fn no_title_key_gives_nothing() {
    let tree = obj(vec![
        ("author", text("Someone")),
        ("pages", MetaNode::Scalar("12".to_string())),
        ("list", MetaNode::Array(vec![text("a"), text("b")])),
    ]);
    assert!(searchkey(&tree, "title", false).is_empty());
    assert_eq!(title(&tree), "");
}

#[test]
fn values_are_trimmed_and_blank_ones_skipped() {
    let tree = obj(vec![
        ("title", text("   ")),
        ("dc:title", text("  Spaced out \n")),
    ]);
    assert_eq!(searchkey(&tree, "title", false), vec!["Spaced out".to_string()]);
}

#[test]
fn key_match_is_case_sensitive() {
    let tree = obj(vec![("Title", text("Upper")), ("subtitle", text("lower"))]);
    assert_eq!(searchkey(&tree, "title", false), vec!["lower".to_string()]);
}

#[test]
fn hunting_collects_strings_of_arrays_in_order() {
    let tree = obj(vec![(
        "title",
        MetaNode::Array(vec![
            text("first"),
            MetaNode::Null,
            MetaNode::Scalar("7".to_string()),
            text(""),
            obj(vec![("x", text("second"))]),
        ]),
    )]);
    assert_eq!(
        searchkey(&tree, "title", false),
        vec!["first".to_string(), "second".to_string()]
    );
    assert_eq!(title(&tree), "first");
}

#[test]
fn scalar_under_matching_key_is_taken() {
    let tree = obj(vec![("title", MetaNode::Scalar("42".to_string()))]);
    assert_eq!(searchkey(&tree, "title", false), vec!["42".to_string()]);
}

#[test]
fn matches_keep_depth_first_order() {
    let tree = obj(vec![
        ("a", obj(vec![("title", text("one"))])),
        ("title", text("two")),
        ("b", MetaNode::Array(vec![obj(vec![("og:title", text("three"))])])),
    ]);
    assert_eq!(
        searchkey(&tree, "title", false),
        vec!["one".to_string(), "two".to_string(), "three".to_string()]
    );
}

#[test]
fn scalar_root_gives_nothing() {
    assert!(searchkey(&text("title"), "title", false).is_empty());
    assert!(searchkey(&MetaNode::Null, "title", true).is_empty());
}
