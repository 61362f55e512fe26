use std::borrow::Cow;

use lnx_document::{Facet, FacetParseError, UserDisplayType};

#[test]
fn a_facet_takes_any_text() {
    for text in ["/electronics/phones", "", "no leading separator", "/a\\/b", "//", "\u{0}"] {
        assert_eq!(Facet::from(text).as_str(), text);
    }
}

#[test]
fn a_facet_is_made_from_borrowed_and_owned_text() {
    let borrowed = Facet::from("/a/b");
    let owned = Facet::from("/a/b".to_string());
    let cow = Facet::from(Cow::Borrowed("/a/b"));
    assert_eq!(borrowed, owned);
    assert_eq!(borrowed, cow);
    assert_eq!(owned.as_str(), "/a/b");
}

#[test]
fn into_cow_hands_the_text_back() {
    assert_eq!(Facet::from("/a/b").into_cow(), "/a/b");
    assert!(matches!(Facet::from("/a/b").into_cow(), Cow::Borrowed("/a/b")));
    assert!(matches!(Facet::from("/a/b".to_string()).into_cow(), Cow::Owned(_)));
    assert_eq!(Facet::from(String::new()).into_cow(), "");
}

#[test]
fn a_cloned_facet_holds_the_same_text() {
    let borrowed = Facet::from("/a/b");
    let owned = Facet::from("/c".to_string());
    assert_eq!(borrowed.clone(), borrowed);
    assert_eq!(owned.clone(), owned);
    assert!(matches!(borrowed.clone().into_cow(), Cow::Borrowed(_)));
    assert!(matches!(owned.clone().into_cow(), Cow::Owned(_)));
}

#[test]
fn a_path_parses_into_the_facet_of_the_index() {
    let parsed = Facet::from("/electronics/phones").to_tantivy_facet().unwrap();
    assert_eq!(parsed.encoded_str(), "electronics\u{0}phones");
    assert_eq!(parsed.to_path_string(), "/electronics/phones");
    assert_eq!(parsed, tantivy::schema::Facet::from_text("/electronics/phones").unwrap());
    assert_eq!(parsed, tantivy::schema::Facet::from_path(vec!["electronics", "phones"]));
}

#[test]
fn the_root_path_parses() {
    let parsed = Facet::from("/").to_tantivy_facet().unwrap();
    assert!(parsed.is_root());
}

#[test]
fn an_escaped_separator_stays_inside_its_segment() {
    let parsed = Facet::from("/a\\/b/c").to_tantivy_facet().unwrap();
    assert_eq!(parsed.encoded_str(), "a/b\u{0}c");
}

#[test]
fn text_that_is_not_ascii_parses() {
    let parsed = Facet::from("/caf\u{e9}/th\u{e9}").to_tantivy_facet().unwrap();
    assert_eq!(parsed.encoded_str(), "caf\u{e9}\u{0}th\u{e9}");
}

#[test]
fn empty_text_is_no_path() {
    let error = Facet::from("").to_tantivy_facet().unwrap_err();
    assert_eq!(error, FacetParseError { text: String::new() });
}

#[test]
fn text_without_the_leading_separator_is_no_path() {
    let error = Facet::from("electronics/phones").to_tantivy_facet().unwrap_err();
    assert_eq!(error.text, "electronics/phones");
    let error = Facet::from(" /a").to_tantivy_facet().unwrap_err();
    assert_eq!(error.text, " /a");
}

#[test]
fn a_rejected_facet_is_still_there() {
    let facet = Facet::from("phones");
    assert!(facet.to_tantivy_facet().is_err());
    assert_eq!(facet.as_str(), "phones");
}

#[test]
fn the_parse_error_reads_as_a_sentence() {
    let error = Facet::from("phones").to_tantivy_facet().unwrap_err();
    assert_eq!(error.message(), "Failed to parse the facet string: 'phones'");
    let native = tantivy::schema::Facet::from_text("phones").unwrap_err();
    assert_eq!(error.message(), native.to_string());
}

#[test]
fn a_facet_of_the_index_becomes_its_path_text() {
    let native = tantivy::schema::Facet::from_text("/electronics/phones").unwrap();
    let facet = Facet::from(native);
    assert_eq!(facet.as_str(), "/electronics/phones");
    let root = Facet::from(tantivy::schema::Facet::root());
    assert_eq!(root.as_str(), "/");
}

#[test]
fn a_facet_reads_as_its_text() {
    assert_eq!(Facet::from("/a/b").to_string(), "/a/b");
    assert_eq!(Facet::from(String::new()).to_string(), "");
}

#[test]
fn a_facet_is_shown_as_facet() {
    assert_eq!(Facet::from("/a").display_type_name(), "facet");
    assert_eq!(Facet::from("not a path").display_type_name(), "facet");
}
