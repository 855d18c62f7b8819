//! Selector compilation, evaluation and projection.

use hq::pipeline::content_mode_from_flags;
use hq::pipeline::select_mode_from_flags;
use hq::select::extract;
use hq::select::parse_document;
use hq::select::parse_query;
use hq::select::query_html;
use hq::select::select_matches;
use hq::select::ContentMode;
use hq::select::SelectMode;

#[test]
fn test_parse_query() {
    assert!(parse_query("div").is_ok());
    assert!(parse_query("").is_err());
    assert!(parse_query(".foo").is_ok());
}

#[test]
fn parse_query_reports_what_was_wrong() {
    let err = parse_query("###").unwrap_err();
    assert!(err.starts_with("Invalid selector: "));
}

#[test]
fn query_html_all_matches_in_document_order() {
    let html = parse_document("<div><p>a</p><span>x</span><p>b</p></div>");
    let sel = parse_query("p").unwrap();
    let r = query_html(&html, &sel, SelectMode::All, ContentMode::Text).unwrap();
    assert_eq!(r, vec!["a".to_string(), "b".to_string()]);
}

#[test]
fn query_html_first_truncates_to_one() {
    let html = parse_document("<div><p>a</p><p>b</p></div>");
    let sel = parse_query("p").unwrap();
    let r = query_html(&html, &sel, SelectMode::One, ContentMode::Text).unwrap();
    assert_eq!(r, vec!["a".to_string()]);
}

#[test]
fn query_html_first_with_no_match_is_empty() {
    let html = parse_document("<div><p>a</p></div>");
    let sel = parse_query("em").unwrap();
    let r = query_html(&html, &sel, SelectMode::One, ContentMode::Text).unwrap();
    assert!(r.is_empty());
}

#[test]
fn outer_projection_contains_inner_projection() {
    let html = parse_document("<div><p class=\"a\">Hi <b>x</b></p></div>");
    let sel = parse_query("p").unwrap();
    let ms = select_matches(&html, &sel);
    assert_eq!(ms.len(), 1);
    let outer = extract(&ms[0], &ContentMode::Outer);
    let inner = extract(&ms[0], &ContentMode::Inner);
    assert_eq!(outer, "<p class=\"a\">Hi <b>x</b></p>");
    assert_eq!(inner, "Hi <b>x</b>");
    assert!(outer.contains(&inner));
}

#[test]
fn text_projection_concatenates_without_separators() {
    let html = parse_document("<div><p>Hi <b>there</b>!</p></div>");
    let sel = parse_query("p").unwrap();
    let ms = select_matches(&html, &sel);
    assert_eq!(extract(&ms[0], &ContentMode::Text), "Hi there!");
}

#[test]
fn class_selector_matches() {
    let html = parse_document("<div><p class=\"a\">Hi</p><p class=\"b\">Bye</p></div>");
    let sel = parse_query(".b").unwrap();
    let r = query_html(&html, &sel, SelectMode::All, ContentMode::Text).unwrap();
    assert_eq!(r, vec!["Bye".to_string()]);
}

#[test]
fn content_flags_pick_the_single_set_mode() {
    assert_eq!(content_mode_from_flags(true, false, false), ContentMode::Outer);
    assert_eq!(content_mode_from_flags(false, true, false), ContentMode::Inner);
    assert_eq!(content_mode_from_flags(false, false, true), ContentMode::Text);
    assert_eq!(content_mode_from_flags(true, true, false), ContentMode::Outer);
}

#[test]
fn select_flags_pick_first_only_when_asked_alone() {
    assert_eq!(select_mode_from_flags(true, false), SelectMode::All);
    assert_eq!(select_mode_from_flags(false, true), SelectMode::One);
    assert_eq!(select_mode_from_flags(true, true), SelectMode::All);
}

#[test]
fn raw_text_element_escapes_inner_but_not_outer() {
    let html = parse_document("<style>a < b</style>");
    let sel = parse_query("style").unwrap();
    let ms = select_matches(&html, &sel);
    assert_eq!(ms.len(), 1);
    let outer = extract(&ms[0], &ContentMode::Outer);
    let inner = extract(&ms[0], &ContentMode::Inner);
    assert_eq!(outer, "<style>a < b</style>");
    assert_eq!(inner, "a &lt; b");
    assert!(!outer.contains(&inner));
}

#[test]
fn compilation_agrees_across_calls() {
    for q in ["#para", "div > p", "[["] {
        assert_eq!(parse_query(q).is_ok(), parse_query(q).is_ok());
    }
    assert!(parse_query("#para").is_ok());
    assert!(parse_query("div > p").is_ok());
    assert!(parse_query("[[").is_err());
}
