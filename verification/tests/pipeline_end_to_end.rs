//! End-to-end scenarios: input HTML, selector and modes in, rendered
//! lines out.

use hq::pipeline::run_pipeline;
use hq::select::ContentMode;
use hq::select::SelectMode;

#[test]
fn outer_all_unindented_two_lines() {
    let out = run_pipeline(
        "<div><p class=\"a\">Hi</p><p class=\"b\">Bye</p></div>",
        "p",
        SelectMode::All,
        ContentMode::Outer,
        false,
    )
    .unwrap();
    assert_eq!(
        out,
        vec!["<p class=\"a\">Hi</p>\n".to_string(), "<p class=\"b\">Bye</p>\n".to_string()]
    );
}

#[test]
fn text_first_unindented_one_line() {
    let out = run_pipeline(
        "<div><p class=\"a\">Hi</p><p class=\"b\">Bye</p></div>",
        "p",
        SelectMode::One,
        ContentMode::Text,
        false,
    )
    .unwrap();
    assert_eq!(out, vec!["Hi\n".to_string()]);
}

#[test]
fn inner_all_unindented() {
    let out = run_pipeline(
        "<ul><li>One</li><li>Two</li></ul>",
        "li",
        SelectMode::All,
        ContentMode::Inner,
        false,
    )
    .unwrap();
    assert_eq!(out, vec!["One\n".to_string(), "Two\n".to_string()]);
}

#[test]
fn empty_selector_fails_with_no_output() {
    let r = run_pipeline("<div>x</div>", "", SelectMode::All, ContentMode::Outer, false);
    assert!(r.is_err());
}

#[test]
fn outer_indented_multi_line_tree() {
    let out = run_pipeline(
        "<div>  foo\n  bar</div>",
        "div",
        SelectMode::All,
        ContentMode::Outer,
        true,
    )
    .unwrap();
    assert_eq!(out, vec!["    <div>\n        foo\n  bar\n    </div>\n".to_string()]);
}

#[test]
fn rendering_outer_extraction_reaches_a_fixed_point() {
    let first = run_pipeline(
        "<div><p class=\"a\">Hi <b>x</b></p></div>",
        "p",
        SelectMode::All,
        ContentMode::Outer,
        false,
    )
    .unwrap();
    assert_eq!(first.len(), 1);
    let again = run_pipeline(&first[0], "p", SelectMode::All, ContentMode::Outer, false)
        .unwrap();
    assert_eq!(again, first);
    assert!(again[0].contains("class=\"a\""));
}

#[test]
fn no_match_means_no_output_lines() {
    let out = run_pipeline("<div>x</div>", "p", SelectMode::All, ContentMode::Outer, false)
        .unwrap();
    assert!(out.is_empty());
}
