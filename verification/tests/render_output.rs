//! The tree renderer on its own: both modes, the synthetic-root toggle,
//! and the text, comment, attribute and whitespace edge cases.

use hq::render::parse_and_print_html_indented;
use hq::tree::Attr;
use hq::tree::Doc;
use hq::tree::DomNode;
use hq::render::parse_and_print_html_unindented;

#[test]
fn unindented_nested_elements_on_one_line() {
    let out = parse_and_print_html_unindented("<div><p>x</p></div>", false);
    assert_eq!(out, "<div><p>x</p></div>\n");
}

#[test]
fn unindented_keeps_attribute_order() {
    let out = parse_and_print_html_unindented("<p b=\"2\" a=\"1\">x</p>", false);
    assert_eq!(out, "<p b=\"2\" a=\"1\">x</p>\n");
}

#[test]
fn unindented_hides_synthetic_root_by_default() {
    let out = parse_and_print_html_unindented("<p>x</p>", true);
    assert_eq!(out, "<html><p>x</p></html>\n");
}

#[test]
fn plain_text_renders_as_collapsed_trimmed_text() {
    let out = parse_and_print_html_unindented("  hello\nworld  ", false);
    assert_eq!(out, "hello world\n");
}

#[test]
fn plain_text_indented_renders_verbatim_on_its_line() {
    let out = parse_and_print_html_indented("  hello\nworld  ", false);
    assert_eq!(out, "      hello\nworld  \n");
}

#[test]
fn whitespace_only_text_is_suppressed() {
    let out = parse_and_print_html_unindented("<div>   </div>", false);
    assert_eq!(out, "<div></div>\n");
}

#[test]
fn comment_is_passed_through() {
    let out = parse_and_print_html_unindented("<div><!--x--></div>", false);
    assert_eq!(out, "<div><!-- x --></div>\n");
}

#[test]
fn void_element_still_gets_a_closing_tag() {
    let out = parse_and_print_html_unindented("<div><br></div>", false);
    assert_eq!(out, "<div><br></br></div>\n");
}

#[test]
fn indented_tree_two_spaces_per_level() {
    let out = parse_and_print_html_indented("<p>x</p>", false);
    assert_eq!(out, "    <p>\n      x\n    </p>\n");
}

#[test]
fn indented_tree_with_synthetic_root_shown() {
    let out = parse_and_print_html_indented("<p>x</p>", true);
    assert_eq!(out, "  <html>\n    <p>\n      x\n    </p>\n  </html>\n");
}

#[test]
fn renderer_on_hand_built_tree() {
    let d = Doc {
        children: vec![DomNode::Element {
            tag: String::from("div"),
            attrs: vec![Attr {
                name: String::from("id"),
                value: String::from("z"),
            }],
            children: vec![DomNode::Text {
                text: String::from("hi"),
            }],
        }],
    };
    assert_eq!(d.render(false, true), "<div id=\"z\">hi</div>\n");
    assert_eq!(d.render(true, true), "  <div id=\"z\">\n    hi\n  </div>\n");
}

#[test]
fn top_level_html_element_is_hidden_but_nested_one_is_not() {
    let top = Doc {
        children: vec![DomNode::Element {
            tag: String::from("html"),
            attrs: vec![],
            children: vec![DomNode::Text {
                text: String::from("hi"),
            }],
        }],
    };
    assert_eq!(top.render(false, false), "hi\n");
    let nested = Doc {
        children: vec![DomNode::Element {
            tag: String::from("div"),
            attrs: vec![],
            children: vec![DomNode::Element {
                tag: String::from("html"),
                attrs: vec![],
                children: vec![],
            }],
        }],
    };
    assert_eq!(nested.render(false, false), "<div><html></html></div>\n");
}
