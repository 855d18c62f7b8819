//! The whole pipeline: parse the document, compile the selector,
//! collect and project the matches, and render each projection. Also
//! the meaning of the mode flags the surrounding command line hands in.

use vstd::prelude::*;

use crate::render::parse_and_print_html_indented;
use crate::render::parse_and_print_html_unindented;
use crate::render::parsed_doc;
use crate::render::rendered;
use crate::select::compiled_selector;
use crate::select::is_class_name;
use crate::select::is_type_name;
use crate::select::parse_document;
use crate::select::parse_query;
use crate::select::parsed_html;
use crate::select::projected;
use crate::select::query_html;
use crate::select::selected;
use crate::select::selector_ok;
use crate::select::string_views;
use crate::select::ContentMode;
use crate::select::SelectMode;

verus! {

/// A projected fragment re-parsed and rendered in the chosen mode, with
/// the synthetic root hidden.
pub open spec fn rendered_fragment(frag: Seq<char>, indented: bool) -> Seq<char> {
    rendered(parsed_doc(frag), indented, false)
}

/// Render every projected match, in order: one output per visited
/// match, single-line unless indentation was asked for.
pub fn print_result(result: &Vec<String>, unindented: bool) -> (out: Vec<String>)
    ensures
        out@.len() == result@.len(),
        forall|i: int|
            0 <= i < out@.len() ==> (#[trigger] out@[i])@ == rendered_fragment(
                result@[i]@,
                !unindented,
            ),
{
    let n = result.len();
    let mut out: Vec<String> = Vec::new();
    let mut i: usize = 0;
    while i < n
        invariant
            n == result@.len(),
            0 <= i <= n,
            out@.len() == i,
            forall|k: int|
                0 <= k < i ==> (#[trigger] out@[k])@ == rendered_fragment(
                    result@[k]@,
                    !unindented,
                ),
        decreases n - i,
    {
        let r = &result[i];
        if unindented {
            out.push(parse_and_print_html_unindented(r.as_str(), false));
        } else {
            out.push(parse_and_print_html_indented(r.as_str(), false));
        }
        i += 1;
    }
    out
}

/// What one invocation prints for a document, a selector text and the
/// three mode switches: the chosen projection of every visited match,
/// each re-parsed and rendered.
pub open spec fn pipeline_outputs(
    doc: Seq<char>,
    q: Seq<char>,
    select: SelectMode,
    content: ContentMode,
    indented: bool,
) -> Seq<Seq<char>> {
    selected(projected(parsed_html(doc), compiled_selector(q), content), select).map_values(
        |frag: Seq<char>| rendered_fragment(frag, indented),
    )
}

/// Run the whole pipeline. It fails exactly when the selector grammar
/// refuses the selector text, before any output is produced; the empty
/// selector is always refused, and a plain type or class name never is.
pub fn run_pipeline(
    html_text: &str,
    query_text: &str,
    select: SelectMode,
    content: ContentMode,
    indented: bool,
) -> (r: Result<Vec<String>, String>)
    ensures
        r is Ok <==> selector_ok(query_text@),
        query_text@.len() == 0 ==> r is Err,
        is_type_name(query_text@) ==> r is Ok,
        is_class_name(query_text@) ==> r is Ok,
        r is Ok ==> string_views((r->Ok_0)@) == pipeline_outputs(
            html_text@,
            query_text@,
            select,
            content,
            indented,
        ),
{
    let query = match parse_query(query_text) {
        Ok(q) => q,
        Err(e) => {
            return Err(e);
        },
    };
    let html = parse_document(html_text);
    let matched = match query_html(&html, &query, select, content) {
        Ok(v) => v,
        Err(e) => {
            return Err(e);
        },
    };
    let out = print_result(&matched, !indented);
    proof {
        assert(string_views(out@) =~= pipeline_outputs(
            html_text@,
            query_text@,
            select,
            content,
            indented,
        ));
    }
    Ok(out)
}

/// The meaning of the three content flags: the flag that is set alone
/// picks its mode; any other combination falls back to the default.
pub open spec fn content_mode_of(outer: bool, inner: bool, text: bool) -> ContentMode {
    if outer && !inner && !text {
        ContentMode::Outer
    } else if !outer && inner && !text {
        ContentMode::Inner
    } else if !outer && !inner && text {
        ContentMode::Text
    } else {
        ContentMode::Outer
    }
}

/// Turn the content flags into a mode.
pub fn content_mode_from_flags(outer: bool, inner: bool, text: bool) -> (m: ContentMode)
    ensures
        m == content_mode_of(outer, inner, text),
{
    match (outer, inner, text) {
        (true, false, false) => ContentMode::Outer,
        (false, true, false) => ContentMode::Inner,
        (false, false, true) => ContentMode::Text,
        _ => ContentMode::default(),
    }
}

/// The meaning of the two selection flags: first-match only when asked
/// for alone; any other combination falls back to the default.
pub open spec fn select_mode_of(all: bool, first: bool) -> SelectMode {
    if !all && first {
        SelectMode::One
    } else {
        SelectMode::All
    }
}

/// Turn the selection flags into a mode.
pub fn select_mode_from_flags(all: bool, first: bool) -> (m: SelectMode)
    ensures
        m == select_mode_of(all, first),
{
    match (all, first) {
        (true, false) => SelectMode::All,
        (false, true) => SelectMode::One,
        _ => SelectMode::default(),
    }
}

} // verus!
