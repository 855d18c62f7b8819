//! The selector engine: compile a CSS selector string, evaluate it
//! against a parsed document, and project each matched element to its
//! outer markup, inner markup, or text content.

use vstd::prelude::*;
use vstd::string::StringExecFns;

use crate::text::contains_seq;

verus! {

/// Whether all matches are kept or only the first.
#[derive(Clone, Copy, Debug, PartialEq, Eq, Structural)]
pub enum SelectMode {
    All,
    One,
}

impl Default for SelectMode {
    fn default() -> (r: Self)
        ensures
            r == SelectMode::All,
    {
        SelectMode::All
    }
}

/// Which projection of a matched element is taken.
#[derive(Clone, Copy, Debug, PartialEq, Eq, Structural)]
pub enum ContentMode {
    Outer,
    Inner,
    Text,
}

impl Default for ContentMode {
    fn default() -> (r: Self)
        ensures
            r == ContentMode::Outer,
    {
        ContentMode::Outer
    }
}

/// The parsed document of scraper, opaque here; it is queried only
/// through the trusted calls below.
#[verifier::external_type_specification]
#[verifier::external_body]
pub struct ExHtml(scraper::Html);

/// The compiled selector of scraper, opaque here.
#[verifier::external_type_specification]
#[verifier::external_body]
pub struct ExSelector(scraper::Selector);

/// The document that tolerant fragment parsing yields for the given
/// text; parsing never fails and depends on the text alone.
pub uninterp spec fn parsed_html(s: Seq<char>) -> scraper::Html;

/// The selector that compiling the given text yields, when compiling
/// succeeds; compilation depends on the text alone.
pub uninterp spec fn compiled_selector(q: Seq<char>) -> scraper::Selector;

/// Whether the text is a valid selector group under the supported
/// grammar (type, class, id and attribute selectors, combinators, the
/// common pseudo-classes): compilation succeeds on exactly these texts.
pub uninterp spec fn selector_ok(q: Seq<char>) -> bool;

/// The outer serializations (own tags included) of the elements of `h`
/// matching `q`, in the order the selection yields them: the order the
/// parser created the elements, which is the order of their opening
/// tags except where tree repair has reparented misnested markup.
pub uninterp spec fn match_outers(h: scraper::Html, q: scraper::Selector) -> Seq<Seq<char>>;

/// The inner serializations (children only) of the same matches, in the
/// same order.
pub uninterp spec fn match_inners(h: scraper::Html, q: scraper::Selector) -> Seq<Seq<char>>;

/// The concatenated text contents of the same matches, in the same
/// order.
pub uninterp spec fn match_texts(h: scraper::Html, q: scraper::Selector) -> Seq<Seq<char>>;

/// A non-empty run of ascii lower-case letters: always a valid CSS type
/// selector.
pub open spec fn is_type_name(q: Seq<char>) -> bool {
    q.len() > 0 && forall|i: int| 0 <= i < q.len() ==> 'a' <= #[trigger] q[i] <= 'z'
}

/// A dot followed by such a run: always a valid CSS class selector.
pub open spec fn is_class_name(q: Seq<char>) -> bool {
    q.len() > 1 && q[0] == '.' && forall|i: int| 1 <= i < q.len() ==> 'a' <= #[trigger] q[i]
        <= 'z'
}

/// Relies on scraper's `Html::parse_fragment`: tolerant HTML5 parsing
/// never fails and the resulting document depends on the text alone.
#[verifier::external_body]
pub fn parse_document(html: &str) -> (r: scraper::Html)
    ensures
        r == parsed_html(html@),
{
    scraper::Html::parse_fragment(html)
}

/// Relies on scraper's `Selector::parse`, the grammar of the
/// `selectors` crate: whether a text compiles is a function of the text
/// alone, named `selector_ok`; an empty selector list is refused
/// (`EmptySelector`); a bare ascii-letter name is a valid type selector
/// and a dot followed by one a valid class selector; the compiled value
/// depends on the text alone. The error is passed along as its display
/// text.
#[verifier::external_body]
fn selector_parse(query: &str) -> (r: Result<scraper::Selector, String>)
    ensures
        r is Ok <==> selector_ok(query@),
        query@.len() == 0 ==> r is Err,
        is_type_name(query@) ==> r is Ok,
        is_class_name(query@) ==> r is Ok,
        r is Ok ==> r->Ok_0 == compiled_selector(query@),
{
    match scraper::Selector::parse(query) {
        Ok(s) => Ok(s),
        Err(e) => Err(format!("{}", e)),
    }
}

/// The serialization opens with `<`, the given tag name, and then a
/// space (before an attribute) or `>`.
pub open spec fn outer_tag_is(s: Seq<char>, t: Seq<char>) -> bool {
    &&& s.len() > t.len() + 1
    &&& s[0] == '<'
    &&& s.subrange(1, 1 + t.len() as int) == t
    &&& (s[1 + t.len() as int] == ' ' || s[1 + t.len() as int] == '>')
}

/// The outer serialization is that of a raw-text element: one whose
/// text children the serializer writes unescaped.
pub open spec fn raw_text_outer(s: Seq<char>) -> bool {
    ||| outer_tag_is(s, "style"@)
    ||| outer_tag_is(s, "script"@)
    ||| outer_tag_is(s, "xmp"@)
    ||| outer_tag_is(s, "iframe"@)
    ||| outer_tag_is(s, "noembed"@)
    ||| outer_tag_is(s, "noframes"@)
    ||| outer_tag_is(s, "plaintext"@)
}

/// Relies on scraper's `Html::select` with `ElementRef::html`: the
/// elements matching the selector, in the order described at
/// `match_outers`, each serialized with the element's own tags
/// included.
#[verifier::external_body]
fn select_outer(html: &scraper::Html, query: &scraper::Selector) -> (r: Vec<String>)
    ensures
        r@.len() == match_outers(*html, *query).len(),
        forall|i: int| 0 <= i < r@.len() ==> (#[trigger] r@[i])@ == match_outers(
            *html,
            *query,
        )[i],
{
    html.select(query).map(|e| e.html()).collect()
}

/// Relies on scraper's `Html::select` with `ElementRef::inner_html`:
/// the same matches in the same order, each serialized without the
/// element's own tags. For an element that is not one of the raw-text
/// elements, the serializer writes the children identically in both
/// forms, so the outer text holds the inner text as a contiguous run
/// (a void element's inner text is empty). For a raw-text element the
/// two can differ: the inner form escapes the text, the outer form
/// writes it raw, so nothing is claimed there.
#[verifier::external_body]
fn select_inner(html: &scraper::Html, query: &scraper::Selector) -> (r: Vec<String>)
    ensures
        r@.len() == match_outers(*html, *query).len(),
        r@.len() == match_inners(*html, *query).len(),
        forall|i: int| 0 <= i < r@.len() ==> (#[trigger] r@[i])@ == match_inners(
            *html,
            *query,
        )[i],
        forall|i: int|
            0 <= i < r@.len() && !raw_text_outer(match_outers(*html, *query)[i])
                ==> contains_seq(match_outers(*html, *query)[i], (#[trigger] r@[i])@),
{
    html.select(query).map(|e| e.inner_html()).collect()
}

/// Relies on scraper's `Html::select` with `ElementRef::text`: the same
/// matches in the same order, each projected to the concatenation of
/// the text nodes under it, in document order, with no separators.
#[verifier::external_body]
fn select_text(html: &scraper::Html, query: &scraper::Selector) -> (r: Vec<String>)
    ensures
        r@.len() == match_outers(*html, *query).len(),
        r@.len() == match_texts(*html, *query).len(),
        forall|i: int| 0 <= i < r@.len() ==> (#[trigger] r@[i])@ == match_texts(
            *html,
            *query,
        )[i],
{
    html.select(query).map(|e| e.text().collect::<String>()).collect()
}

/// One matched element, carried as its three projections.
pub struct Match {
    pub outer: String,
    pub inner: String,
    pub text: String,
}

impl Match {
    /// The projections belong together: the outer serialization holds
    /// the inner one as a contiguous run between the element's tags.
    pub open spec fn wf(self) -> bool {
        contains_seq(self.outer@, self.inner@)
    }

    /// The matched element is a raw-text one, read off its outer
    /// serialization; only for such a match may `wf` fail.
    pub open spec fn raw_text(self) -> bool {
        raw_text_outer(self.outer@)
    }
}

/// The projection a content mode selects.
pub open spec fn extract_spec(m: Match, content: ContentMode) -> Seq<char> {
    match content {
        ContentMode::Outer => m.outer@,
        ContentMode::Inner => m.inner@,
        ContentMode::Text => m.text@,
    }
}

/// Project one match; a pure choice between the stored projections.
pub fn extract(m: &Match, content: &ContentMode) -> (r: String)
    ensures
        r@ == extract_spec(*m, *content),
{
    match content {
        ContentMode::Outer => m.outer.clone(),
        ContentMode::Inner => m.inner.clone(),
        ContentMode::Text => m.text.clone(),
    }
}

/// Compile a selector string. It succeeds exactly on the texts the
/// selector grammar accepts: the empty string always fails, a plain
/// ascii-letter type or class name always succeeds, and any error is
/// reported as a message, prefixed so the caller sees what was wrong.
pub fn parse_query(query: &str) -> (r: Result<scraper::Selector, String>)
    ensures
        r is Ok <==> selector_ok(query@),
        query@.len() == 0 ==> r is Err,
        is_type_name(query@) ==> r is Ok,
        is_class_name(query@) ==> r is Ok,
        r is Ok ==> r->Ok_0 == compiled_selector(query@),
{
    match selector_parse(query) {
        Ok(s) => Ok(s),
        Err(e) => {
            let mut msg = String::from_str("Invalid selector: ");
            msg.append(e.as_str());
            Err(msg)
        },
    }
}

/// Evaluate a selector against a document: all matches, in document
/// order, as their three projections, each well formed.
#[verifier::loop_isolation(false)]
pub fn select_matches(html: &scraper::Html, query: &scraper::Selector) -> (r: Vec<Match>)
    ensures
        r@.len() == match_outers(*html, *query).len(),
        match_inners(*html, *query).len() == match_outers(*html, *query).len(),
        match_texts(*html, *query).len() == match_outers(*html, *query).len(),
        forall|i: int| 0 <= i < r@.len() ==> {
            &&& (#[trigger] r@[i]).outer@ == match_outers(*html, *query)[i]
            &&& r@[i].inner@ == match_inners(*html, *query)[i]
            &&& r@[i].text@ == match_texts(*html, *query)[i]
            &&& (!r@[i].raw_text() ==> r@[i].wf())
        },
{
    let outers = select_outer(html, query);
    let inners = select_inner(html, query);
    let texts = select_text(html, query);
    let n = outers.len();
    let mut r: Vec<Match> = Vec::new();
    let mut i: usize = 0;
    while i < n
        invariant
            0 <= i <= n,
            r@.len() == i,
            forall|k: int| 0 <= k < i ==> {
                &&& (#[trigger] r@[k]).outer@ == match_outers(*html, *query)[k]
                &&& r@[k].inner@ == match_inners(*html, *query)[k]
                &&& r@[k].text@ == match_texts(*html, *query)[k]
                &&& (!r@[k].raw_text() ==> r@[k].wf())
            },
        decreases n - i,
    {
        let m = Match {
            outer: outers[i].clone(),
            inner: inners[i].clone(),
            text: texts[i].clone(),
        };
        proof {
            assert(m.outer@ == match_outers(*html, *query)[i as int]);
            assert(m.inner@ == inners@[i as int]@);
            assert(!m.raw_text() ==> m.wf());
        }
        r.push(m);
        i += 1;
    }
    r
}

/// The projection sequence a content mode selects, over the whole match
/// list.
pub open spec fn projected(
    h: scraper::Html,
    q: scraper::Selector,
    content: ContentMode,
) -> Seq<Seq<char>> {
    match content {
        ContentMode::Outer => match_outers(h, q),
        ContentMode::Inner => match_inners(h, q),
        ContentMode::Text => match_texts(h, q),
    }
}

/// First-match selection keeps at most the first element; all-match
/// selection keeps everything.
pub open spec fn selected(xs: Seq<Seq<char>>, select: SelectMode) -> Seq<Seq<char>> {
    if select is One && xs.len() > 1 {
        xs.take(1)
    } else {
        xs
    }
}

/// The views of a string sequence.
pub open spec fn string_views(v: Seq<String>) -> Seq<Seq<char>> {
    Seq::new(v.len(), |i: int| v[i]@)
}

/// Evaluate a compiled selector and project each visited match. Never
/// fails; the match sequence is truncated to at most one element
/// exactly when the first-match mode is chosen.
#[verifier::loop_isolation(false)]
pub fn query_html(
    html: &scraper::Html,
    query: &scraper::Selector,
    select: SelectMode,
    content: ContentMode,
) -> (r: Result<Vec<String>, String>)
    ensures
        r is Ok,
        string_views((r->Ok_0)@) == selected(projected(*html, *query, content), select),
{
    let ms = select_matches(html, query);
    let mut res: Vec<String> = Vec::new();
    let n = ms.len();
    let ghost full: Seq<Seq<char>> = projected(*html, *query, content);
    if matches!(select, SelectMode::One) {
        if n > 0 {
            res.push(extract(&ms[0], &content));
        }
        proof {
            assert(string_views(res@) =~= selected(full, select));
        }
    } else {
        let mut i: usize = 0;
        while i < n
            invariant
                0 <= i <= n,
                res@.len() == i,
                forall|k: int| 0 <= k < i ==> (#[trigger] res@[k])@ == full[k],
            decreases n - i,
        {
            res.push(extract(&ms[i], &content));
            i += 1;
        }
        proof {
            assert(string_views(res@) =~= selected(full, select));
        }
    }
    Ok(res)
}

/// Law: the inner projection of a well-formed match occurs inside its
/// outer projection as a contiguous substring. `select_matches`
/// establishes well-formedness for every match except of a raw-text
/// element, where the serializer escapes the inner form and the
/// relation can genuinely fail.
pub proof fn lemma_inner_within_outer(m: Match)
    requires
        m.wf(),
    ensures
        contains_seq(extract_spec(m, ContentMode::Outer), extract_spec(m, ContentMode::Inner)),
{
    assert(extract_spec(m, ContentMode::Outer) == m.outer@);
    assert(extract_spec(m, ContentMode::Inner) == m.inner@);
}

/// Law: first-match selection yields at most one element, and exactly
/// the first match when any exists; all-match selection never
/// truncates. Selection only ever takes a prefix: it cannot reorder.
pub proof fn lemma_select_mode(xs: Seq<Seq<char>>)
    ensures
        selected(xs, SelectMode::One).len() <= 1,
        xs.len() >= 1 ==> selected(xs, SelectMode::One) == seq![xs[0]],
        selected(xs, SelectMode::All) == xs,
        selected(xs, SelectMode::One).is_prefix_of(xs),
{
    if xs.len() >= 1 {
        assert(selected(xs, SelectMode::One) =~= seq![xs[0]]);
    }
}

} // verus!
