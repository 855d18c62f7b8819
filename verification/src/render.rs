//! The tree renderer: a fragment of HTML text is re-parsed and then
//! serialized either as an indented multi-line tree or on a single
//! line. The synthetic `html` root that fragment parsing introduces is
//! emitted only on request.

use vstd::prelude::*;
use vstd::string::StringExecFns;

use crate::text::all_ws;
use crate::text::chars_of;
use crate::text::collapse_and_trim;
use crate::text::collapsed_trimmed;
use crate::text::string_of;
use crate::text::vec_all_ws;
use crate::tree::Attr;
use crate::tree::Doc;
use crate::tree::DomNode;

use html5ever::driver::ParseOpts;
use html5ever::parse_fragment;
use html5ever::tendril::TendrilSink;
use html5ever::LocalName;
use html5ever::QualName;
use markup5ever_rcdom::Handle;
use markup5ever_rcdom::NodeData;
use markup5ever_rcdom::RcDom;

verus! {

/// The serialized attribute list: one ` name="value"` piece per
/// attribute, in stored order.
pub open spec fn attrs_text(attrs: Seq<Attr>) -> Seq<char>
    decreases attrs.len(),
{
    if attrs.len() == 0 {
        Seq::empty()
    } else {
        attrs_text(attrs.drop_last()) + " "@ + attrs.last().name@ + "=\""@
            + attrs.last().value@ + "\""@
    }
}

/// An element's opening tag with its attributes.
pub open spec fn open_tag(tag: Seq<char>, attrs: Seq<Attr>) -> Seq<char> {
    "<"@ + tag + attrs_text(attrs) + ">"@
}

/// An element's closing tag.
pub open spec fn close_tag(tag: Seq<char>) -> Seq<char> {
    "</"@ + tag + ">"@
}

/// The synthetic `html` root sits at the top level of the walk and is
/// hidden unless the caller asks for it; its children are rendered
/// either way. Deeper elements are never hidden, whatever their name.
pub open spec fn root_hidden(tag: Seq<char>, show_root: bool, at_root: bool) -> bool {
    at_root && tag == "html"@ && !show_root
}

/// Indented form of one node. Text that is entirely whitespace is
/// suppressed; other text is emitted verbatim on its own line. Each
/// child level adds two spaces of indentation, also below nodes whose
/// own tags are hidden.
pub open spec fn render_node_ind(
    n: DomNode,
    ind: Seq<char>,
    show_root: bool,
    at_root: bool,
) -> Seq<char>
    decreases n, 1int,
{
    match n {
        DomNode::Text { text } => if all_ws(text@) {
            Seq::empty()
        } else {
            ind + text@ + "\n"@
        },
        DomNode::Comment { text } => ind + "<!-- "@ + text@ + " -->"@ + "\n"@,
        DomNode::Element { tag, attrs, children } => {
            let inner = render_nodes_ind(children@, ind + "  "@, show_root, false);
            if root_hidden(tag@, show_root, at_root) {
                inner
            } else {
                ind + open_tag(tag@, attrs@) + "\n"@ + inner + ind + close_tag(tag@) + "\n"@
            }
        },
    }
}

/// Indented form of a node sequence: each node's rendering, in order.
pub open spec fn render_nodes_ind(
    ns: Seq<DomNode>,
    ind: Seq<char>,
    show_root: bool,
    at_root: bool,
) -> Seq<char>
    decreases ns, 0int,
{
    if ns.len() == 0 {
        Seq::empty()
    } else {
        render_nodes_ind(ns.drop_last(), ind, show_root, at_root) + render_node_ind(
            ns.last(),
            ind,
            show_root,
            at_root,
        )
    }
}

/// Single-line form of one node. Text that is entirely whitespace is
/// suppressed; other text has newlines collapsed to spaces and the ends
/// trimmed. No separators are inserted between tokens.
pub open spec fn render_node_unind(n: DomNode, show_root: bool, at_root: bool) -> Seq<char>
    decreases n, 1int,
{
    match n {
        DomNode::Text { text } => if all_ws(text@) {
            Seq::empty()
        } else {
            collapsed_trimmed(text@)
        },
        DomNode::Comment { text } => "<!-- "@ + text@ + " -->"@,
        DomNode::Element { tag, attrs, children } => {
            let inner = render_nodes_unind(children@, show_root, false);
            if root_hidden(tag@, show_root, at_root) {
                inner
            } else {
                open_tag(tag@, attrs@) + inner + close_tag(tag@)
            }
        },
    }
}

/// Single-line form of a node sequence: each node's rendering, in order.
pub open spec fn render_nodes_unind(
    ns: Seq<DomNode>,
    show_root: bool,
    at_root: bool,
) -> Seq<char>
    decreases ns, 0int,
{
    if ns.len() == 0 {
        Seq::empty()
    } else {
        render_nodes_unind(ns.drop_last(), show_root, at_root) + render_node_unind(
            ns.last(),
            show_root,
            at_root,
        )
    }
}

/// Indented form of a whole fragment: the document node itself emits
/// nothing, and its children start one level deep.
pub open spec fn render_doc_ind(d: Doc, show_root: bool) -> Seq<char> {
    render_nodes_ind(d.children@, "  "@, show_root, true)
}

/// Single-line form of a whole fragment, terminated by one newline.
pub open spec fn render_doc_unind(d: Doc, show_root: bool) -> Seq<char> {
    render_nodes_unind(d.children@, show_root, true) + "\n"@
}

/// The rendering of a fragment in the chosen mode.
pub open spec fn rendered(d: Doc, indented: bool, show_root: bool) -> Seq<char> {
    if indented {
        render_doc_ind(d, show_root)
    } else {
        render_doc_unind(d, show_root)
    }
}

#[verifier::loop_isolation(false)]
fn append_attrs(out: &mut String, attrs: &Vec<Attr>)
    ensures
        final(out)@ == old(out)@ + attrs_text(attrs@),
{
    let n = attrs.len();
    let mut i: usize = 0;
    while i < n
        invariant
            n == attrs@.len(),
            0 <= i <= n,
            out@ == old(out)@ + attrs_text(attrs@.take(i as int)),
        decreases n - i,
    {
        let a = &attrs[i];
        out.append(" ");
        out.append(a.name.as_str());
        out.append("=\"");
        out.append(a.value.as_str());
        out.append("\"");
        proof {
            assert(attrs@.take(i + 1).drop_last() =~= attrs@.take(i as int));
            assert(attrs@.take(i + 1).last() == attrs@[i as int]);
            assert(out@ =~= old(out)@ + attrs_text(attrs@.take(i + 1)));
        }
        i += 1;
    }
    proof {
        assert(attrs@.take(n as int) =~= attrs@);
    }
}

#[verifier::loop_isolation(false)]
#[verifier::rlimit(100)]
fn render_children_ind(children: &Vec<DomNode>, child_ind: &String, show_root: bool, out: &mut String)
    ensures
        final(out)@ == old(out)@ + render_nodes_ind(children@, child_ind@, show_root, false),
    decreases *children, 0int,
{
    let n = children.len();
    let mut i: usize = 0;
    while i < n
        invariant
            n == children@.len(),
            0 <= i <= n,
            out@ == old(out)@ + render_nodes_ind(
                children@.take(i as int),
                child_ind@,
                show_root,
                false,
            ),
        decreases n - i,
    {
        proof {
            let idx: int = i as int;
            assert(decreases_to!(*children => children@));
            assert(decreases_to!(children@ => children@[idx]));
            assert(decreases_to!(*children => children@[idx]));
        }
        children[i].render_ind(child_ind, show_root, false, out);
        proof {
            assert(children@.take(i + 1).drop_last() =~= children@.take(i as int));
            assert(children@.take(i + 1).last() == children@[i as int]);
            assert(out@ =~= old(out)@ + render_nodes_ind(
                children@.take(i + 1),
                child_ind@,
                show_root,
                false,
            ));
        }
        i += 1;
    }
    proof {
        assert(children@.take(n as int) =~= children@);
    }
}

#[verifier::loop_isolation(false)]
#[verifier::rlimit(100)]
fn render_children_unind(children: &Vec<DomNode>, show_root: bool, out: &mut String)
    ensures
        final(out)@ == old(out)@ + render_nodes_unind(children@, show_root, false),
    decreases *children, 0int,
{
    let n = children.len();
    let mut i: usize = 0;
    while i < n
        invariant
            n == children@.len(),
            0 <= i <= n,
            out@ == old(out)@ + render_nodes_unind(children@.take(i as int), show_root, false),
        decreases n - i,
    {
        proof {
            let idx: int = i as int;
            assert(decreases_to!(*children => children@));
            assert(decreases_to!(children@ => children@[idx]));
            assert(decreases_to!(*children => children@[idx]));
        }
        children[i].render_unind(show_root, false, out);
        proof {
            assert(children@.take(i + 1).drop_last() =~= children@.take(i as int));
            assert(children@.take(i + 1).last() == children@[i as int]);
            assert(out@ =~= old(out)@ + render_nodes_unind(
                children@.take(i + 1),
                show_root,
                false,
            ));
        }
        i += 1;
    }
    proof {
        assert(children@.take(n as int) =~= children@);
    }
}

impl DomNode {
    /// Append this node's indented rendering to `out`.
    #[verifier::loop_isolation(false)]
    #[verifier::rlimit(100)]
    fn render_ind(&self, ind: &String, show_root: bool, at_root: bool, out: &mut String)
        ensures
            final(out)@ == old(out)@ + render_node_ind(*self, ind@, show_root, at_root),
        decreases *self, 1int,
    {
        match self {
            DomNode::Text { text } => {
                let cs = chars_of(text.as_str());
                if !vec_all_ws(&cs) {
                    out.append(ind.as_str());
                    out.append(text.as_str());
                    out.append("\n");
                }
                assert(out@ =~= old(out)@ + render_node_ind(*self, ind@, show_root, at_root));
            },
            DomNode::Comment { text } => {
                out.append(ind.as_str());
                out.append("<!-- ");
                out.append(text.as_str());
                out.append(" -->");
                out.append("\n");
                assert(out@ =~= old(out)@ + render_node_ind(*self, ind@, show_root, at_root));
            },
            DomNode::Element { tag, attrs, children } => {
                let html_name = String::from_str("html");
                let hide = at_root && !show_root && *tag == html_name;
                proof {
                    assert(hide == root_hidden(tag@, show_root, at_root));
                }
                if !hide {
                    out.append(ind.as_str());
                    out.append("<");
                    out.append(tag.as_str());
                    append_attrs(out, attrs);
                    out.append(">");
                    out.append("\n");
                }
                let mut child_ind = ind.clone();
                child_ind.append("  ");
                proof {
                    let ghost this: DomNode = *self;
                    assert(this is Element);
                    assert(decreases_to!(this => this->Element_children));
                    assert(decreases_to!(*self => *children));
                }
                render_children_ind(children, &child_ind, show_root, out);
                if !hide {
                    out.append(ind.as_str());
                    out.append("</");
                    out.append(tag.as_str());
                    out.append(">");
                    out.append("\n");
                }
                assert(out@ =~= old(out)@ + render_node_ind(*self, ind@, show_root, at_root));
            },
        }
    }

    /// Append this node's single-line rendering to `out`.
    #[verifier::loop_isolation(false)]
    #[verifier::rlimit(100)]
    fn render_unind(&self, show_root: bool, at_root: bool, out: &mut String)
        ensures
            final(out)@ == old(out)@ + render_node_unind(*self, show_root, at_root),
        decreases *self, 1int,
    {
        match self {
            DomNode::Text { text } => {
                let cs = chars_of(text.as_str());
                if !vec_all_ws(&cs) {
                    let collapsed = collapse_and_trim(&cs);
                    let piece = string_of(&collapsed);
                    out.append(piece.as_str());
                }
                assert(out@ =~= old(out)@ + render_node_unind(*self, show_root, at_root));
            },
            DomNode::Comment { text } => {
                out.append("<!-- ");
                out.append(text.as_str());
                out.append(" -->");
                assert(out@ =~= old(out)@ + render_node_unind(*self, show_root, at_root));
            },
            DomNode::Element { tag, attrs, children } => {
                let html_name = String::from_str("html");
                let hide = at_root && !show_root && *tag == html_name;
                proof {
                    assert(hide == root_hidden(tag@, show_root, at_root));
                }
                if !hide {
                    out.append("<");
                    out.append(tag.as_str());
                    append_attrs(out, attrs);
                    out.append(">");
                }
                proof {
                    let ghost this: DomNode = *self;
                    assert(this is Element);
                    assert(decreases_to!(this => this->Element_children));
                    assert(decreases_to!(*self => *children));
                }
                render_children_unind(children, show_root, out);
                if !hide {
                    out.append("</");
                    out.append(tag.as_str());
                    out.append(">");
                }
                assert(out@ =~= old(out)@ + render_node_unind(*self, show_root, at_root));
            },
        }
    }
}

impl Doc {
    /// Serialize the whole fragment in the chosen mode.
    #[verifier::loop_isolation(false)]
    pub fn render(&self, indented: bool, show_root: bool) -> (out: String)
        ensures
            out@ == rendered(*self, indented, show_root),
    {
        let mut out = String::new();
        let n = self.children.len();
        if indented {
            let ind = String::from_str("  ");
            let mut i: usize = 0;
            while i < n
                invariant
                    n == self.children@.len(),
                    0 <= i <= n,
                    ind@ == "  "@,
                    out@ == render_nodes_ind(
                        self.children@.take(i as int),
                        "  "@,
                        show_root,
                        true,
                    ),
                decreases n - i,
            {
                self.children[i].render_ind(&ind, show_root, true, &mut out);
                proof {
                    assert(self.children@.take(i + 1).drop_last() =~= self.children@.take(
                        i as int,
                    ));
                    assert(self.children@.take(i + 1).last() == self.children@[i as int]);
                    assert(out@ =~= render_nodes_ind(
                        self.children@.take(i + 1),
                        "  "@,
                        show_root,
                        true,
                    ));
                }
                i += 1;
            }
            proof {
                assert(self.children@.take(n as int) =~= self.children@);
            }
        } else {
            let mut i: usize = 0;
            while i < n
                invariant
                    n == self.children@.len(),
                    0 <= i <= n,
                    out@ == render_nodes_unind(
                        self.children@.take(i as int),
                        show_root,
                        true,
                    ),
                decreases n - i,
            {
                self.children[i].render_unind(show_root, true, &mut out);
                proof {
                    assert(self.children@.take(i + 1).drop_last() =~= self.children@.take(
                        i as int,
                    ));
                    assert(self.children@.take(i + 1).last() == self.children@[i as int]);
                    assert(out@ =~= render_nodes_unind(
                        self.children@.take(i + 1),
                        show_root,
                        true,
                    ));
                }
                i += 1;
            }
            proof {
                assert(self.children@.take(n as int) =~= self.children@);
            }
            out.append("\n");
        }
        out
    }
}

/// The tree that tolerant HTML5 fragment parsing yields for the given
/// text. Parsing never fails and depends on the text alone.
pub uninterp spec fn parsed_doc(s: Seq<char>) -> Doc;

/// Holds when the text contains none of the characters that the HTML
/// tokenizer treats specially at the top level: no tag or entity start,
/// no carriage return, no NUL.
pub open spec fn plain_text_chars(s: Seq<char>) -> bool {
    forall|i: int|
        0 <= i < s.len() ==> s[i] != '<' && s[i] != '&' && s[i] != '\r' && s[i] != '\u{0}'
}

/// The shape a markup-free fragment parses to: the synthetic `html`
/// root with no attributes, holding the text as its single child.
pub open spec fn text_only_doc(d: Doc, s: Seq<char>) -> bool {
    &&& d.children@.len() == 1
    &&& d.children@[0] is Element
    &&& d.children@[0]->Element_tag@ == "html"@
    &&& d.children@[0]->Element_attrs@.len() == 0
    &&& d.children@[0]->Element_children@.len() == 1
    &&& d.children@[0]->Element_children@[0] is Text
    &&& d.children@[0]->Element_children@[0]->Text_text@ == s
}

/// The reference-counted DOM node of `markup5ever_rcdom`, opaque here;
/// the conversion below is the only code that looks inside one.
#[verifier::external_type_specification]
#[verifier::external_body]
pub struct ExRcDomNode(markup5ever_rcdom::Node);

/// Relies on `markup5ever_rcdom`'s node structure: each node variant is
/// carried over field for field, in child order; a node that is neither
/// element, text nor comment (a doctype or processing instruction, which
/// have no children) becomes an empty text run, which renders to nothing.
#[verifier::external_body]
fn dom_node(h: &Handle) -> DomNode {
    match &h.data {
        NodeData::Element { name, attrs, .. } => {
            let tag = name.local.to_string();
            let attrs: Vec<Attr> = attrs.borrow().iter().map(
                |a| Attr { name: a.name.local.to_string(), value: a.value.to_string() },
            ).collect();
            DomNode::Element { tag, attrs, children: dom_children(h) }
        },
        NodeData::Text { contents } => DomNode::Text { text: contents.borrow().to_string() },
        NodeData::Comment { contents } => DomNode::Comment { text: contents.to_string() },
        _ => DomNode::Text { text: String::new() },
    }
}

/// Relies on `markup5ever_rcdom`'s child list: the node's children in
/// document order.
#[verifier::external_body]
fn dom_children(h: &Handle) -> Vec<DomNode> {
    h.children.borrow().iter().map(dom_node).collect()
}

/// Relies on html5ever's `parse_fragment` with the `markup5ever_rcdom`
/// sink: tolerant HTML5 fragment parsing never fails, is a function of
/// the text alone, hangs the fragment's nodes under a synthetic `html`
/// root element with no attributes, and keeps markup-free input as a
/// single text node under that root.
#[verifier::external_body]
pub fn parse_fragment_doc(html: &str) -> (d: Doc)
    ensures
        d == parsed_doc(html@),
        html@.len() > 0 && plain_text_chars(html@) ==> text_only_doc(d, html@),
{
    let mut opts = ParseOpts::default();
    opts.tree_builder.drop_doctype = true;
    let dom = parse_fragment(
        RcDom::default(),
        opts,
        QualName::new(None, Default::default(), LocalName::from("div")),
        vec![],
        false,
    ).from_utf8().one(html.as_bytes());
    Doc { children: dom_children(&dom.document) }
}

/// Re-parse a fragment and serialize it as an indented tree; the
/// synthetic root's own tags appear only when `wrap_with_html` is set.
pub fn parse_and_print_html_indented(html: &str, wrap_with_html: bool) -> (out: String)
    ensures
        out@ == render_doc_ind(parsed_doc(html@), wrap_with_html),
        html@.len() > 0 && plain_text_chars(html@) && !all_ws(html@) && !wrap_with_html
            ==> out@ == ("  "@ + "  "@) + html@ + "\n"@,
{
    let d = parse_fragment_doc(html);
    proof {
        if html@.len() > 0 && plain_text_chars(html@) && !all_ws(html@) {
            lemma_render_text_fragment(d, html@);
        }
    }
    d.render(true, wrap_with_html)
}

/// Re-parse a fragment and serialize it on a single newline-terminated
/// line; the synthetic root's own tags appear only when
/// `wrap_with_html` is set.
pub fn parse_and_print_html_unindented(html: &str, wrap_with_html: bool) -> (out: String)
    ensures
        out@ == render_doc_unind(parsed_doc(html@), wrap_with_html),
        html@.len() > 0 && plain_text_chars(html@) && !all_ws(html@) && !wrap_with_html
            ==> out@ == collapsed_trimmed(html@) + "\n"@,
{
    let d = parse_fragment_doc(html);
    proof {
        if html@.len() > 0 && plain_text_chars(html@) && !all_ws(html@) {
            lemma_render_text_fragment(d, html@);
        }
    }
    d.render(false, wrap_with_html)
}

/// Law: a fragment that is one non-blank text run under the hidden
/// synthetic root renders without any tag insertion: on a single line
/// it is the text, newline-collapsed and trimmed; indented it is the
/// text verbatim on its own line, two levels deep.
pub proof fn lemma_render_text_fragment(d: Doc, s: Seq<char>)
    requires
        text_only_doc(d, s),
        !all_ws(s),
    ensures
        render_doc_unind(d, false) == collapsed_trimmed(s) + "\n"@,
        render_doc_ind(d, false) == ("  "@ + "  "@) + s + "\n"@,
{
    reveal_with_fuel(render_nodes_unind, 3);
    reveal_with_fuel(render_node_unind, 3);
    reveal_with_fuel(render_nodes_ind, 3);
    reveal_with_fuel(render_node_ind, 3);
    let root = d.children@[0];
    let kids = root->Element_children@;
    let t = kids[0];
    assert(d.children@.drop_last() =~= Seq::<DomNode>::empty());
    assert(d.children@.last() == root);
    assert(kids.drop_last() =~= Seq::<DomNode>::empty());
    assert(kids.last() == t);
    assert(root_hidden(root->Element_tag@, false, true));

    assert(render_nodes_unind(kids, false, false) =~= collapsed_trimmed(s));
    assert(render_node_unind(root, false, true) =~= collapsed_trimmed(s));
    assert(render_doc_unind(d, false) =~= collapsed_trimmed(s) + "\n"@);

    let ind2 = "  "@ + "  "@;
    assert(render_node_ind(t, ind2, false, false) == ind2 + s + "\n"@);
    assert(render_nodes_ind(kids, ind2, false, false) =~= ind2 + s + "\n"@);
    assert(render_node_ind(root, "  "@, false, true) =~= ind2 + s + "\n"@);
    assert(render_doc_ind(d, false) =~= ("  "@ + "  "@) + s + "\n"@);
}

} // verus!
