//! The document tree that rendering walks: a fragment is a sequence of
//! nodes under a document root, and a node is an element with ordered
//! attributes and children, a text run, or a comment.

use vstd::prelude::*;

verus! {

/// One attribute of an element; attribute order is kept as parsed.

pub struct Attr {
    pub name: String,
    pub value: String,
}

/// A node of the parsed fragment. Anything the parser yields that is
/// neither element, text nor comment (a doctype, say) carries nothing
/// and is held as an empty text run, which renders to nothing.

pub enum DomNode {
    Element { tag: String, attrs: Vec<Attr>, children: Vec<DomNode> },
    Text { text: String },
    Comment { text: String },
}

/// The document root. It is never rendered itself; only its children
/// are. Fragment parsing puts a synthetic `html` element here.

pub struct Doc {
    pub children: Vec<DomNode>,
}

} // verus!
