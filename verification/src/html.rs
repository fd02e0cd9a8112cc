//! The way back to text: serialisation by the `html_editor` crate.
//!
//! Nothing in this module is proved. The library hands a forest over, gets
//! text back, and gives that text a name, so that the contracts of its
//! callers can say which forest was written out.

use vstd::prelude::*;
use html_editor::operation::Htmlifiable;
use crate::node::{Doctype, DomNode, DomNodeView};

verus! {

/// The node type of `html_editor`. The library builds values of it to hand
/// them over and never looks into one.
#[verifier::external_type_specification]
#[verifier::external_body]
pub struct ExEditorNode(html_editor::Node);

/// The markup that `Htmlifiable::html` of `html_editor` writes for a forest.
pub uninterp spec fn html_text(nodes: Seq<DomNodeView>) -> Seq<char>;

/// Builds the `html_editor::Node` for one tree: the same kind of node with the
/// same content, child for child. No function of `html_editor` is called, and
/// nothing is claimed of the result.
#[verifier::external_body]
fn editor_node(node: &DomNode) -> html_editor::Node {
    match node {
        DomNode::Element(e) => html_editor::Node::Element {
            name: e.name.clone(),
            attrs: e.attrs.clone(),
            children: e.children.iter().map(editor_node).collect(),
        },
        DomNode::Text(text) => html_editor::Node::Text(text.clone()),
        DomNode::Comment(comment) => html_editor::Node::Comment(comment.clone()),
        DomNode::Doctype(Doctype::Html) => html_editor::Node::Doctype(html_editor::Doctype::Html),
        DomNode::Doctype(Doctype::Xml { version, encoding }) => html_editor::Node::Doctype(
            html_editor::Doctype::Xml { version: version.clone(), encoding: encoding.clone() },
        ),
    }
}

/// Calls `Htmlifiable::html` of `html_editor` on the forest, as a
/// `Vec<html_editor::Node>`. Believed of that call: it returns for every
/// forest, and the text that it returns depends on what the forest holds and
/// on nothing else. `html_text` is the name of that text.
#[verifier::external_body]
pub(crate) fn forest_html(nodes: &Vec<DomNode>) -> (text: String)
    ensures
        text@ == html_text(nodes.deep_view()),
{
    let forest: Vec<html_editor::Node> = nodes.iter().map(editor_node).collect();
    forest.html()
}

} // verus!
