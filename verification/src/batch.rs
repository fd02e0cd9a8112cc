//! One run over a set of documents: the header fragment is checked once,
//! the files to rewrite are picked by their extension, and each document has
//! its header replaced and is written out as text again.

use vstd::prelude::*;
use vstd::string::StringExecFns;
use crate::html::{forest_html, html_text};
use crate::node::{DomNode, DomNodeView};
use crate::rewrite::{rewrite, rewrite_forest};
use crate::selector::{Selector, SelectorView};

verus! {

/// The tag of the element that a run replaces, and that the header fragment
/// has to be.
pub const HEADER_TAG: &'static str = "head";

/// The extension of the files that a run rewrites.
pub const HTML_EXTENSION: &'static str = "htm";

/// Why a header fragment cannot be used.
#[derive(Debug)]
pub enum ConfigurationError {
    /// The fragment holds no node at all.
    Empty,
    /// The first node of the fragment is no element.
    NotElement,
    /// The first node of the fragment is an element of another name.
    NotHeader { name: String },
    /// The fragment opens with the header element, and holds more after it.
    NotSingle,
}

/// What a `ConfigurationError` stands for.
pub enum ConfigurationErrorView {
    Empty,
    NotElement,
    NotHeader { name: Seq<char> },
    NotSingle,
}

impl View for ConfigurationError {
    type V = ConfigurationErrorView;

    open spec fn view(&self) -> ConfigurationErrorView {
        match self {
            ConfigurationError::Empty => ConfigurationErrorView::Empty,
            ConfigurationError::NotElement => ConfigurationErrorView::NotElement,
            ConfigurationError::NotHeader { name } => ConfigurationErrorView::NotHeader {
                name: name@,
            },
            ConfigurationError::NotSingle => ConfigurationErrorView::NotSingle,
        }
    }
}

/// The header node that a fragment gives. The fragment has to be one node,
/// an element named `HEADER_TAG`, and then gives that node. Any other
/// fragment gives an error, after its first fault: it holds nothing, or it
/// opens with a node that is no element, or with an element of another
/// name, or it goes on after the header element.
pub open spec fn header_of(fragment: Seq<DomNodeView>) -> Result<DomNodeView, ConfigurationErrorView> {
    if fragment.len() == 0 {
        Err(ConfigurationErrorView::Empty)
    } else {
        match fragment[0] {
            DomNodeView::Element(element) => if element.name != HEADER_TAG@ {
                Err(ConfigurationErrorView::NotHeader { name: element.name })
            } else if fragment.len() > 1 {
                Err(ConfigurationErrorView::NotSingle)
            } else {
                Ok(fragment[0])
            },
            _ => Err(ConfigurationErrorView::NotElement),
        }
    }
}

/// A fragment gives a header node if and only if it is a single element
/// named `HEADER_TAG`, and the node that it gives is that element.
pub proof fn header_is_single_head_element(fragment: Seq<DomNodeView>)
    ensures
        header_of(fragment) is Ok <==> {
            &&& fragment.len() == 1
            &&& fragment[0] is Element
            &&& fragment[0]->Element_0.name == HEADER_TAG@
        },
        header_of(fragment) is Ok ==> header_of(fragment) == Ok::<
            DomNodeView,
            ConfigurationErrorView,
        >(fragment[0]),
{
}

/// What the outcome of `get_header_node` stands for.
pub open spec fn header_view(header: Result<DomNode, ConfigurationError>) -> Result<
    DomNodeView,
    ConfigurationErrorView,
> {
    match header {
        Ok(node) => Ok(node@),
        Err(error) => Err(error@),
    }
}

/// Takes the header node out of a parsed header fragment, which has to be
/// that one element and nothing else, or says why the fragment cannot serve.
pub fn get_header_node(fragment: &Vec<DomNode>) -> (header: Result<DomNode, ConfigurationError>)
    ensures
        header_view(header) == header_of(fragment.deep_view()),
        header is Ok <==> {
            &&& fragment.len() == 1
            &&& fragment@[0]@ is Element
            &&& fragment@[0]@->Element_0.name == HEADER_TAG@
        },
        header matches Ok(node) ==> node@ == fragment@[0]@,
{
    proof {
        header_is_single_head_element(fragment.deep_view());
    }
    if fragment.len() == 0 {
        return Err(ConfigurationError::Empty);
    }
    match &fragment[0] {
        DomNode::Element(element) => {
            if !Selector::from(HEADER_TAG).matches(element) {
                Err(ConfigurationError::NotHeader { name: element.name.clone() })
            } else if fragment.len() > 1 {
                Err(ConfigurationError::NotSingle)
            } else {
                Ok(fragment[0].clone())
            }
        },
        _ => Err(ConfigurationError::NotElement),
    }
}

impl ConfigurationError {
    /// The error in words.
    pub fn message(&self) -> (text: String)
        ensures
            text@ == match self@ {
                ConfigurationErrorView::Empty => "header fragment is empty"@,
                ConfigurationErrorView::NotElement => "node is not element"@,
                ConfigurationErrorView::NotHeader { name } => "Element \""@ + name + "\" is not header"@,
                ConfigurationErrorView::NotSingle => "header fragment is not a single element"@,
            },
    {
        match self {
            ConfigurationError::Empty => String::from_str("header fragment is empty"),
            ConfigurationError::NotElement => String::from_str("node is not element"),
            ConfigurationError::NotHeader { name } => {
                let mut text = String::from_str("Element \"");
                text.append(name.as_str());
                text.append("\" is not header");
                text
            },
            ConfigurationError::NotSingle => String::from_str(
                "header fragment is not a single element",
            ),
        }
    }
}

/// What `replace_elements` writes for a document: the text of the forest in
/// which every element named `tag` has given way to `header`.
pub open spec fn replaced_text(document: Seq<DomNodeView>, tag: Seq<char>, header: DomNodeView) -> Seq<char> {
    html_text(rewrite_forest(document, SelectorView { tag }, header))
}

/// Replaces every element named `selector` in a parsed document by a copy of
/// `header_node`, and writes the result out as markup.
pub fn replace_elements(document: &Vec<DomNode>, selector: &str, header_node: &DomNode) -> (html: String)
    ensures
        html@ == replaced_text(document.deep_view(), selector@, header_node@),
{
    let selector = Selector::from(selector);
    let rewritten = rewrite(document, &selector, header_node);
    forest_html(&rewritten)
}

/// Tells whether a file with this extension is one that a run rewrites:
/// the extension is `HTML_EXTENSION`, letter for letter.
pub fn is_html_file(extension: &str) -> (accepted: bool)
    ensures
        accepted == (extension@ == HTML_EXTENSION@),
{
    String::from_str(extension) == String::from_str(HTML_EXTENSION)
}

} // verus!
