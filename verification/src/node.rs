//! The tree model: nodes, elements and their mathematical views.
//!
//! A document is a forest, an ordered `Vec<DomNode>`. Every node owns its
//! children, so a tree has neither sharing nor cycles. Contracts speak of a
//! node through its view, a value made of sequences only; `==` on nodes is
//! equality of views.

use vstd::prelude::*;
use vstd::std_specs::cmp::PartialEqSpecImpl;

verus! {

/// The document type declaration that a document may open with.
#[derive(Debug)]
pub enum Doctype {
    Html,
    Xml { version: String, encoding: String },
}

/// An element: a tag name, its attributes in source order, and its children
/// in document order.
#[derive(Debug)]
pub struct Element {
    pub name: String,
    pub attrs: Vec<(String, String)>,
    pub children: Vec<DomNode>,
}

/// One node of a document tree. Only an element has a name, attributes and
/// children; the other kinds are leaves.
#[derive(Debug)]
pub enum DomNode {
    Element(Element),
    Text(String),
    Comment(String),
    Doctype(Doctype),
}

/// What a `Doctype` stands for.
pub enum DoctypeView {
    Html,
    Xml { version: Seq<char>, encoding: Seq<char> },
}

/// What an `Element` stands for.
pub struct ElementView {
    pub name: Seq<char>,
    pub attrs: Seq<(Seq<char>, Seq<char>)>,
    pub children: Seq<DomNodeView>,
}

/// What a `DomNode` stands for.
pub enum DomNodeView {
    Element(ElementView),
    Text(Seq<char>),
    Comment(Seq<char>),
    Doctype(DoctypeView),
}

impl DeepView for Doctype {
    type V = DoctypeView;

    open spec fn deep_view(&self) -> DoctypeView {
        match self {
            Doctype::Html => DoctypeView::Html,
            Doctype::Xml { version, encoding } => DoctypeView::Xml {
                version: version@,
                encoding: encoding@,
            },
        }
    }
}

impl DeepView for Element {
    type V = ElementView;

    open spec fn deep_view(&self) -> ElementView
        decreases self,
    {
        ElementView {
            name: self.name@,
            attrs: self.attrs.deep_view(),
            children: Seq::new(
                self.children@.len(),
                |i: int|
                    if 0 <= i < self.children@.len() {
                        self.children@[i].deep_view()
                    } else {
                        arbitrary()
                    },
            ),
        }
    }
}

impl DeepView for DomNode {
    type V = DomNodeView;

    open spec fn deep_view(&self) -> DomNodeView
        decreases self,
    {
        match self {
            DomNode::Element(element) => DomNodeView::Element(element.deep_view()),
            DomNode::Text(text) => DomNodeView::Text(text@),
            DomNode::Comment(comment) => DomNodeView::Comment(comment@),
            DomNode::Doctype(doctype) => DomNodeView::Doctype(doctype.deep_view()),
        }
    }
}

impl View for Doctype {
    type V = DoctypeView;

    #[verifier::inline]
    open spec fn view(&self) -> DoctypeView {
        self.deep_view()
    }
}

impl View for Element {
    type V = ElementView;

    #[verifier::inline]
    open spec fn view(&self) -> ElementView {
        self.deep_view()
    }
}

impl View for DomNode {
    type V = DomNodeView;

    #[verifier::inline]
    open spec fn view(&self) -> DomNodeView {
        self.deep_view()
    }
}

/// The children of an element's view are the views of its children.
pub proof fn element_children_view(element: &Element)
    ensures
        element@.children == element.children.deep_view(),
{
    assert(element@.children =~= element.children.deep_view());
}

/// Copies a list of attributes, keeping keys, values and order.
pub fn clone_attrs(attrs: &Vec<(String, String)>) -> (copy: Vec<(String, String)>)
    ensures
        copy.deep_view() == attrs.deep_view(),
{
    let mut copy: Vec<(String, String)> = Vec::new();
    let mut i: usize = 0;
    while i < attrs.len()
        invariant
            i <= attrs.len(),
            copy.len() == i,
            forall|j: int| 0 <= j < i ==> copy@[j].deep_view() == attrs@[j].deep_view(),
        decreases attrs.len() - i,
    {
        let pair = &attrs[i];
        copy.push((pair.0.clone(), pair.1.clone()));
        i += 1;
    }
    assert(copy.deep_view() =~= attrs.deep_view());
    copy
}

/// Copies a forest, tree by tree.
pub fn clone_forest(nodes: &Vec<DomNode>) -> (copy: Vec<DomNode>)
    ensures
        copy.deep_view() == nodes.deep_view(),
    decreases nodes,
{
    let mut copy: Vec<DomNode> = Vec::new();
    let mut i: usize = 0;
    while i < nodes.len()
        invariant
            i <= nodes.len(),
            copy.len() == i,
            forall|j: int| 0 <= j < i ==> copy@[j]@ == nodes@[j]@,
        decreases nodes.len() - i,
    {
        copy.push(nodes[i].clone());
        i += 1;
    }
    assert(copy.deep_view() =~= nodes.deep_view());
    copy
}

impl Clone for Doctype {
    fn clone(&self) -> (copy: Self)
        ensures
            copy@ == self@,
    {
        match self {
            Doctype::Html => Doctype::Html,
            Doctype::Xml { version, encoding } => Doctype::Xml {
                version: version.clone(),
                encoding: encoding.clone(),
            },
        }
    }
}

impl Clone for Element {
    /// A deep copy: the clone shares nothing with `self`.
    fn clone(&self) -> (copy: Self)
        ensures
            copy@ == self@,
        decreases self,
    {
        let copy = Element {
            name: self.name.clone(),
            attrs: clone_attrs(&self.attrs),
            children: clone_forest(&self.children),
        };
        proof {
            element_children_view(self);
            element_children_view(&copy);
        }
        copy
    }
}

impl Clone for DomNode {
    /// A deep copy: the clone shares nothing with `self`.
    fn clone(&self) -> (copy: Self)
        ensures
            copy@ == self@,
        decreases self,
    {
        match self {
            DomNode::Element(element) => DomNode::Element(element.clone()),
            DomNode::Text(text) => DomNode::Text(text.clone()),
            DomNode::Comment(comment) => DomNode::Comment(comment.clone()),
            DomNode::Doctype(doctype) => DomNode::Doctype(doctype.clone()),
        }
    }
}

/// Compares two lists of attributes: the same keys with the same values, in
/// the same order.
pub fn attrs_equal(left: &Vec<(String, String)>, right: &Vec<(String, String)>) -> (same: bool)
    ensures
        same == (left.deep_view() == right.deep_view()),
{
    if left.len() != right.len() {
        assert(left.deep_view().len() != right.deep_view().len());
        return false;
    }
    let mut i: usize = 0;
    while i < left.len()
        invariant
            i <= left.len(),
            left.len() == right.len(),
            forall|j: int| 0 <= j < i ==> left@[j].deep_view() == right@[j].deep_view(),
        decreases left.len() - i,
    {
        let l = &left[i];
        let r = &right[i];
        if !(l.0 == r.0 && l.1 == r.1) {
            assert(left.deep_view()[i as int] != right.deep_view()[i as int]);
            return false;
        }
        i += 1;
    }
    assert(left.deep_view() =~= right.deep_view());
    true
}

/// Compares two forests: the same trees in the same order.
pub fn forest_equal(left: &Vec<DomNode>, right: &Vec<DomNode>) -> (same: bool)
    ensures
        same == (left.deep_view() == right.deep_view()),
    decreases left,
{
    if left.len() != right.len() {
        assert(left.deep_view().len() != right.deep_view().len());
        return false;
    }
    let mut i: usize = 0;
    while i < left.len()
        invariant
            i <= left.len(),
            left.len() == right.len(),
            forall|j: int| 0 <= j < i ==> left@[j]@ == right@[j]@,
        decreases left.len() - i,
    {
        if !left[i].same_as(&right[i]) {
            assert(left.deep_view()[i as int] != right.deep_view()[i as int]);
            return false;
        }
        i += 1;
    }
    assert(left.deep_view() =~= right.deep_view());
    true
}

impl Doctype {
    /// Structural equality.
    pub fn same_as(&self, other: &Doctype) -> (same: bool)
        ensures
            same == (self@ == other@),
    {
        match (self, other) {
            (Doctype::Html, Doctype::Html) => true,
            (
                Doctype::Xml { version: v1, encoding: e1 },
                Doctype::Xml { version: v2, encoding: e2 },
            ) => *v1 == *v2 && *e1 == *e2,
            _ => false,
        }
    }
}

impl Element {
    /// Makes an element from its parts.
    pub fn new(name: &str, attrs: Vec<(&str, &str)>, children: Vec<DomNode>) -> (element: Element)
        ensures
            element@.name == name@,
            element@.attrs == attrs.deep_view(),
            element@.children == children.deep_view(),
    {
        let mut owned: Vec<(String, String)> = Vec::new();
        let mut i: usize = 0;
        while i < attrs.len()
            invariant
                i <= attrs.len(),
                owned.len() == i,
                forall|j: int| 0 <= j < i ==> owned@[j].deep_view() == attrs@[j].deep_view(),
            decreases attrs.len() - i,
        {
            let pair = attrs[i];
            owned.push((pair.0.to_owned(), pair.1.to_owned()));
            i += 1;
        }
        assert(owned.deep_view() =~= attrs.deep_view());
        let element = Element { name: name.to_owned(), attrs: owned, children };
        proof {
            element_children_view(&element);
        }
        element
    }

    /// Wraps the element as a node. Nothing is lost: `into_element` gives it
    /// back.
    pub fn into_node(self) -> (node: DomNode)
        ensures
            node == DomNode::Element(self),
    {
        DomNode::Element(self)
    }

    /// Structural equality: the same name, the same attributes in the same
    /// order, and the same children in the same order.
    pub fn same_as(&self, other: &Element) -> (same: bool)
        ensures
            same == (self@ == other@),
        decreases self,
    {
        proof {
            element_children_view(self);
            element_children_view(other);
        }
        self.name == other.name && attrs_equal(&self.attrs, &other.attrs) && forest_equal(
            &self.children,
            &other.children,
        )
    }
}

impl DomNode {
    /// Makes an element node from its parts.
    pub fn new_element(name: &str, attrs: Vec<(&str, &str)>, children: Vec<DomNode>) -> (node: DomNode)
        ensures
            node@ == DomNodeView::Element(
                ElementView {
                    name: name@,
                    attrs: attrs.deep_view(),
                    children: children.deep_view(),
                },
            ),
    {
        DomNode::Element(Element::new(name, attrs, children))
    }

    /// Tells whether the node is an element.
    pub fn is_element(&self) -> (answer: bool)
        ensures
            answer == (self is Element),
            answer == (self@ is Element),
    {
        match self {
            DomNode::Element(_) => true,
            _ => false,
        }
    }

    /// The element that the node is, if it is one.
    pub fn as_element(&self) -> (element: Option<&Element>)
        ensures
            element == match self {
                DomNode::Element(inner) => Some(inner),
                _ => None::<&Element>,
            },
    {
        match self {
            DomNode::Element(inner) => Some(inner),
            _ => None,
        }
    }

    /// Takes the node apart: the element that it is, or `None` for a node of
    /// another kind.
    pub fn into_element(self) -> (element: Option<Element>)
        ensures
            element == match self {
                DomNode::Element(inner) => Some(inner),
                _ => None::<Element>,
            },
    {
        match self {
            DomNode::Element(inner) => Some(inner),
            _ => None,
        }
    }

    /// Structural equality: the same kind of node with the same content, all
    /// the way down.
    pub fn same_as(&self, other: &DomNode) -> (same: bool)
        ensures
            same == (self@ == other@),
        decreases self,
    {
        match (self, other) {
            (DomNode::Element(l), DomNode::Element(r)) => l.same_as(r),
            (DomNode::Text(l), DomNode::Text(r)) => *l == *r,
            (DomNode::Comment(l), DomNode::Comment(r)) => *l == *r,
            (DomNode::Doctype(l), DomNode::Doctype(r)) => l.same_as(r),
            _ => false,
        }
    }
}

impl PartialEq for Doctype {
    fn eq(&self, other: &Self) -> (same: bool) {
        self.same_as(other)
    }
}

impl PartialEqSpecImpl for Doctype {
    open spec fn obeys_eq_spec() -> bool {
        true
    }

    open spec fn eq_spec(&self, other: &Self) -> bool {
        self@ == other@
    }
}

impl PartialEq for Element {
    fn eq(&self, other: &Self) -> (same: bool) {
        self.same_as(other)
    }
}

impl PartialEqSpecImpl for Element {
    open spec fn obeys_eq_spec() -> bool {
        true
    }

    open spec fn eq_spec(&self, other: &Self) -> bool {
        self@ == other@
    }
}

impl PartialEq for DomNode {
    fn eq(&self, other: &Self) -> (same: bool) {
        self.same_as(other)
    }
}

impl PartialEqSpecImpl for DomNode {
    open spec fn obeys_eq_spec() -> bool {
        true
    }

    open spec fn eq_spec(&self, other: &Self) -> bool {
        self@ == other@
    }
}

impl Eq for Doctype {

}

impl Eq for Element {

}

impl Eq for DomNode {

}

} // verus!
