//! The rewrite engine: replaces every selected element of a forest.

use vstd::prelude::*;
use crate::node::{clone_attrs, element_children_view, DomNode, DomNodeView, Element, ElementView};
use crate::laws::{rewrite_without_match_is_identity, unselected_sibling_is_untouched};
use crate::selector::{Selector, SelectorView};

verus! {

/// What one node becomes. A selected element gives way to `replacement`, with
/// all that was below it. Any other element keeps its name and attributes and
/// has its children rewritten in turn. A node that is no element stays.
pub open spec fn rewrite_node(node: DomNodeView, selector: SelectorView, replacement: DomNodeView) -> DomNodeView
    decreases node,
{
    match node {
        DomNodeView::Element(element) => if selector.matches(element) {
            replacement
        } else {
            DomNodeView::Element(
                ElementView {
                    name: element.name,
                    attrs: element.attrs,
                    children: rewrite_forest(element.children, selector, replacement),
                },
            )
        },
        _ => node,
    }
}

/// What a sequence of siblings becomes: each node is rewritten in its place.
pub open spec fn rewrite_forest(
    nodes: Seq<DomNodeView>,
    selector: SelectorView,
    replacement: DomNodeView,
) -> Seq<DomNodeView>
    decreases nodes,
{
    Seq::new(
        nodes.len(),
        |i: int|
            if 0 <= i < nodes.len() {
                rewrite_node(nodes[i], selector, replacement)
            } else {
                arbitrary()
            },
    )
}

/// Whether `node`, or anything below it, is an element that `selector` picks.
pub open spec fn node_has_match(node: DomNodeView, selector: SelectorView) -> bool
    decreases node,
{
    match node {
        DomNodeView::Element(element) => selector.matches(element) || forest_has_match(
            element.children,
            selector,
        ),
        _ => false,
    }
}

/// Whether any tree of the forest holds an element that `selector` picks.
pub open spec fn forest_has_match(nodes: Seq<DomNodeView>, selector: SelectorView) -> bool
    decreases nodes,
{
    exists|i: int| 0 <= i < nodes.len() && node_has_match(nodes[i], selector)
}

/// Rewrites a forest: the result holds, place for place, a copy of
/// `replacement` where `selector` picks an element, and elsewhere a copy of
/// the node with its children rewritten in the same way. A selected element
/// goes with all that is below it; every other element is searched, however
/// deep, so the call nests as deep as the document does.
///
/// The input is left as it is, and the result shares nothing with it nor with
/// `replacement`.
pub fn rewrite(nodes: &Vec<DomNode>, selector: &Selector, replacement: &DomNode) -> (out: Vec<DomNode>)
    ensures
        out.deep_view() == rewrite_forest(nodes.deep_view(), selector@, replacement@),
        out.len() == nodes.len(),
        !forest_has_match(nodes.deep_view(), selector@) ==> out.deep_view() == nodes.deep_view(),
        forall|i: int|
            0 <= i < nodes.len() && !node_has_match(nodes@[i]@, selector@) ==> out@[i]@
                == nodes@[i]@,
    decreases nodes,
{
    let mut out: Vec<DomNode> = Vec::new();
    let mut i: usize = 0;
    while i < nodes.len()
        invariant
            i <= nodes.len(),
            out.len() == i,
            forall|j: int|
                0 <= j < i ==> out@[j]@ == rewrite_node(
                    nodes@[j]@,
                    selector@,
                    replacement@,
                ),
        decreases nodes.len() - i,
    {
        let rewritten = match &nodes[i] {
            DomNode::Element(element) => {
                if selector.matches(element) {
                    replacement.clone()
                } else {
                    let children = rewrite(&element.children, selector, replacement);
                    let kept = Element {
                        name: element.name.clone(),
                        attrs: clone_attrs(&element.attrs),
                        children,
                    };
                    proof {
                        element_children_view(element);
                        element_children_view(&kept);
                    }
                    DomNode::Element(kept)
                }
            },
            other => other.clone(),
        };
        out.push(rewritten);
        i += 1;
    }
    proof {
        assert(out.deep_view() =~= rewrite_forest(nodes.deep_view(), selector@, replacement@));
        if !forest_has_match(nodes.deep_view(), selector@) {
            rewrite_without_match_is_identity(nodes.deep_view(), selector@, replacement@);
        }
        assert forall|i: int|
            0 <= i < nodes.len() && !node_has_match(nodes@[i]@, selector@) implies out@[i]@
            == nodes@[i]@ by {
            unselected_sibling_is_untouched(nodes.deep_view(), selector@, replacement@, i);
        }
    }
    out
}

/// Rewriting in place, for the values that hold nodes.
pub trait ReplaceQuery: Sized {
    /// Whether `self` is what `before` becomes when every element below it
    /// that `selector` picks gives way to `new_node`.
    spec fn is_rewrite_of(&self, before: &Self, selector: SelectorView, new_node: DomNodeView) -> bool;

    /// Replaces, in place, every element that `selector` picks by a copy of
    /// `new_node`.
    fn query_replace(&mut self, selector: &Selector, new_node: &DomNode)
        ensures
            final(self).is_rewrite_of(old(self), selector@, new_node@),
    ;
}

impl ReplaceQuery for Vec<DomNode> {
    /// The forest after is the rewrite of the forest before.
    open spec fn is_rewrite_of(&self, before: &Self, selector: SelectorView, new_node: DomNodeView) -> bool {
        self.deep_view() == rewrite_forest(before.deep_view(), selector, new_node)
    }

    fn query_replace(&mut self, selector: &Selector, new_node: &DomNode) {
        let out = rewrite(self, selector, new_node);
        *self = out;
    }
}

impl ReplaceQuery for Element {
    /// The element keeps its name and attributes, whether or not the selector
    /// picks the element itself; its children after are the rewrite of its
    /// children before.
    open spec fn is_rewrite_of(&self, before: &Self, selector: SelectorView, new_node: DomNodeView) -> bool {
        &&& self@.name == before@.name
        &&& self@.attrs == before@.attrs
        &&& self@.children == rewrite_forest(before@.children, selector, new_node)
    }

    fn query_replace(&mut self, selector: &Selector, new_node: &DomNode) {
        proof {
            element_children_view(self);
        }
        self.children.query_replace(selector, new_node);
        proof {
            element_children_view(self);
        }
    }
}

} // verus!
