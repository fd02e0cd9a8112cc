//! What holds of every rewrite, proved from the definitions in `rewrite`.

use vstd::prelude::*;
use crate::node::DomNodeView;
use crate::rewrite::{forest_has_match, node_has_match, rewrite_forest, rewrite_node};
use crate::selector::SelectorView;

verus! {

/// A rewrite keeps the number of siblings: each node of the input has one
/// node of the output in its place.
pub proof fn rewrite_keeps_length(nodes: Seq<DomNodeView>, selector: SelectorView, replacement: DomNodeView)
    ensures
        rewrite_forest(nodes, selector, replacement).len() == nodes.len(),
{
}

/// A tree in which the selector picks nothing comes out of a rewrite as it
/// went in.
pub proof fn rewrite_node_without_match_is_identity(
    node: DomNodeView,
    selector: SelectorView,
    replacement: DomNodeView,
)
    requires
        !node_has_match(node, selector),
    ensures
        rewrite_node(node, selector, replacement) == node,
    decreases node,
{
    match node {
        DomNodeView::Element(element) => {
            rewrite_without_match_is_identity(element.children, selector, replacement);
        },
        _ => {},
    }
}

/// A document in which the selector picks no element, at any depth, comes out
/// of a rewrite as it went in.
pub proof fn rewrite_without_match_is_identity(
    nodes: Seq<DomNodeView>,
    selector: SelectorView,
    replacement: DomNodeView,
)
    requires
        !forest_has_match(nodes, selector),
    ensures
        rewrite_forest(nodes, selector, replacement) == nodes,
    decreases nodes,
{
    assert forall|i: int| 0 <= i < nodes.len() implies rewrite_node(
        nodes[i],
        selector,
        replacement,
    ) == nodes[i] by {
        rewrite_node_without_match_is_identity(nodes[i], selector, replacement);
    }
    assert(rewrite_forest(nodes, selector, replacement) =~= nodes);
}

/// A selected element gives way to the replacement whatever it holds: its
/// children are dropped with it, and none of them is looked at.
pub proof fn selected_element_is_replaced(
    nodes: Seq<DomNodeView>,
    selector: SelectorView,
    replacement: DomNodeView,
    i: int,
)
    requires
        0 <= i < nodes.len(),
        nodes[i] is Element,
        selector.matches(nodes[i]->Element_0),
    ensures
        rewrite_forest(nodes, selector, replacement)[i] == replacement,
{
}

/// The siblings of a replaced node are untouched: a tree of the forest in
/// which the selector picks nothing stands in the output as it stood in the
/// input, whatever became of the trees beside it.
pub proof fn unselected_sibling_is_untouched(
    nodes: Seq<DomNodeView>,
    selector: SelectorView,
    replacement: DomNodeView,
    i: int,
)
    requires
        0 <= i < nodes.len(),
        !node_has_match(nodes[i], selector),
    ensures
        rewrite_forest(nodes, selector, replacement)[i] == nodes[i],
{
    rewrite_node_without_match_is_identity(nodes[i], selector, replacement);
}

/// With a replacement that holds no selected element, a rewritten tree holds
/// none either: every selected element was replaced, at every depth.
pub proof fn rewritten_node_has_no_match(
    node: DomNodeView,
    selector: SelectorView,
    replacement: DomNodeView,
)
    requires
        !node_has_match(replacement, selector),
    ensures
        !node_has_match(rewrite_node(node, selector, replacement), selector),
    decreases node,
{
    match node {
        DomNodeView::Element(element) => {
            rewritten_forest_has_no_match(element.children, selector, replacement);
        },
        _ => {},
    }
}

/// With a replacement that holds no selected element, a rewritten document
/// holds none either: every selected element was replaced, at every depth.
pub proof fn rewritten_forest_has_no_match(
    nodes: Seq<DomNodeView>,
    selector: SelectorView,
    replacement: DomNodeView,
)
    requires
        !node_has_match(replacement, selector),
    ensures
        !forest_has_match(rewrite_forest(nodes, selector, replacement), selector),
    decreases nodes,
{
    let out = rewrite_forest(nodes, selector, replacement);
    assert forall|i: int| 0 <= i < out.len() implies !node_has_match(out[i], selector) by {
        rewritten_node_has_no_match(nodes[i], selector, replacement);
    }
}

/// A second rewrite of a tree changes nothing, provided that a rewrite leaves
/// the replacement itself as it is.
pub proof fn second_rewrite_keeps_node(node: DomNodeView, selector: SelectorView, replacement: DomNodeView)
    requires
        rewrite_node(replacement, selector, replacement) == replacement,
    ensures
        rewrite_node(rewrite_node(node, selector, replacement), selector, replacement)
            == rewrite_node(node, selector, replacement),
    decreases node,
{
    match node {
        DomNodeView::Element(element) => {
            if !selector.matches(element) {
                second_rewrite_keeps_forest(element.children, selector, replacement);
            }
        },
        _ => {},
    }
}

/// A second rewrite of a forest changes nothing, provided that a rewrite
/// leaves the replacement itself as it is. That is so of a replacement in
/// which nothing is selected, and of one that is a selected element itself,
/// as a new `head` for every `head` is.
pub proof fn second_rewrite_keeps_forest(
    nodes: Seq<DomNodeView>,
    selector: SelectorView,
    replacement: DomNodeView,
)
    requires
        rewrite_node(replacement, selector, replacement) == replacement,
    ensures
        rewrite_forest(rewrite_forest(nodes, selector, replacement), selector, replacement)
            == rewrite_forest(nodes, selector, replacement),
    decreases nodes,
{
    let once = rewrite_forest(nodes, selector, replacement);
    assert forall|i: int| 0 <= i < once.len() implies rewrite_node(once[i], selector, replacement)
        == once[i] by {
        second_rewrite_keeps_node(nodes[i], selector, replacement);
    }
    assert(rewrite_forest(once, selector, replacement) =~= once);
}

/// Rewriting is idempotent: with a replacement that holds no selected
/// element, a second rewrite with the same selector and replacement changes
/// nothing.
pub proof fn rewrite_is_idempotent(nodes: Seq<DomNodeView>, selector: SelectorView, replacement: DomNodeView)
    requires
        !node_has_match(replacement, selector),
    ensures
        rewrite_forest(rewrite_forest(nodes, selector, replacement), selector, replacement)
            == rewrite_forest(nodes, selector, replacement),
{
    rewrite_node_without_match_is_identity(replacement, selector, replacement);
    second_rewrite_keeps_forest(nodes, selector, replacement);
}

/// Rewriting is idempotent also where the replacement is itself a selected
/// element: the second rewrite replaces each copy by a copy.
pub proof fn rewrite_is_idempotent_for_selected_replacement(
    nodes: Seq<DomNodeView>,
    selector: SelectorView,
    replacement: DomNodeView,
)
    requires
        replacement is Element,
        selector.matches(replacement->Element_0),
    ensures
        rewrite_forest(rewrite_forest(nodes, selector, replacement), selector, replacement)
            == rewrite_forest(nodes, selector, replacement),
{
    second_rewrite_keeps_forest(nodes, selector, replacement);
}

} // verus!
