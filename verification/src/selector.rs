//! Selectors: the predicate that picks the elements to replace.

use vstd::prelude::*;
use crate::node::{Element, ElementView};

verus! {

/// A selector that accepts the elements carrying one tag name.
#[derive(Debug)]
pub struct Selector {
    tag: String,
}

/// What a `Selector` stands for: the tag name it looks for.
pub struct SelectorView {
    pub tag: Seq<char>,
}

impl SelectorView {
    /// Whether the selector accepts `element`: the names are the same,
    /// character for character. Neither the attributes, nor the children, nor
    /// the place of the element in its document have a say.
    pub open spec fn matches(self, element: ElementView) -> bool {
        element.name == self.tag
    }
}

impl View for Selector {
    type V = SelectorView;

    closed spec fn view(&self) -> SelectorView {
        SelectorView { tag: self.tag@ }
    }
}

impl Selector {
    /// The selector for elements named `tag`.
    pub fn from(tag: &str) -> (selector: Selector)
        ensures
            selector@.tag == tag@,
    {
        Selector { tag: tag.to_owned() }
    }

    /// The tag name that this selector looks for.
    pub fn tag(&self) -> (tag: &str)
        ensures
            tag@ == self@.tag,
    {
        self.tag.as_str()
    }

    /// Tells whether `element` is one of those this selector picks.
    pub fn matches(&self, element: &Element) -> (accepted: bool)
        ensures
            accepted == self@.matches(element@),
    {
        element.name == self.tag
    }
}

} // verus!
