//! Selector-driven rewriting of markup trees.
//!
//! A document is a forest of nodes. [`rewrite::rewrite`] gives the forest in
//! which every element that a selector picks has given way to a copy of one
//! replacement node, and in which everything else stands as it stood.
//!
//! - [`node`]: the tree model, with the views that the contracts speak of.
//! - [`selector`]: the predicate that picks elements.
//! - [`rewrite`]: the rewrite engine, as a definition and as code.
//! - [`laws`]: what holds of every rewrite.
//! - [`html`]: the way back to text, by the `html_editor` crate.
//! - [`batch`]: the rules of a run that puts one header into many documents.

pub mod batch;
pub mod html;
pub mod laws;
pub mod node;
pub mod rewrite;
pub mod selector;

pub use batch::{get_header_node, replace_elements, ConfigurationError};
pub use node::{Doctype, DomNode, Element};
pub use rewrite::{rewrite, ReplaceQuery};
pub use selector::Selector;
