//! The chat widgets and the message type they display.

pub mod chatview;
pub mod item_history;

use vstd::prelude::*;

verus! {

/// An image handle from conrod's image map, carried through unchanged.
#[verifier::external_type_specification]
#[verifier::external_body]
pub struct ExImageId(conrod_core::image::Id);

/// Conrod's widget identifiers are node indices of its widget graph.
#[verifier::external_type_specification]
#[verifier::external_body]
#[verifier::reject_recursive_types(Ix)]
pub struct ExNodeIndex<Ix>(daggy::NodeIndex<Ix>);

/// One entry of the chat history: who wrote it, their picture if any, and the text.
#[derive(Debug, Clone)]
pub struct Message {
    pub image_id: Option<conrod_core::image::Id>,
    pub name: String,
    pub text: String,
}

} // verus!
