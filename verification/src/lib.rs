//! Display-list construction: lowering of display items into scene-builder
//! calls, together with the clip and scroll registry that resolves node
//! indices to handles.

pub mod box_builder;
pub mod convert;
pub mod cursor;
pub mod device;
pub mod dom;
pub mod fragment_tree;
pub mod fragments;
pub mod geometry;
pub mod handles;
pub mod items;
pub mod lowering;
pub mod memo;
pub mod outside;
pub mod painting;
pub mod radii;
pub mod registry;
pub mod scene;
pub mod scroll_tree;
pub mod style;
pub mod transform;

use vstd::prelude::*;

verus! {

/// Whether a scene holds content that counts for paint timing: text or images.
pub struct IsContentful(pub bool);

} // verus!
