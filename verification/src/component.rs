//! The scene-tree node handed to a renderer. The renderer only reads it, never
//! mutates it; this core treats its contents as opaque and shares it by
//! reference counting across the frame boundary.

use vstd::prelude::*;

verus! {

/// An immutable scene-tree node. Opaque to the rendering core: drawing reads
/// it, nothing here writes it.
#[derive(Debug)]
pub struct Node {}

impl Node {
    /// An empty node: a scene tree with nothing to draw.
    pub fn new() -> Node {
        Node {}
    }
}

} // verus!
