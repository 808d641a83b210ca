//! Core of a GPU-backed rendering subsystem for a UI framework: the renderer
//! lifecycle and its state, the transform stack used during a render pass, the
//! message protocol that drives frames across a thread boundary, and the error
//! taxonomy for graphics failures.

pub mod component;
pub mod error;
pub mod renderer;
pub mod skia;
pub mod transform;

use vstd::prelude::*;

verus! {

/// Version of the rendering core, informational only.
pub const VERSION: &'static str = "0.1.0";

} // verus!
