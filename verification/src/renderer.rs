//! The renderer capability contract: what every backend must satisfy to turn a
//! scene tree into pixels, stated over an abstract model of the renderer's
//! state (dimensions and transform stack; the GPU context and surface pixels
//! themselves live with the host that owns the native graphics API).

use vstd::prelude::*;

use crate::component::Node;
use crate::error::Error;
use crate::transform::{spec_identity, Transform};

verus! {

/// Default surface width used when a renderer initializes lazily.
pub const DEFAULT_WIDTH: i32 = 800;

/// Default surface height used when a renderer initializes lazily.
pub const DEFAULT_HEIGHT: i32 = 600;

/// Ephemeral per-frame state passed to `render`; owned by the caller and
/// borrowed by the renderer for the duration of the call. Opaque to this core.
#[derive(Debug)]
pub struct RenderContext {}

impl RenderContext {
    /// A fresh per-frame context.
    pub fn new() -> RenderContext {
        RenderContext {}
    }
}

/// The answers of the native graphics platform for one initialization attempt,
/// in the order the setup protocol asks: whether a native GL interface can be
/// acquired, whether a GPU context can be created on it, and whether the
/// backend accepts a render target of the requested kind. The host that owns
/// the native API probes these; this core decides and classifies from them.
#[derive(Debug, Clone, Copy, PartialEq, Eq, Structural)]
pub struct GlPlatform {
    /// A native GL interface handle can be acquired.
    pub gl_interface: bool,
    /// A GPU execution context can be created on the interface.
    pub gpu_context: bool,
    /// The backend accepts the described render target as a surface.
    pub surface: bool,
}

impl GlPlatform {
    /// A platform on which every initialization step succeeds.
    pub fn available() -> (r: GlPlatform)
        ensures
            r == (GlPlatform { gl_interface: true, gpu_context: true, surface: true }),
    {
        GlPlatform { gl_interface: true, gpu_context: true, surface: true }
    }
}

/// Initialization succeeds exactly when every setup step succeeds and the
/// requested dimensions are positive (the backend rejects a degenerate render
/// target when the surface is bound).
pub open spec fn platform_ok(p: GlPlatform, width: i32, height: i32) -> bool {
    p.gl_interface && p.gpu_context && p.surface && width > 0 && height > 0
}

/// The formatted message a failed initialization surfaces through the
/// framework's umbrella error, for the first setup step that fails.
pub open spec fn init_failure_text(p: GlPlatform) -> Seq<char> {
    if !p.gl_interface {
        "OpenGL error: "@ + "Failed to create GL interface"@
    } else if !p.gpu_context {
        "Skia error: "@ + "Failed to create GPU context"@
    } else {
        "Skia error: "@ + "Failed to create surface"@
    }
}

/// The abstract state of an initialized renderer: the recorded surface
/// dimensions and the transform stack. Exists only between a successful
/// initialization and the next cleanup.
#[verifier::ext_equal]
pub ghost struct StateModel {
    /// Recorded surface width.
    pub width: int,
    /// Recorded surface height.
    pub height: int,
    /// The transform stack, bottom first.
    pub transforms: Seq<Transform>,
}

/// The state a renderer holds right after a successful initialization with the
/// given dimensions: a transform stack seeded with exactly one identity entry.
pub open spec fn fresh_model(width: int, height: int) -> StateModel {
    StateModel { width, height, transforms: seq![spec_identity()] }
}

/// A well-formed renderer state: both dimensions positive, and a transform
/// stack that never shrinks below the base frame, which is the identity.
pub open spec fn model_wf(m: StateModel) -> bool {
    &&& m.width > 0
    &&& m.height > 0
    &&& m.transforms.len() >= 1
    &&& m.transforms.first() == spec_identity()
}

/// No renderer state is ever partially constructed: it is absent, or well
/// formed.
pub open spec fn opt_model_wf(m: Option<StateModel>) -> bool {
    match m {
        Option::None => true,
        Option::Some(sm) => model_wf(sm),
    }
}

/// The capability contract every renderer backend implements: the
/// polymorphism boundary between the framework and concrete GPU backends.
///
/// No method may leave the state partially constructed: each call ends in
/// full success (state present and well formed) or leaves the state absent or
/// unchanged.
pub trait Renderer: Sized {
    /// The abstract renderer state: absent before initialization and after
    /// cleanup.
    spec fn model(&self) -> Option<StateModel>;

    /// Initialize the backend with default dimensions. Idempotent when
    /// already initialized: nothing is re-initialized and nothing fails.
    fn init(&mut self, platform: &GlPlatform) -> (r: Result<(), Error>)
        ensures
            old(self).model() is Some ==> r is Ok && final(self).model() == old(self).model(),
            old(self).model() is None && platform_ok(*platform, DEFAULT_WIDTH, DEFAULT_HEIGHT)
                ==> r is Ok && final(self).model() == Some(
                fresh_model(DEFAULT_WIDTH as int, DEFAULT_HEIGHT as int),
            ),
            old(self).model() is None && !platform_ok(*platform, DEFAULT_WIDTH, DEFAULT_HEIGHT)
                ==> (r matches Err(Error::Renderer(m)) && m@ == init_failure_text(*platform))
                && final(self).model() is None,
            opt_model_wf(old(self).model()) ==> opt_model_wf(final(self).model()),
    ;

    /// Draw the given scene tree into the current surface, initializing
    /// lazily with default dimensions when no state exists yet. The pixel
    /// content of the surface changes; the modeled state does not, beyond the
    /// lazy initialization.
    fn render(&mut self, root: &Node, context: &mut RenderContext, platform: &GlPlatform) -> (r:
        Result<(), Error>)
        ensures
            old(self).model() is Some ==> r is Ok && final(self).model() == old(self).model(),
            old(self).model() is None && platform_ok(*platform, DEFAULT_WIDTH, DEFAULT_HEIGHT)
                ==> r is Ok && final(self).model() == Some(
                fresh_model(DEFAULT_WIDTH as int, DEFAULT_HEIGHT as int),
            ),
            old(self).model() is None && !platform_ok(*platform, DEFAULT_WIDTH, DEFAULT_HEIGHT)
                ==> (r matches Err(Error::Renderer(m)) && m@ == init_failure_text(*platform))
                && final(self).model() is None,
            opt_model_wf(old(self).model()) ==> opt_model_wf(final(self).model()),
    ;

    /// Finalize pending drawing on the active surface. A no-op, not an error,
    /// when the renderer was never initialized; it never fails.
    fn flush(&mut self) -> (r: Result<(), Error>)
        ensures
            r is Ok,
            final(self).model() == old(self).model(),
    ;

    /// Release all GPU-side resources. Always succeeds; afterwards the
    /// renderer behaves as freshly constructed.
    fn cleanup(&mut self) -> (r: Result<(), Error>)
        ensures
            r is Ok,
            final(self).model() is None,
    ;

    /// Stable identifier of the backend, for diagnostics only.
    fn name(&self) -> &'static str;
}

} // verus!
