//! The Skia-backed renderer: its state machine (absent before initialization,
//! present and well formed after, absent again after cleanup), the strictly
//! ordered initialization protocol with its classified failures, the transform
//! stack operations, and the message protocol that drives frames across a
//! thread boundary.
//!
//! The native Skia and OpenGL calls themselves are made by the host that owns
//! the graphics thread; this core holds every decision around them: what each
//! platform answer means, which classified error each failed step surfaces,
//! and how the renderer state evolves.

use std::sync::Arc;

use vstd::prelude::*;
use vstd::string::StringExecFns;

use crate::component::Node;
use crate::error::{wrap_renderer_error, Error, RendererError};
use crate::renderer::{
    fresh_model, init_failure_text, opt_model_wf, platform_ok, GlPlatform, RenderContext, Renderer,
    StateModel, DEFAULT_HEIGHT, DEFAULT_WIDTH,
};
use crate::transform::{popped, spec_compose, spec_identity, top_or_identity, Transform};

verus! {

/// A message sent to the renderer thread. Messages are processed strictly in
/// send order; `Shutdown` is terminal.
#[derive(Clone)]
pub enum RendererMessage {
    /// Initialize with dimensions.
    Init { width: i32, height: i32 },
    /// Begin a frame.
    BeginFrame,
    /// End a frame.
    EndFrame,
    /// Render a scene tree, shared with the producer so no copy is needed.
    Render { node: Arc<Node> },
    /// Shut the renderer down and release its resources.
    Shutdown,
}

/// Renderer state while initialized: the recorded surface dimensions and the
/// transform stack. The GPU context and the drawable surface that belong to
/// these dimensions are owned by the host on the rendering thread.
pub struct SkiaState {
    /// Current transform stack, bottom first; never empty, seeded with the
    /// identity.
    pub transform_stack: Vec<Transform>,
    /// Current surface width.
    pub width: i32,
    /// Current surface height.
    pub height: i32,
}

impl SkiaState {
    /// The abstract view of this state.
    pub open spec fn model(&self) -> StateModel {
        StateModel {
            width: self.width as int,
            height: self.height as int,
            transforms: self.transform_stack@,
        }
    }
}

/// A pop right after initialization is a no-op: the stack a fresh state
/// carries holds only the base frame, which a pop never removes.
pub proof fn lemma_pop_on_fresh_state_is_noop(width: int, height: int)
    ensures
        popped(fresh_model(width, height).transforms) == fresh_model(width, height).transforms,
        fresh_model(width, height).transforms.len() == 1,
{
}

/// The Skia-backed renderer. State is absent before `init` and after
/// `cleanup`.
pub struct SkiaRenderer {
    /// Renderer state; `None` while uninitialized.
    pub state: Option<SkiaState>,
}

impl SkiaRenderer {
    /// The abstract state: absent while uninitialized.
    pub open spec fn state_model(&self) -> Option<StateModel> {
        match self.state {
            Option::None => Option::<StateModel>::None,
            Option::Some(s) => Option::Some(s.model()),
        }
    }

    /// The transform currently on top of the stack, as this renderer's
    /// drawing operations would see it.
    pub open spec fn spec_current(&self) -> Transform {
        match self.state_model() {
            Option::None => spec_identity(),
            Option::Some(m) => top_or_identity(m.transforms),
        }
    }

    /// Create a new Skia renderer, uninitialized.
    pub fn new() -> (r: SkiaRenderer)
        ensures
            r.state_model() is None,
    {
        SkiaRenderer { state: None }
    }

    /// Run the strictly ordered initialization protocol against the given
    /// platform answers: acquire a GL interface, create a GPU context on it,
    /// describe the framebuffer binding, wrap it as a render target of the
    /// given dimensions, and bind a drawable surface to it. The first failing
    /// step short-circuits the rest and surfaces its classified error, leaving
    /// the state unchanged; success records the dimensions and a transform
    /// stack seeded with the identity, atomically replacing any prior state.
    pub fn init_skia(&mut self, width: i32, height: i32, platform: &GlPlatform) -> (r: Result<
        (),
        RendererError,
    >)
        ensures
            platform_ok(*platform, width, height) ==> r is Ok && final(self).state_model()
                == Some(fresh_model(width as int, height as int)),
            !platform.gl_interface ==> (r matches Err(RendererError::GlError(m)) && m@
                == "Failed to create GL interface"@) && final(self).state_model() == old(
                self,
            ).state_model(),
            platform.gl_interface && !platform.gpu_context ==> (r matches Err(
                RendererError::SkiaError(m),
            ) && m@ == "Failed to create GPU context"@) && final(self).state_model() == old(
                self,
            ).state_model(),
            platform.gl_interface && platform.gpu_context && !(platform.surface && width > 0
                && height > 0) ==> (r matches Err(RendererError::SkiaError(m)) && m@
                == "Failed to create surface"@) && final(self).state_model() == old(
                self,
            ).state_model(),
            r is Ok ==> opt_model_wf(final(self).state_model()),
            opt_model_wf(old(self).state_model()) ==> opt_model_wf(final(self).state_model()),
    {
        if !platform.gl_interface {
            return Err(
                RendererError::GlError(String::from_str("Failed to create GL interface")),
            );
        }
        if !platform.gpu_context {
            return Err(RendererError::SkiaError(String::from_str("Failed to create GPU context")));
        }
        if !platform.surface || width <= 0 || height <= 0 {
            return Err(RendererError::SkiaError(String::from_str("Failed to create surface")));
        }
        let mut transform_stack: Vec<Transform> = Vec::new();
        transform_stack.push(Transform::new_identity());
        proof {
            assert(transform_stack@ =~= seq![spec_identity()]);
        }
        self.state = Some(SkiaState { transform_stack, width, height });
        Ok(())
    }

    /// Push a transform onto the stack: compose it onto the current top (the
    /// identity when the stack is empty) and push the result. A no-op while
    /// uninitialized.
    pub fn push_transform(&mut self, transform: Transform)
        ensures
            old(self).state_model() is None ==> final(self).state_model() == old(
                self,
            ).state_model(),
            old(self).state_model() matches Some(m) ==> final(self).state_model() == Some(
                StateModel {
                    width: m.width,
                    height: m.height,
                    transforms: m.transforms.push(
                        spec_compose(top_or_identity(m.transforms), transform),
                    ),
                },
            ),
            opt_model_wf(old(self).state_model()) ==> opt_model_wf(final(self).state_model()),
    {
        if let Some(state) = &mut self.state {
            let len = state.transform_stack.len();
            let current: Transform = if len > 0 {
                state.transform_stack[len - 1]
            } else {
                Transform::new_identity()
            };
            let mut combined = current;
            combined.pre_concat(&transform);
            state.transform_stack.push(combined);
        }
    }

    /// Pop the top of the stack, unless only the base frame remains, which is
    /// never removed. A no-op while uninitialized.
    pub fn pop_transform(&mut self)
        ensures
            old(self).state_model() is None ==> final(self).state_model() == old(
                self,
            ).state_model(),
            old(self).state_model() matches Some(m) ==> final(self).state_model() == Some(
                StateModel {
                    width: m.width,
                    height: m.height,
                    transforms: popped(m.transforms),
                },
            ),
            opt_model_wf(old(self).state_model()) ==> opt_model_wf(final(self).state_model()),
    {
        if let Some(state) = &mut self.state {
            if state.transform_stack.len() > 1 {
                state.transform_stack.pop();
            }
        }
    }

    /// The current transform: the top of the stack, or the identity if no
    /// stack exists.
    pub fn current_transform(&self) -> (r: Transform)
        ensures
            r == self.spec_current(),
    {
        match &self.state {
            Some(state) => {
                let len = state.transform_stack.len();
                if len > 0 {
                    state.transform_stack[len - 1]
                } else {
                    Transform::new_identity()
                }
            },
            None => Transform::new_identity(),
        }
    }

    /// Decide whether the reference test circle (centered, radius a quarter
    /// of the smaller dimension) can be drawn: an initialized surface is
    /// required. The pixel-level draw is issued by the host that owns the
    /// canvas; it changes no state this core models.
    pub fn draw_test_circle(&mut self) -> (r: Result<(), RendererError>)
        ensures
            final(self).state_model() == old(self).state_model(),
            old(self).state_model() is Some ==> r is Ok,
            old(self).state_model() is None ==> (r matches Err(RendererError::GeneralError(m))
                && m@ == "Renderer not initialized"@),
    {
        match &self.state {
            Some(_) => Ok(()),
            None => Err(
                RendererError::GeneralError(String::from_str("Renderer not initialized")),
            ),
        }
    }
}

impl Default for SkiaRenderer {
    /// A fresh, uninitialized renderer.
    fn default() -> (r: SkiaRenderer)
        ensures
            r.state_model() is None,
    {
        SkiaRenderer::new()
    }
}

impl Renderer for SkiaRenderer {
    open spec fn model(&self) -> Option<StateModel> {
        self.state_model()
    }

    fn init(&mut self, platform: &GlPlatform) -> (r: Result<(), Error>) {
        if self.state.is_none() {
            match self.init_skia(DEFAULT_WIDTH, DEFAULT_HEIGHT, platform) {
                Ok(()) => Ok(()),
                Err(e) => Err(wrap_renderer_error(&e)),
            }
        } else {
            Ok(())
        }
    }

    fn render(&mut self, root: &Node, context: &mut RenderContext, platform: &GlPlatform) -> (r:
        Result<(), Error>) {
        if self.state.is_none() {
            match self.init_skia(DEFAULT_WIDTH, DEFAULT_HEIGHT, platform) {
                Ok(()) => {},
                Err(e) => {
                    return Err(wrap_renderer_error(&e));
                },
            }
        }
        match self.draw_test_circle() {
            Ok(()) => Ok(()),
            Err(e) => Err(wrap_renderer_error(&e)),
        }
    }

    fn flush(&mut self) -> (r: Result<(), Error>) {
        // Finalizing pending drawing is a snapshot request on the surface,
        // which the host owning the canvas performs; without state there is
        // nothing to flush. Neither case is an error.
        Ok(())
    }

    fn cleanup(&mut self) -> (r: Result<(), Error>) {
        self.state = None;
        Ok(())
    }

    fn name(&self) -> (r: &'static str)
        ensures
            r@ == "SkiaRenderer"@,
    {
        "SkiaRenderer"
    }
}

/// How one message changes the abstract renderer state: `Init` and `Render`
/// initialize an absent state (with the given or the default dimensions),
/// frame delimiters leave it alone, and `Shutdown` releases it.
pub open spec fn step_model(
    m: Option<StateModel>,
    msg: RendererMessage,
    p: GlPlatform,
) -> Option<StateModel> {
    match msg {
        RendererMessage::Init { width, height } => if m is Some {
            m
        } else if platform_ok(p, width, height) {
            Some(fresh_model(width as int, height as int))
        } else {
            Option::<StateModel>::None
        },
        RendererMessage::BeginFrame => m,
        RendererMessage::EndFrame => m,
        RendererMessage::Render { node } => if m is Some {
            m
        } else if platform_ok(p, DEFAULT_WIDTH, DEFAULT_HEIGHT) {
            Some(fresh_model(DEFAULT_WIDTH as int, DEFAULT_HEIGHT as int))
        } else {
            Option::<StateModel>::None
        },
        RendererMessage::Shutdown => Option::<StateModel>::None,
    }
}

/// Whether handling one message succeeds: only an initialization that the
/// platform refuses fails, directly through `Init` or lazily through `Render`.
pub open spec fn step_ok(m: Option<StateModel>, msg: RendererMessage, p: GlPlatform) -> bool {
    match msg {
        RendererMessage::Init { width, height } => m is Some || platform_ok(p, width, height),
        RendererMessage::BeginFrame => true,
        RendererMessage::EndFrame => true,
        RendererMessage::Render { node } => m is Some || platform_ok(
            p,
            DEFAULT_WIDTH,
            DEFAULT_HEIGHT,
        ),
        RendererMessage::Shutdown => true,
    }
}

/// The abstract state after handling a sequence of messages in order.
pub open spec fn run_model(
    m: Option<StateModel>,
    msgs: Seq<RendererMessage>,
    p: GlPlatform,
) -> Option<StateModel>
    decreases msgs.len(),
{
    if msgs.len() == 0 {
        m
    } else {
        step_model(run_model(m, msgs.drop_last(), p), msgs.last(), p)
    }
}

impl SkiaRenderer {
    /// Handle one message of the renderer protocol: initialize, delimit a
    /// frame, render a scene tree, or shut down. The state changes as
    /// `step_model` says; the call fails exactly when `step_ok` refuses it,
    /// and then surfaces the classified initialization failure.
    pub fn handle_message(&mut self, msg: &RendererMessage, platform: &GlPlatform) -> (r: Result<
        (),
        Error,
    >)
        ensures
            final(self).state_model() == step_model(old(self).state_model(), *msg, *platform),
            r is Ok <==> step_ok(old(self).state_model(), *msg, *platform),
            !step_ok(old(self).state_model(), *msg, *platform) ==> (r matches Err(
                Error::Renderer(m),
            ) && m@ == init_failure_text(*platform)),
            opt_model_wf(old(self).state_model()) ==> opt_model_wf(final(self).state_model()),
    {
        match msg {
            RendererMessage::Init { width, height } => {
                if self.state.is_none() {
                    match self.init_skia(*width, *height, platform) {
                        Ok(()) => Ok(()),
                        Err(e) => Err(wrap_renderer_error(&e)),
                    }
                } else {
                    Ok(())
                }
            },
            RendererMessage::BeginFrame => Ok(()),
            RendererMessage::EndFrame => Ok(()),
            RendererMessage::Render { node } => {
                let mut context = RenderContext::new();
                self.render(&**node, &mut context, platform)
            },
            RendererMessage::Shutdown => self.cleanup(),
        }
    }

    /// Drain a queue of messages in send order, stopping right after a
    /// `Shutdown`: everything enqueued before the `Shutdown` is processed,
    /// nothing after it is. Returns one result per processed message, so no
    /// failure is swallowed; the state afterwards is the in-order effect of
    /// exactly the processed messages.
    pub fn process_messages(&mut self, msgs: &Vec<RendererMessage>, platform: &GlPlatform) -> (results:
        Vec<Result<(), Error>>)
        ensures
            results@.len() <= msgs@.len(),
            forall|j: int|
                0 <= j < results@.len() - 1 ==> !((#[trigger] msgs@[j]) is Shutdown),
            results@.len() < msgs@.len() ==> results@.len() >= 1 && msgs@[results@.len() - 1]
                is Shutdown,
            final(self).state_model() == run_model(
                old(self).state_model(),
                msgs@.take(results@.len() as int),
                *platform,
            ),
            forall|j: int|
                0 <= j < results@.len() ==> ((#[trigger] results@[j]) is Ok <==> step_ok(
                    run_model(old(self).state_model(), msgs@.take(j), *platform),
                    msgs@[j],
                    *platform,
                )),
            opt_model_wf(old(self).state_model()) ==> opt_model_wf(final(self).state_model()),
    {
        let ghost m0 = self.state_model();
        let n = msgs.len();
        let mut results: Vec<Result<(), Error>> = Vec::new();
        let mut i: usize = 0;
        let mut done = false;
        while i < n && !done
            invariant
                n == msgs@.len(),
                i <= n,
                results@.len() == i,
                self.state_model() == run_model(m0, msgs@.take(i as int), *platform),
                forall|j: int|
                    0 <= j < i as int - 1 ==> !((#[trigger] msgs@[j]) is Shutdown),
                done <==> (i >= 1 && msgs@[i as int - 1] is Shutdown),
                opt_model_wf(m0) ==> opt_model_wf(self.state_model()),
                forall|j: int|
                    0 <= j < i ==> ((#[trigger] results@[j]) is Ok <==> step_ok(
                        run_model(m0, msgs@.take(j), *platform),
                        msgs@[j],
                        *platform,
                    )),
            decreases n - i,
        {
            let msg = &msgs[i];
            let r = self.handle_message(msg, platform);
            results.push(r);
            if let RendererMessage::Shutdown = msg {
                done = true;
            }
            proof {
                assert(msgs@.take(i as int + 1).drop_last() =~= msgs@.take(i as int));
            }
            i = i + 1;
        }
        results
    }
}

} // verus!
