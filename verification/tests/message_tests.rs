use std::sync::Arc;

use orbit_render::component::Node;
use orbit_render::error::Error;
use orbit_render::renderer::GlPlatform;
use orbit_render::skia::{RendererMessage, SkiaRenderer};

#[test]
fn shutdown_processes_everything_before_it_and_nothing_after() {
    let mut r = SkiaRenderer::new();
    let p = GlPlatform::available();
    let msgs = vec![
        RendererMessage::Init { width: 800, height: 600 },
        RendererMessage::BeginFrame,
        RendererMessage::Render { node: Arc::new(Node::new()) },
        RendererMessage::EndFrame,
        RendererMessage::Shutdown,
        RendererMessage::BeginFrame,
        RendererMessage::Init { width: 100, height: 100 },
    ];
    let results = r.process_messages(&msgs, &p);
    // All five messages up to and including the shutdown are processed, in
    // order and successfully; the two after it are not.
    assert_eq!(results.len(), 5);
    assert!(results.iter().all(|x| x.is_ok()));
    // Shutdown is terminal: the renderer is torn down afterwards.
    assert!(r.state.is_none());
}

#[test]
fn queue_without_shutdown_is_fully_processed() {
    let mut r = SkiaRenderer::new();
    let p = GlPlatform::available();
    let msgs = vec![
        RendererMessage::Init { width: 400, height: 300 },
        RendererMessage::BeginFrame,
        RendererMessage::EndFrame,
    ];
    let results = r.process_messages(&msgs, &p);
    assert_eq!(results.len(), 3);
    assert!(results.iter().all(|x| x.is_ok()));
    let state = r.state.as_ref().unwrap();
    assert_eq!(state.width, 400);
    assert_eq!(state.height, 300);
}

#[test]
fn init_message_on_initialized_renderer_keeps_state() {
    let mut r = SkiaRenderer::new();
    let p = GlPlatform::available();
    assert!(r.handle_message(&RendererMessage::Init { width: 640, height: 480 }, &p).is_ok());
    assert!(r.handle_message(&RendererMessage::Init { width: 10, height: 10 }, &p).is_ok());
    let state = r.state.as_ref().unwrap();
    assert_eq!(state.width, 640);
    assert_eq!(state.height, 480);
}

#[test]
fn failed_init_message_reports_classified_failure() {
    let mut r = SkiaRenderer::new();
    let p = GlPlatform { gl_interface: true, gpu_context: false, surface: true };
    let e = r.handle_message(&RendererMessage::Init { width: 800, height: 600 }, &p).unwrap_err();
    let Error::Renderer(m) = e;
    assert_eq!(m, "Skia error: Failed to create GPU context");
    assert!(r.state.is_none());
}

#[test]
fn failures_in_a_queue_are_reported_per_message() {
    let mut r = SkiaRenderer::new();
    let p = GlPlatform { gl_interface: false, gpu_context: false, surface: false };
    let msgs = vec![
        RendererMessage::Init { width: 800, height: 600 },
        RendererMessage::BeginFrame,
        RendererMessage::Shutdown,
    ];
    let results = r.process_messages(&msgs, &p);
    assert_eq!(results.len(), 3);
    assert!(results[0].is_err());
    assert!(results[1].is_ok());
    assert!(results[2].is_ok());
    assert!(r.state.is_none());
}

#[test]
fn render_message_lazily_initializes() {
    let mut r = SkiaRenderer::new();
    let p = GlPlatform::available();
    let msg = RendererMessage::Render { node: Arc::new(Node::new()) };
    assert!(r.handle_message(&msg, &p).is_ok());
    let state = r.state.as_ref().unwrap();
    assert_eq!(state.width, 800);
    assert_eq!(state.height, 600);
    // The message clones cheaply: the node payload is shared, not copied.
    let copy = msg.clone();
    assert!(r.handle_message(&copy, &p).is_ok());
}
