//! Error taxonomy of the rendering core: failures are classified by origin
//! (graphics library, low-level GL binding, initialization sequencing, or
//! general), each carrying a human-readable description only.

use vstd::prelude::*;
use vstd::string::StringExecFns;

verus! {

/// A renderer failure, classified by where it arose.
#[derive(Debug, Clone, PartialEq, Eq)]
pub enum RendererError {
    /// Failure inside the Skia graphics library itself.
    SkiaError(String),
    /// Failure in the lower-level OpenGL binding layer.
    GlError(String),
    /// Failure strictly during setup sequencing.
    InitError(String),
    /// Catch-all, including wrapped I/O and ad hoc string errors.
    GeneralError(String),
}

/// The text that `RendererError::to_message` produces for each kind:
/// a fixed kind prefix followed by the carried description.
pub open spec fn spec_message(e: RendererError) -> Seq<char> {
    match e {
        RendererError::SkiaError(m) => "Skia error: "@ + m@,
        RendererError::GlError(m) => "OpenGL error: "@ + m@,
        RendererError::InitError(m) => "Initialization error: "@ + m@,
        RendererError::GeneralError(m) => "Renderer error: "@ + m@,
    }
}

impl RendererError {
    /// The full human-readable message: a kind prefix followed by the
    /// carried description.
    pub fn to_message(&self) -> (r: String)
        ensures
            r@ == spec_message(*self),
    {
        let mut s: String = match self {
            RendererError::SkiaError(_) => String::from_str("Skia error: "),
            RendererError::GlError(_) => String::from_str("OpenGL error: "),
            RendererError::InitError(_) => String::from_str("Initialization error: "),
            RendererError::GeneralError(_) => String::from_str("Renderer error: "),
        };
        match self {
            RendererError::SkiaError(m) => s.append(m.as_str()),
            RendererError::GlError(m) => s.append(m.as_str()),
            RendererError::InitError(m) => s.append(m.as_str()),
            RendererError::GeneralError(m) => s.append(m.as_str()),
        }
        s
    }
}

impl From<String> for RendererError {
    /// An ad hoc string error is classified as a general error.
    fn from(error: String) -> (r: RendererError) {
        RendererError::GeneralError(error)
    }
}

impl vstd::std_specs::convert::FromSpecImpl<String> for RendererError {
    open spec fn obeys_from_spec() -> bool {
        true
    }

    open spec fn from_spec(error: String) -> RendererError {
        RendererError::GeneralError(error)
    }
}

/// The framework's umbrella error: renderer failures are carried as their
/// formatted message only, the kind distinction is lost at this boundary
/// by design.
#[derive(Debug, Clone, PartialEq, Eq)]
pub enum Error {
    /// A renderer failure, formatted into text.
    Renderer(String),
}

/// Wrap a classified renderer error into the framework's umbrella error by
/// formatting its message.
pub fn wrap_renderer_error(e: &RendererError) -> (r: Error)
    ensures
        r matches Error::Renderer(m) && m@ == spec_message(*e),
{
    Error::Renderer(e.to_message())
}

} // verus!
