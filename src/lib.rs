//! Lifecycle of GPU rendering contexts and of the offscreen color surfaces they render into.
//!
//! A `Device` creates `Context`s, adopts the context current on the calling thread, swaps the
//! offscreen color target of a context and tears contexts down. Everything that talks to the
//! native windowing and GL APIs goes through the `NativeBackend` trait, implemented by the
//! application, and every call made on it is recorded in a ghost log that the contracts speak
//! of; the decisions, the framebuffer state machine and the order of native calls
//! are here.

mod attributes;
mod backend;
mod context;
mod error;
mod glx_context;
mod load_guard;
mod surface;

pub use attributes::{
    ContextAttributeFlags, ContextAttributes, GLApi, GLFlavor, GLInfo, GLProfile, GLVersion,
};
pub use error::{Error, WindowingApiError};
pub use backend::{
    created_context, make_current_result, proc_address_result, select_pixel_format,
    teardown_result, CurrentContext, Native, NativeBackend, NativeCall, NativeContext,
    PixelFormatChoice, Releaser,
};
pub use context::{Context, Device, TargetTeardown, Teardown};
pub use glx_context::{
    make_current_needed, make_current_status, GLContext, GlxBackend, GlxCall, GlxNative,
};
pub use load_guard::GLLoadGuard;
pub use surface::{Framebuffer, Renderbuffers, Size, Surface, SurfaceDescriptor, SurfaceTexture, Viewport};
