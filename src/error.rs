use vstd::prelude::*;

verus! {

/// A status code reported by the native windowing API.
pub type WindowingApiError = i32;

/// Errors surfaced by the `Device` operations.
#[derive(Clone, Copy, Debug, PartialEq, Eq, Structural)]
pub enum Error {
    /// The requested GL flavor is not available on this backend.
    UnsupportedGLType,
    /// The native pixel format selection call failed.
    PixelFormatSelectionFailed(WindowingApiError),
    /// Pixel format selection succeeded but found no matching format.
    NoPixelFormatFound,
    /// The native context could not be created.
    ContextCreationFailed(WindowingApiError),
    /// The context could not be made current (or not current).
    MakeCurrentFailed(WindowingApiError),
    /// A native surface or texture operation failed.
    SurfaceFailed(WindowingApiError),
    /// The context renders into a window, whose target cannot be changed here.
    WindowAttached,
    /// The context has no offscreen surface attached.
    NoSurfaceAttached,
    /// The GL library or framework could not be located.
    NoGLLibraryFound,
    /// The GL library has no entry point of the requested name.
    GLFunctionNotFound,
}

} // verus!
