use vstd::prelude::*;
use crate::attributes::{ContextAttributeFlags, GLProfile};
use crate::error::{Error, WindowingApiError};
use crate::surface::{Renderbuffers, Size, Surface, Viewport};

verus! {

/// A native rendering context handle; 0 is the null handle.
pub type NativeContext = usize;

/// Who frees a context's native handle when the context is destroyed.
#[derive(Clone, Copy, Debug, PartialEq, Eq, Structural)]
pub enum Releaser {
    /// The device created the native context and destroys it itself.
    Owned,
    /// The context was adopted; the code that created it runs its own cleanup.
    Adopted,
}

/// The outcome of a successful pixel format query: a format and how many matched.
#[derive(Clone, Copy, Debug, PartialEq, Eq, Structural)]
pub struct PixelFormatChoice {
    pub pixel_format: u64,
    pub count: i32,
}

/// What the native API reports about the context current on the calling thread.
#[derive(Clone, Copy, Debug, PartialEq, Eq, Structural)]
pub struct CurrentContext {
    pub native_display: usize,
    pub native_context: NativeContext,
    pub client_version: i32,
    pub alpha_size: i32,
    pub depth_size: i32,
    pub stencil_size: i32,
}

/// The native windowing and GL entry points that the device drives.
///
/// The application implements this over the platform API. Nothing is assumed of what the
/// methods return: every operation of the library is verified for any outcome of them.
pub trait NativeBackend {
    /// Asks for a pixel format of the given profile.
    fn choose_pixel_format(&mut self, profile: GLProfile) -> Result<
        PixelFormatChoice,
        WindowingApiError,
    >;

    /// Creates a native context of the given pixel format.
    fn create_native_context(&mut self, pixel_format: u64) -> Result<
        NativeContext,
        WindowingApiError,
    >;

    /// Makes `native_context` current on the calling thread; the null handle unbinds.
    fn set_current_context(&mut self, native_context: NativeContext) -> Result<
        (),
        WindowingApiError,
    >;

    /// Loads the process-wide table of GL entry points.
    fn load_gl_entry_points(&mut self);

    /// Submits pending GL commands.
    fn flush(&mut self);

    /// Creates a GL texture that shows `surface`.
    fn create_texture(&mut self, surface: &Surface) -> Result<u32, WindowingApiError>;

    /// Deletes a GL texture made by `create_texture`.
    fn delete_texture(&mut self, texture: u32) -> Result<(), WindowingApiError>;

    /// Frees a surface's GPU memory.
    fn destroy_surface(&mut self, surface: Surface) -> Result<(), WindowingApiError>;

    /// Generates a framebuffer object and binds it.
    fn create_framebuffer_object(&mut self) -> u32;

    /// Binds `framebuffer_object` and attaches `texture` as its color attachment.
    fn attach_color_texture(&mut self, framebuffer_object: u32, texture: u32);

    /// Allocates depth and stencil renderbuffers of `size`, as `flags` asks, and binds them
    /// to the current framebuffer.
    fn create_renderbuffers(&mut self, size: Size, flags: ContextAttributeFlags) -> Renderbuffers;

    /// Deletes renderbuffers made by `create_renderbuffers`.
    fn destroy_renderbuffers(&mut self, renderbuffers: Renderbuffers);

    /// Deletes a framebuffer object.
    fn delete_framebuffer_object(&mut self, framebuffer_object: u32);

    /// Sets the GL viewport.
    fn set_viewport(&mut self, viewport: Viewport);

    /// Unbinds and frees a native context, as `releaser` says.
    fn release_context(&mut self, releaser: Releaser, native_context: NativeContext);

    /// Whether the GL library can be located.
    fn gl_library_found(&mut self) -> bool;

    /// The address of a GL entry point, or 0 where the library has none of that name.
    fn symbol_address(&mut self, symbol_name: &str) -> usize;
}

/// One call made on a `NativeBackend`, with its arguments and what it returned.
pub enum NativeCall {
    ChoosePixelFormat(GLProfile, Result<PixelFormatChoice, WindowingApiError>),
    CreateNativeContext(u64, Result<NativeContext, WindowingApiError>),
    SetCurrentContext(NativeContext, Result<(), WindowingApiError>),
    LoadGlEntryPoints,
    Flush,
    CreateTexture(Surface, Result<u32, WindowingApiError>),
    DeleteTexture(u32, Result<(), WindowingApiError>),
    DestroySurface(Surface, Result<(), WindowingApiError>),
    CreateFramebufferObject(u32),
    AttachColorTexture(u32, u32),
    CreateRenderbuffers(Size, ContextAttributeFlags, Renderbuffers),
    DestroyRenderbuffers(Renderbuffers),
    DeleteFramebufferObject(u32),
    SetViewport(Viewport),
    ReleaseContext(Releaser, NativeContext),
    GlLibraryFound(bool),
    SymbolAddress(usize),
}

/// A backend together with the record of every call the library has made on it.
pub struct Native<B> {
    pub backend: B,
    /// The calls made so far, oldest first.
    pub log: Ghost<Seq<NativeCall>>,
}

impl<B: NativeBackend> Native<B> {
    /// Wraps `backend`, with nothing recorded yet.
    pub fn new(backend: B) -> (r: Native<B>)
        ensures
            r.backend == backend,
            r.log@ == Seq::<NativeCall>::empty(),
    {
        Native { backend, log: Ghost(Seq::empty()) }
    }

    pub fn choose_pixel_format(&mut self, profile: GLProfile) -> (r: Result<
        PixelFormatChoice,
        WindowingApiError,
    >)
        ensures
            final(self).log@ == old(self).log@.push(NativeCall::ChoosePixelFormat(profile, r)),
    {
        let r = self.backend.choose_pixel_format(profile);
        self.log = Ghost(self.log@.push(NativeCall::ChoosePixelFormat(profile, r)));
        r
    }

    pub fn create_native_context(&mut self, pixel_format: u64) -> (r: Result<
        NativeContext,
        WindowingApiError,
    >)
        ensures
            final(self).log@ == old(self).log@.push(
                NativeCall::CreateNativeContext(pixel_format, r),
            ),
    {
        let r = self.backend.create_native_context(pixel_format);
        self.log = Ghost(self.log@.push(NativeCall::CreateNativeContext(pixel_format, r)));
        r
    }

    pub fn set_current_context(&mut self, native_context: NativeContext) -> (r: Result<
        (),
        WindowingApiError,
    >)
        ensures
            final(self).log@ == old(self).log@.push(
                NativeCall::SetCurrentContext(native_context, r),
            ),
    {
        let r = self.backend.set_current_context(native_context);
        self.log = Ghost(self.log@.push(NativeCall::SetCurrentContext(native_context, r)));
        r
    }

    pub fn load_gl_entry_points(&mut self)
        ensures
            final(self).log@ == old(self).log@.push(NativeCall::LoadGlEntryPoints),
    {
        self.backend.load_gl_entry_points();
        self.log = Ghost(self.log@.push(NativeCall::LoadGlEntryPoints));
    }

    pub fn flush(&mut self)
        ensures
            final(self).log@ == old(self).log@.push(NativeCall::Flush),
    {
        self.backend.flush();
        self.log = Ghost(self.log@.push(NativeCall::Flush));
    }

    pub fn create_texture(&mut self, surface: &Surface) -> (r: Result<u32, WindowingApiError>)
        ensures
            final(self).log@ == old(self).log@.push(NativeCall::CreateTexture(*surface, r)),
    {
        let r = self.backend.create_texture(surface);
        self.log = Ghost(self.log@.push(NativeCall::CreateTexture(*surface, r)));
        r
    }

    pub fn delete_texture(&mut self, texture: u32) -> (r: Result<(), WindowingApiError>)
        ensures
            final(self).log@ == old(self).log@.push(NativeCall::DeleteTexture(texture, r)),
    {
        let r = self.backend.delete_texture(texture);
        self.log = Ghost(self.log@.push(NativeCall::DeleteTexture(texture, r)));
        r
    }

    pub fn destroy_surface(&mut self, surface: Surface) -> (r: Result<(), WindowingApiError>)
        ensures
            final(self).log@ == old(self).log@.push(NativeCall::DestroySurface(surface, r)),
    {
        let ghost recorded = surface;
        let r = self.backend.destroy_surface(surface);
        self.log = Ghost(self.log@.push(NativeCall::DestroySurface(recorded, r)));
        r
    }

    pub fn create_framebuffer_object(&mut self) -> (r: u32)
        ensures
            final(self).log@ == old(self).log@.push(NativeCall::CreateFramebufferObject(r)),
    {
        let r = self.backend.create_framebuffer_object();
        self.log = Ghost(self.log@.push(NativeCall::CreateFramebufferObject(r)));
        r
    }

    pub fn attach_color_texture(&mut self, framebuffer_object: u32, texture: u32)
        ensures
            final(self).log@ == old(self).log@.push(
                NativeCall::AttachColorTexture(framebuffer_object, texture),
            ),
    {
        self.backend.attach_color_texture(framebuffer_object, texture);
        self.log = Ghost(
            self.log@.push(NativeCall::AttachColorTexture(framebuffer_object, texture)),
        );
    }

    pub fn create_renderbuffers(&mut self, size: Size, flags: ContextAttributeFlags) -> (r:
        Renderbuffers)
        ensures
            final(self).log@ == old(self).log@.push(NativeCall::CreateRenderbuffers(size, flags, r)),
    {
        let r = self.backend.create_renderbuffers(size, flags);
        self.log = Ghost(self.log@.push(NativeCall::CreateRenderbuffers(size, flags, r)));
        r
    }

    pub fn destroy_renderbuffers(&mut self, renderbuffers: Renderbuffers)
        ensures
            final(self).log@ == old(self).log@.push(NativeCall::DestroyRenderbuffers(renderbuffers)),
    {
        self.backend.destroy_renderbuffers(renderbuffers);
        self.log = Ghost(self.log@.push(NativeCall::DestroyRenderbuffers(renderbuffers)));
    }

    pub fn delete_framebuffer_object(&mut self, framebuffer_object: u32)
        ensures
            final(self).log@ == old(self).log@.push(
                NativeCall::DeleteFramebufferObject(framebuffer_object),
            ),
    {
        self.backend.delete_framebuffer_object(framebuffer_object);
        self.log = Ghost(self.log@.push(NativeCall::DeleteFramebufferObject(framebuffer_object)));
    }

    pub fn set_viewport(&mut self, viewport: Viewport)
        ensures
            final(self).log@ == old(self).log@.push(NativeCall::SetViewport(viewport)),
    {
        self.backend.set_viewport(viewport);
        self.log = Ghost(self.log@.push(NativeCall::SetViewport(viewport)));
    }

    pub fn release_context(&mut self, releaser: Releaser, native_context: NativeContext)
        ensures
            final(self).log@ == old(self).log@.push(
                NativeCall::ReleaseContext(releaser, native_context),
            ),
    {
        self.backend.release_context(releaser, native_context);
        self.log = Ghost(self.log@.push(NativeCall::ReleaseContext(releaser, native_context)));
    }

    pub fn gl_library_found(&mut self) -> (r: bool)
        ensures
            final(self).log@ == old(self).log@.push(NativeCall::GlLibraryFound(r)),
    {
        let r = self.backend.gl_library_found();
        self.log = Ghost(self.log@.push(NativeCall::GlLibraryFound(r)));
        r
    }

    pub fn symbol_address(&mut self, symbol_name: &str) -> (r: usize)
        ensures
            final(self).log@ == old(self).log@.push(NativeCall::SymbolAddress(r)),
    {
        let r = self.backend.symbol_address(symbol_name);
        self.log = Ghost(self.log@.push(NativeCall::SymbolAddress(r)));
        r
    }
}

/// The outcome of tearing down an offscreen target, from the answers of deleting its
/// texture and, when that succeeded, of destroying its surface: the first error met.
pub open spec fn teardown_outcome(
    texture: Result<(), WindowingApiError>,
    surface: Result<(), WindowingApiError>,
) -> Result<(), Error> {
    match texture {
        Err(code) => Err(Error::SurfaceFailed(code)),
        Ok(()) => match surface {
            Err(code) => Err(Error::SurfaceFailed(code)),
            Ok(()) => Ok(()),
        },
    }
}

/// Computes `teardown_outcome`; `surface` is absent when the texture deletion failed and
/// the surface was therefore never reached.
pub fn teardown_result(
    texture: Result<(), WindowingApiError>,
    surface: Option<Result<(), WindowingApiError>>,
) -> (r: Result<(), Error>)
    ensures
        r == match texture {
            Err(code) => Err::<(), Error>(Error::SurfaceFailed(code)),
            Ok(()) => match surface {
                Some(Err(code)) => Err::<(), Error>(Error::SurfaceFailed(code)),
                _ => Ok::<(), Error>(()),
            },
        },
{
    match texture {
        Err(code) => Err(Error::SurfaceFailed(code)),
        Ok(()) => match surface {
            Some(Err(code)) => Err(Error::SurfaceFailed(code)),
            _ => Ok(()),
        },
    }
}

/// The pixel format that the answer `choice` of the native query gives.
pub open spec fn pixel_format_outcome(choice: Result<PixelFormatChoice, WindowingApiError>) -> Result<
    u64,
    Error,
> {
    match choice {
        Err(code) => Err(Error::PixelFormatSelectionFailed(code)),
        Ok(c) => if c.count == 0 {
            Err(Error::NoPixelFormatFound)
        } else {
            Ok(c.pixel_format)
        },
    }
}

/// The context that the answer `created` of the native creation call gives.
pub open spec fn context_outcome(created: Result<NativeContext, WindowingApiError>) -> Result<
    NativeContext,
    Error,
> {
    match created {
        Err(code) => Err(Error::ContextCreationFailed(code)),
        Ok(n) => if n == 0 {
            Err(Error::ContextCreationFailed(0))
        } else {
            Ok(n)
        },
    }
}

/// The pixel format to use, from the answer of the native query.
pub fn select_pixel_format(choice: Result<PixelFormatChoice, WindowingApiError>) -> (r: Result<
    u64,
    Error,
>)
    ensures
        r == pixel_format_outcome(choice),
{
    match choice {
        Err(code) => Err(Error::PixelFormatSelectionFailed(code)),
        Ok(c) => {
            if c.count == 0 {
                Err(Error::NoPixelFormatFound)
            } else {
                Ok(c.pixel_format)
            }
        },
    }
}

/// The new native context, from the answer of the native creation call. A null handle
/// counts as a failed creation.
pub fn created_context(created: Result<NativeContext, WindowingApiError>) -> (r: Result<
    NativeContext,
    Error,
>)
    ensures
        r == context_outcome(created),
{
    match created {
        Err(code) => Err(Error::ContextCreationFailed(code)),
        Ok(n) => {
            if n == 0 {
                Err(Error::ContextCreationFailed(0))
            } else {
                Ok(n)
            }
        },
    }
}

/// What a make-current (or not current) request gives for the native status `status`.
pub open spec fn current_outcome(status: Result<(), WindowingApiError>) -> Result<(), Error> {
    match status {
        Err(code) => Err(Error::MakeCurrentFailed(code)),
        Ok(()) => Ok(()),
    }
}

/// The result of a make-current (or not current) request, from the native status.
pub fn make_current_result(status: Result<(), WindowingApiError>) -> (r: Result<(), Error>)
    ensures
        r == current_outcome(status),
{
    match status {
        Err(code) => Err(Error::MakeCurrentFailed(code)),
        Ok(()) => Ok(()),
    }
}

/// The result of an entry point lookup, from whether the library was found and the address
/// it gave (0 for none).
pub fn proc_address_result(library_found: bool, address: usize) -> (r: Result<usize, Error>)
    ensures
        !library_found ==> r == Err::<usize, Error>(Error::NoGLLibraryFound),
        library_found && address == 0 ==> r == Err::<usize, Error>(Error::GLFunctionNotFound),
        library_found && address != 0 ==> r == Ok::<usize, Error>(address),
{
    if !library_found {
        Err(Error::NoGLLibraryFound)
    } else if address == 0 {
        Err(Error::GLFunctionNotFound)
    } else {
        Ok(address)
    }
}

} // verus!
