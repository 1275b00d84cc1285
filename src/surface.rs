use vstd::prelude::*;

verus! {

/// A width and a height in pixels.
#[derive(Clone, Copy, Debug, PartialEq, Eq, Structural)]
pub struct Size {
    pub width: i32,
    pub height: i32,
}

/// The shape of a surface.
#[derive(Clone, Copy, Debug, PartialEq, Eq, Structural)]
pub struct SurfaceDescriptor {
    pub size: Size,
}

/// An offscreen, GPU-backed color buffer. `id` names its native allocation.
#[derive(Debug, PartialEq, Eq, Structural)]
pub struct Surface {
    pub id: u64,
    pub descriptor: SurfaceDescriptor,
}

impl Surface {
    pub fn new(id: u64, descriptor: SurfaceDescriptor) -> (r: Surface)
        ensures
            r.id == id,
            r.descriptor == descriptor,
    {
        Surface { id, descriptor }
    }

    pub fn descriptor(&self) -> (r: &SurfaceDescriptor)
        ensures
            *r == self.descriptor,
    {
        &self.descriptor
    }
}

/// A surface exposed to GL as the texture `gl_texture`; it owns the surface.
#[derive(Debug, PartialEq, Eq, Structural)]
pub struct SurfaceTexture {
    pub surface: Surface,
    pub gl_texture: u32,
}

impl SurfaceTexture {
    pub fn surface(&self) -> (r: &Surface)
        ensures
            *r == self.surface,
    {
        &self.surface
    }

    pub fn gl_texture(&self) -> (r: u32)
        ensures
            r == self.gl_texture,
    {
        self.gl_texture
    }
}

/// Depth and stencil renderbuffers sized to a surface; 0 means the buffer is absent.
#[derive(Clone, Copy, Debug, PartialEq, Eq, Structural)]
pub struct Renderbuffers {
    pub depth: u32,
    pub stencil: u32,
}

/// A GL viewport rectangle.
#[derive(Clone, Copy, Debug, PartialEq, Eq, Structural)]
pub struct Viewport {
    pub x: i32,
    pub y: i32,
    pub width: i32,
    pub height: i32,
}

/// The viewport covering a whole surface of the given size.
pub open spec fn full_viewport(size: Size) -> Viewport {
    Viewport { x: 0, y: 0, width: size.width, height: size.height }
}

/// What a context currently renders into.
#[derive(Debug, PartialEq, Eq, Structural)]
pub enum Framebuffer {
    /// No render target.
    Detached,
    /// A native window, or a target owned by whoever created an adopted context.
    Window,
    /// An offscreen target owned by the context.
    Object {
        framebuffer_object: u32,
        color_surface_texture: SurfaceTexture,
        renderbuffers: Renderbuffers,
    },
}

} // verus!
