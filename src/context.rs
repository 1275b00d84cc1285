use vstd::prelude::*;
use crate::attributes::{ContextAttributeFlags, ContextAttributes, GLApi, GLFlavor, GLInfo, GLProfile, GLVersion};
use crate::backend::{
    context_outcome, created_context, current_outcome, make_current_result, pixel_format_outcome,
    proc_address_result,
    select_pixel_format, teardown_outcome, teardown_result, CurrentContext, Native, NativeBackend,
    NativeCall, NativeContext, Releaser,
};
use crate::error::WindowingApiError;
use crate::error::Error;
use crate::load_guard::GLLoadGuard;
use crate::surface::{full_viewport, Framebuffer, Renderbuffers, Surface, SurfaceDescriptor, SurfaceTexture, Viewport};

verus! {

/// A native rendering context together with what it renders into.
///
/// The handle is null once the context has been destroyed. The render target changes only
/// through the `Device`.
#[derive(Debug)]
pub struct Context {
    native_context: NativeContext,
    gl_info: GLInfo,
    framebuffer: Framebuffer,
    releaser: Releaser,
}

impl Context {
    /// The native handle; 0 once destroyed.
    pub closed spec fn native(&self) -> NativeContext {
        self.native_context
    }

    /// The capability information.
    pub closed spec fn info(&self) -> GLInfo {
        self.gl_info
    }

    /// The current render target.
    pub closed spec fn target(&self) -> Framebuffer {
        self.framebuffer
    }

    /// How the native handle is freed.
    pub closed spec fn release_by(&self) -> Releaser {
        self.releaser
    }

    /// Whether the context has been destroyed.
    pub open spec fn is_destroyed(&self) -> bool {
        self.native() == 0
    }

    /// The surface of the offscreen target, if there is one.
    pub open spec fn color_surface(&self) -> Option<Surface> {
        match self.target() {
            Framebuffer::Object { color_surface_texture, .. } => Some(color_surface_texture.surface),
            _ => None,
        }
    }

    /// Moves the render target out, leaving no target behind.
    fn take_framebuffer(&mut self) -> (r: Framebuffer)
        ensures
            r == old(self).framebuffer,
            final(self).framebuffer is Detached,
            final(self).native_context == old(self).native_context,
            final(self).gl_info == old(self).gl_info,
            final(self).releaser == old(self).releaser,
    {
        let mut framebuffer = Framebuffer::Detached;
        std::mem::swap(&mut self.framebuffer, &mut framebuffer);
        framebuffer
    }

    /// The native handle of the context.
    pub fn native_context(&self) -> (r: NativeContext)
        ensures
            r == self.native(),
    {
        self.native_context
    }
}

/// The state a context is left in by `Device::destroy_context`.
pub open spec fn after_destroy(c: Context) -> (Framebuffer, NativeContext) {
    if c.is_destroyed() {
        (c.target(), c.native())
    } else {
        (Framebuffer::Detached, 0)
    }
}

/// Destroying a destroyed context changes nothing, and destroying any context leaves it
/// destroyed: a second `destroy_context` takes the branch that makes no native call.
pub proof fn lemma_destroy_idempotent(c: Context)
    ensures
        after_destroy(c).1 == 0,
        c.is_destroyed() ==> after_destroy(c) == (c.target(), c.native()),
{
}

/// The GPU objects of an offscreen target that destroying its context frees.
#[derive(Debug, PartialEq, Eq, Structural)]
pub struct TargetTeardown {
    pub renderbuffers: Renderbuffers,
    /// The framebuffer object, unless it is the default framebuffer 0.
    pub framebuffer_object: Option<u32>,
    pub color_surface_texture: SurfaceTexture,
}

/// Everything that destroying a live context frees, each part held once.
#[derive(Debug, PartialEq, Eq, Structural)]
pub struct Teardown {
    pub target: Option<TargetTeardown>,
    pub releaser: Releaser,
    pub native_context: NativeContext,
}

/// What destroying the live context `c` frees: the parts of its offscreen target, if it
/// has one, and its native handle.
pub open spec fn teardown_of(c: Context) -> Teardown {
    Teardown {
        target: match c.target() {
            Framebuffer::Object { framebuffer_object, color_surface_texture, renderbuffers } =>
                Some(
                TargetTeardown {
                    renderbuffers,
                    framebuffer_object: if framebuffer_object != 0 {
                        Some(framebuffer_object)
                    } else {
                        None
                    },
                    color_surface_texture,
                },
            ),
            _ => None,
        },
        releaser: c.release_by(),
        native_context: c.native(),
    }
}

/// How many times `call` occurs in `calls`.
pub open spec fn occurrences(calls: Seq<NativeCall>, call: NativeCall) -> nat
    decreases calls.len(),
{
    if calls.len() == 0 {
        0
    } else {
        occurrences(calls.drop_last(), call) + if calls.last() == call { 1nat } else { 0nat }
    }
}

proof fn lemma_occurrences_add(a: Seq<NativeCall>, b: Seq<NativeCall>, call: NativeCall)
    ensures
        occurrences(a + b, call) == occurrences(a, call) + occurrences(b, call),
    decreases b.len(),
{
    if b.len() == 0 {
        assert(a + b =~= a);
    } else {
        lemma_occurrences_add(a, b.drop_last(), call);
        assert((a + b).drop_last() =~= a + b.drop_last());
    }
}

proof fn lemma_occurrences_one(x: NativeCall, call: NativeCall)
    ensures
        occurrences(seq![x], call) == if x == call { 1nat } else { 0nat },
{
    assert(seq![x].drop_last() =~= Seq::<NativeCall>::empty());
    assert(occurrences(Seq::<NativeCall>::empty(), call) == 0);
    assert(seq![x].last() == x);
    assert(occurrences(seq![x], call) == occurrences(seq![x].drop_last(), call) + if x == call {
        1nat
    } else {
        0nat
    });
}

/// Destroying a live context with an offscreen target frees, whatever the native calls
/// answer, its renderbuffers once, its surface texture once and releases its handle once,
/// and it leaves the context with nothing to free, so a second destruction frees nothing.
pub proof fn lemma_teardown_frees_target_once(
    c: Context,
    texture: Result<(), WindowingApiError>,
    surface: Result<(), WindowingApiError>,
)
    requires
        !c.is_destroyed(),
        c.target() is Object,
    ensures
        occurrences(
            teardown_calls(teardown_of(c), texture, surface),
            NativeCall::DestroyRenderbuffers(c.target()->renderbuffers),
        ) == 1,
        occurrences(
            teardown_calls(teardown_of(c), texture, surface),
            NativeCall::DeleteTexture(c.target()->color_surface_texture.gl_texture, texture),
        ) == 1,
        occurrences(
            teardown_calls(teardown_of(c), texture, surface),
            NativeCall::ReleaseContext(c.release_by(), c.native()),
        ) == 1,
        after_destroy(c).0 is Detached,
        after_destroy(c).1 == 0,
{
    let t = teardown_of(c);
    let target = t.target->Some_0;
    let p1 = seq![NativeCall::DestroyRenderbuffers(target.renderbuffers)];
    let p2: Seq<NativeCall> = match target.framebuffer_object {
        Some(fbo) => seq![NativeCall::DeleteFramebufferObject(fbo)],
        None => Seq::empty(),
    };
    let p3 = seq![NativeCall::DeleteTexture(target.color_surface_texture.gl_texture, texture)];
    let p4: Seq<NativeCall> = if texture is Ok {
        seq![NativeCall::DestroySurface(target.color_surface_texture.surface, surface)]
    } else {
        Seq::empty()
    };
    let p5 = seq![NativeCall::ReleaseContext(t.releaser, t.native_context)];
    assert(teardown_calls(t, texture, surface) == p1 + p2 + p3 + p4 + p5);
    let calls = [
        NativeCall::DestroyRenderbuffers(c.target()->renderbuffers),
        NativeCall::DeleteTexture(c.target()->color_surface_texture.gl_texture, texture),
        NativeCall::ReleaseContext(c.release_by(), c.native()),
    ];
    assert forall|k: int| 0 <= k < 3 implies occurrences(
        p1 + p2 + p3 + p4 + p5,
        #[trigger] calls[k],
    ) == 1 by {
        let call = calls[k];
        lemma_occurrences_add(p1 + p2 + p3 + p4, p5, call);
        lemma_occurrences_add(p1 + p2 + p3, p4, call);
        lemma_occurrences_add(p1 + p2, p3, call);
        lemma_occurrences_add(p1, p2, call);
        lemma_occurrences_one(p1[0], call);
        lemma_occurrences_one(p3[0], call);
        lemma_occurrences_one(p5[0], call);
        if p2.len() == 0 {
            assert(occurrences(p2, call) == 0);
        } else {
            assert(p2 =~= seq![p2[0]]);
            lemma_occurrences_one(p2[0], call);
        }
        if p4.len() == 0 {
            assert(occurrences(p4, call) == 0);
        } else {
            assert(p4 =~= seq![p4[0]]);
            lemma_occurrences_one(p4[0], call);
        }
    }
    assert(calls[0] == NativeCall::DestroyRenderbuffers(c.target()->renderbuffers));
    assert(calls[1] == NativeCall::DeleteTexture(c.target()->color_surface_texture.gl_texture, texture));
    assert(calls[2] == NativeCall::ReleaseContext(c.release_by(), c.native()));
}

/// Whether `size` is the size of the surface currently attached to `target`.
pub open spec fn same_size_attached(target: Framebuffer, size: crate::surface::Size) -> bool {
    match target {
        Framebuffer::Object { color_surface_texture, .. } =>
            color_surface_texture.surface.descriptor.size == size,
        _ => false,
    }
}

proof fn lemma_unit_ok(a: Result<(), WindowingApiError>)
    ensures
        a is Ok ==> a == Ok::<(), WindowingApiError>(()),
{
    if a is Ok {
        let u: () = a->Ok_0;
        assert(u == ());
    }
}

/// The calls after which a context of the given native handle is current and flushed.
pub open spec fn current_and_flushed(native: NativeContext) -> Seq<NativeCall> {
    seq![NativeCall::SetCurrentContext(native, Ok(())), NativeCall::Flush]
}

/// The calls that tear down `target` when deleting its texture answered `texture`: the
/// texture, then the renderbuffers and the framebuffer object whatever that answer was.
pub open spec fn framebuffer_teardown_calls(
    target: Framebuffer,
    texture: Result<(), WindowingApiError>,
) -> Seq<NativeCall> {
    match target {
        Framebuffer::Object { framebuffer_object, color_surface_texture, renderbuffers } => seq![
            NativeCall::DeleteTexture(color_surface_texture.gl_texture, texture),
            NativeCall::DestroyRenderbuffers(renderbuffers),
            NativeCall::DeleteFramebufferObject(framebuffer_object),
        ],
        _ => Seq::empty(),
    }
}

/// The calls that build `built`, an offscreen target around `surface`, for a context with
/// `flags`: texture, framebuffer object, attachment, renderbuffers of the surface's size,
/// and a viewport covering it, last.
pub open spec fn framebuffer_build_calls(
    surface: Surface,
    flags: ContextAttributeFlags,
    built: Framebuffer,
) -> Seq<NativeCall> {
    let fbo = built->framebuffer_object;
    let texture = built->color_surface_texture.gl_texture;
    seq![
        NativeCall::CreateTexture(surface, Ok(texture)),
        NativeCall::CreateFramebufferObject(fbo),
        NativeCall::AttachColorTexture(fbo, texture),
        NativeCall::CreateRenderbuffers(surface.descriptor.size, flags, built->renderbuffers),
        NativeCall::SetViewport(full_viewport(surface.descriptor.size)),
    ]
}

/// The calls of a same-size replacement of the color surface of `before` that left `after`,
/// once the new texture was made: it is attached to the same framebuffer object, then the
/// old texture is deleted, which answered `deleted`. No framebuffer object or renderbuffer
/// is made or freed.
pub open spec fn in_place_calls(
    surface: Surface,
    before: Framebuffer,
    after: Framebuffer,
    deleted: Result<(), WindowingApiError>,
) -> Seq<NativeCall> {
    let texture = after->color_surface_texture.gl_texture;
    seq![
        NativeCall::CreateTexture(surface, Ok(texture)),
        NativeCall::AttachColorTexture(before->framebuffer_object, texture),
        NativeCall::DeleteTexture(before->color_surface_texture.gl_texture, deleted),
    ]
}

/// The destruction of the surface `displaced`, if there is one, answered by `answer`.
pub open spec fn displaced_calls(displaced: Option<Surface>, answer: Result<(), WindowingApiError>) -> Seq<
    NativeCall,
> {
    match displaced {
        Some(s) => seq![NativeCall::DestroySurface(s, answer)],
        None => Seq::empty(),
    }
}

/// The calls that destroy a live context, given what deleting the texture and destroying
/// the surface answered: innermost first, then the release, once each.
pub open spec fn teardown_calls(
    t: Teardown,
    texture: Result<(), WindowingApiError>,
    surface: Result<(), WindowingApiError>,
) -> Seq<NativeCall> {
    let target_calls = match t.target {
        None => Seq::empty(),
        Some(target) => seq![NativeCall::DestroyRenderbuffers(target.renderbuffers)] + match target.framebuffer_object {
            Some(fbo) => seq![NativeCall::DeleteFramebufferObject(fbo)],
            None => Seq::empty(),
        } + seq![NativeCall::DeleteTexture(target.color_surface_texture.gl_texture, texture)]
            + if texture is Ok {
            seq![NativeCall::DestroySurface(target.color_surface_texture.surface, surface)]
        } else {
            Seq::empty()
        },
    };
    target_calls + seq![NativeCall::ReleaseContext(t.releaser, t.native_context)]
}

/// The GL load made by the holder of a load guard whose flag was `loaded`.
pub open spec fn load_calls(loaded: bool) -> Seq<NativeCall> {
    if loaded {
        Seq::empty()
    } else {
        seq![NativeCall::LoadGlEntryPoints]
    }
}

/// The factory and mutator of contexts for one native display.
#[derive(Debug, PartialEq, Eq, Structural)]
pub struct Device {
    pub native_display: usize,
}

impl Device {
    /// A device for the given native display.
    pub fn new(native_display: usize) -> (r: Device)
        ensures
            r.native_display == native_display,
    {
        Device { native_display }
    }

    /// The viewport that covers a surface of the given shape.
    pub fn viewport_for(descriptor: &SurfaceDescriptor) -> (r: Viewport)
        ensures
            r == full_viewport(descriptor.size),
    {
        Viewport { x: 0, y: 0, width: descriptor.size.width, height: descriptor.size.height }
    }

    /// Creates a context for `attributes`, with no render target, and makes it current.
    ///
    /// The caller holds `load_guard` behind the process-wide mutex for the whole call; the
    /// first context created in the process loads the GL entry points, and only it.
    pub fn create_context<B: NativeBackend>(
        &self,
        native: &mut Native<B>,
        load_guard: &mut GLLoadGuard,
        attributes: &ContextAttributes,
    ) -> (r: Result<Context, Error>)
        ensures
            (r == Err::<Context, Error>(Error::UnsupportedGLType)) <==> crate::attributes::profile_for(
                *attributes,
            ) is Err,
            crate::attributes::profile_for(*attributes) is Err ==> final(native).log@ == old(
                native,
            ).log@ && *final(load_guard) == *old(load_guard),
            final(native).log@.len() >= old(native).log@.len(),
            final(native).log@.subrange(0, old(native).log@.len() as int) == old(native).log@,
            r is Err ==> *final(load_guard) == *old(load_guard) && forall|i: int|
                old(native).log@.len() <= i < final(native).log@.len() ==> !(
                #[trigger] final(native).log@[i] is LoadGlEntryPoints),
            crate::attributes::profile_for(*attributes) matches Ok(profile) ==> ({
                let d = final(native).log@.subrange(
                    old(native).log@.len() as int,
                    final(native).log@.len() as int,
                );
                let choice = d[0]->ChoosePixelFormat_1;
                let created = d[1]->CreateNativeContext_1;
                let status = d[2]->SetCurrentContext_1;
                &&& d.len() >= 1
                &&& d[0] == NativeCall::ChoosePixelFormat(profile, choice)
                &&& pixel_format_outcome(choice) matches Err(e) ==> r == Err::<Context, Error>(e)
                    && d.len() == 1
                &&& pixel_format_outcome(choice) matches Ok(pixel_format) ==> {
                    &&& d.len() >= 2
                    &&& d[1] == NativeCall::CreateNativeContext(pixel_format, created)
                    &&& context_outcome(created) matches Err(e) ==> r == Err::<Context, Error>(e)
                        && d.len() == 2
                    &&& context_outcome(created) matches Ok(n) ==> {
                        &&& d.len() >= 3
                        &&& d[2] == NativeCall::SetCurrentContext(n, status)
                        &&& current_outcome(status) matches Err(e) ==> r == Err::<Context, Error>(e)
                            && d.len() == 3
                        &&& current_outcome(status) is Ok ==> (r matches Ok(c) && c.native() == n)
                    }
                }
            }),
            r matches Ok(c) ==> {
                let d = final(native).log@.subrange(
                    old(native).log@.len() as int,
                    final(native).log@.len() as int,
                );
                &&& c.native() != 0
                &&& c.info().attributes == *attributes
                &&& c.info().populated
                &&& c.target() is Detached
                &&& c.release_by() is Owned
                &&& final(load_guard).loaded
                &&& d.len() == 3 + load_calls(old(load_guard).loaded).len()
                &&& d[0] is ChoosePixelFormat
                &&& d[1] is CreateNativeContext
                &&& d[2] == NativeCall::SetCurrentContext(c.native(), Ok(()))
                &&& d.subrange(3, d.len() as int) == load_calls(old(load_guard).loaded)
            },
    {
        let ghost start = native.log@.len();
        let profile = match GLProfile::for_attributes(attributes) {
            Ok(profile) => profile,
            Err(err) => {
                assert(native.log@.subrange(0, old(native).log@.len() as int) =~= old(native).log@);
                return Err(err);
            },
        };
        let choice = native.choose_pixel_format(profile);
        let pixel_format = match select_pixel_format(choice) {
            Ok(pixel_format) => pixel_format,
            Err(err) => {
                assert(native.log@.subrange(0, old(native).log@.len() as int) =~= old(native).log@);
                return Err(err);
            },
        };
        let created = native.create_native_context(pixel_format);
        let native_context = match created_context(created) {
            Ok(native_context) => native_context,
            Err(err) => {
                assert(native.log@.subrange(0, old(native).log@.len() as int) =~= old(native).log@);
                return Err(err);
            },
        };
        let status = native.set_current_context(native_context);
        proof {
            lemma_unit_ok(status);
        }
        match make_current_result(status) {
            Ok(()) => {},
            Err(err) => {
                assert(native.log@.subrange(0, old(native).log@.len() as int) =~= old(native).log@);
                return Err(err);
            },
        }
        let mut context = Context {
            native_context,
            gl_info: GLInfo::new(attributes),
            framebuffer: Framebuffer::Detached,
            releaser: Releaser::Owned,
        };
        let ghost before_load = native.log@;
        if load_guard.claim_load() {
            native.load_gl_entry_points();
        }
        assert(native.log@ =~= before_load + load_calls(old(load_guard).loaded));
        assert(native.log@.subrange(start as int, native.log@.len() as int).subrange(
            3,
            native.log@.len() - start,
        ) =~= load_calls(old(load_guard).loaded));
        assert(native.log@.subrange(0, old(native).log@.len() as int) =~= old(native).log@);
        context.gl_info.populate();
        Ok(context)
    }

    /// Wraps the context that is current on the calling thread, as `current` describes it,
    /// together with a device for its display.
    ///
    /// The attribute flags are read off the channel sizes of the context's configuration.
    /// The render target belongs to whoever created the context: it counts as a window, so
    /// the surface operations refuse it. Destroying the context hands it back to its
    /// creator's cleanup. The only native call is the one-time GL load.
    pub fn from_current_context<B: NativeBackend>(
        native: &mut Native<B>,
        load_guard: &mut GLLoadGuard,
        current: CurrentContext,
    ) -> (r: Result<(Device, Context), Error>)
        requires
            current.native_context != 0,
            0 < current.client_version <= 255,
        ensures
            r matches Ok((d, c)) ==> {
                &&& d.native_display == current.native_display
                &&& c.native() == current.native_context
                &&& c.target() is Window
                &&& c.release_by() is Adopted
                &&& c.info().populated
                &&& c.info().attributes.flags.alpha == (current.alpha_size != 0)
                &&& c.info().attributes.flags.depth == (current.depth_size != 0)
                &&& c.info().attributes.flags.stencil == (current.stencil_size != 0)
                &&& c.info().attributes.flavor.api is GL
                &&& c.info().attributes.flavor.version.major == current.client_version
                &&& c.info().attributes.flavor.version.minor == 0
            },
            r is Ok,
            final(load_guard).loaded,
            final(native).log@ == old(native).log@ + load_calls(old(load_guard).loaded),
    {
        let device = Device::new(current.native_display);
        let version = GLVersion::new(current.client_version as u8, 0);
        let flags = ContextAttributeFlags::from_sizes(
            current.alpha_size,
            current.depth_size,
            current.stencil_size,
        );
        let attributes = ContextAttributes { flags, flavor: GLFlavor { api: GLApi::GL, version } };
        let mut context = Context {
            native_context: current.native_context,
            gl_info: GLInfo::new(&attributes),
            framebuffer: Framebuffer::Window,
            releaser: Releaser::Adopted,
        };
        if load_guard.claim_load() {
            native.load_gl_entry_points();
        }
        assert(native.log@ =~= old(native).log@ + load_calls(old(load_guard).loaded));
        context.gl_info.populate();
        Ok((device, context))
    }

    /// Destroys `context`: tears down its offscreen target, if any (renderbuffers, then the
    /// framebuffer object, then the surface texture and its surface), then releases the
    /// native handle and nulls it. Every part is torn down even when an earlier one fails;
    /// the error reported is the first one met. A context that is already destroyed is left
    /// alone and no native call is made.
    pub fn destroy_context<B: NativeBackend>(
        &self,
        native: &mut Native<B>,
        context: &mut Context,
    ) -> (r: Result<(), Error>)
        ensures
            (final(context).target(), final(context).native()) == after_destroy(*old(context)),
            final(context).info() == old(context).info(),
            final(context).release_by() == old(context).release_by(),
            old(context).is_destroyed() ==> r == Ok::<(), Error>(()) && *final(native)
                == *old(native),
            !old(context).is_destroyed() ==> exists|
                texture: Result<(), WindowingApiError>,
                surface: Result<(), WindowingApiError>,
            |
                final(native).log@ == old(native).log@ + #[trigger] teardown_calls(
                    teardown_of(*old(context)),
                    texture,
                    surface,
                ) && r == teardown_outcome(texture, surface),
            !(old(context).target() is Object) ==> r == Ok::<(), Error>(()),
    {
        let teardown = match self.take_teardown(context) {
            None => return Ok(()),
            Some(teardown) => teardown,
        };
        let ghost t = teardown;
        let ghost start = native.log@;
        let mut texture_answer: Result<(), WindowingApiError> = Ok(());
        let mut surface_answer: Option<Result<(), WindowingApiError>> = None;
        if let Some(target) = teardown.target {
            native.destroy_renderbuffers(target.renderbuffers);
            if let Some(framebuffer_object) = target.framebuffer_object {
                native.delete_framebuffer_object(framebuffer_object);
            }
            let texture = target.color_surface_texture.gl_texture;
            let deleted = native.delete_texture(texture);
            texture_answer = deleted;
            if deleted.is_ok() {
                surface_answer = Some(native.destroy_surface(target.color_surface_texture.surface));
            }
        }
        native.release_context(teardown.releaser, teardown.native_context);
        let ghost surface_witness = match surface_answer {
            Some(a) => a,
            None => Ok(()),
        };
        assert(native.log@ =~= start + teardown_calls(t, texture_answer, surface_witness));
        teardown_result(texture_answer, surface_answer)
    }

    /// The address of the GL entry point `symbol_name`.
    pub fn get_proc_address<B: NativeBackend>(
        &self,
        native: &mut Native<B>,
        context: &Context,
        symbol_name: &str,
    ) -> (r: Result<usize, Error>)
        ensures
            final(native).log@ == old(native).log@.push(NativeCall::GlLibraryFound(false))
                ==> r == Err::<usize, Error>(Error::NoGLLibraryFound),
            final(native).log@ == old(native).log@.push(NativeCall::GlLibraryFound(false))
                || ({
                let address = final(native).log@.last()->SymbolAddress_0;
                &&& final(native).log@ == old(native).log@.push(NativeCall::GlLibraryFound(true)).push(
                    NativeCall::SymbolAddress(address),
                )
                &&& address == 0 ==> r == Err::<usize, Error>(Error::GLFunctionNotFound)
                &&& address != 0 ==> r == Ok::<usize, Error>(address)
            }),
    {
        if !native.gl_library_found() {
            return proc_address_result(false, 0);
        }
        let address = native.symbol_address(symbol_name);
        proc_address_result(true, address)
    }

    /// Makes the context current on the calling thread.
    pub fn make_context_current<B: NativeBackend>(
        &self,
        native: &mut Native<B>,
        context: &Context,
    ) -> (r: Result<(), Error>)
        ensures
            final(native).log@ == old(native).log@.push(
                NativeCall::SetCurrentContext(context.native(), final(native).log@.last()->SetCurrentContext_1),
            ),
            r == current_outcome(final(native).log@.last()->SetCurrentContext_1),
    {
        let a = native.set_current_context(context.native_context);
        make_current_result(a)
    }

    /// Unbinds whatever context is current on the calling thread.
    pub fn make_context_not_current<B: NativeBackend>(
        &self,
        native: &mut Native<B>,
        context: &Context,
    ) -> (r: Result<(), Error>)
        ensures
            final(native).log@ == old(native).log@.push(
                NativeCall::SetCurrentContext(0, final(native).log@.last()->SetCurrentContext_1),
            ),
            r == current_outcome(final(native).log@.last()->SetCurrentContext_1),
    {
        let a = native.set_current_context(0);
        make_current_result(a)
    }

    /// Replaces the offscreen color surface of `context` with `new_color_surface` and hands
    /// back the surface that was attached before, if any; it is never destroyed here.
    ///
    /// A context that renders into a window is refused and left as it was. Otherwise the
    /// context is made current and flushed first. When it already renders into a surface of
    /// the same size, the framebuffer object and its renderbuffers are kept and only the
    /// color attachment changes. Otherwise the old target is torn down and a new one built,
    /// with the viewport set to cover the new surface; if that fails, the displaced surface
    /// is destroyed. The call succeeds whenever every native call does.
    pub fn replace_context_color_surface<B: NativeBackend>(
        &self,
        native: &mut Native<B>,
        context: &mut Context,
        new_color_surface: Surface,
    ) -> (r: Result<Option<Surface>, Error>)
        ensures
            ({
                let l0 = old(native).log@;
                let l1 = final(native).log@;
                let d = l1.subrange(l0.len() as int, l1.len() as int);
                let size = new_color_surface.descriptor.size;
                let same = same_size_attached(old(context).target(), size);
                &&& old(context).target() is Window ==> r == Err::<Option<Surface>, Error>(
                    Error::WindowAttached,
                ) && *final(context) == *old(context) && *final(native) == *old(native)
                &&& !(old(context).target() is Window) ==> {
                    let n = old(context).native();
                    let a = l1[l0.len() as int]->SetCurrentContext_1;
                    let pre = current_and_flushed(n);
                    &&& r != Err::<Option<Surface>, Error>(Error::WindowAttached)
                    &&& l1.len() > l0.len()
                    &&& l1[l0.len() as int] == NativeCall::SetCurrentContext(n, a)
                    &&& a matches Err(code) ==> r == Err::<Option<Surface>, Error>(
                        Error::MakeCurrentFailed(code),
                    ) && *final(context) == *old(context) && l1 == l0.push(
                        NativeCall::SetCurrentContext(n, a),
                    )
                    &&& a is Ok ==> l1.len() >= l0.len() + 2 && l1.subrange(
                        0,
                        l0.len() + 2int,
                    ) == l0 + pre
                    &&& a is Ok && same ==> {
                        let made = l1[l0.len() + 2int]->CreateTexture_1;
                        &&& made is Err ==> l1 == l0 + pre + seq![
                            NativeCall::CreateTexture(new_color_surface, made),
                        ] && r == Err::<Option<Surface>, Error>(Error::SurfaceFailed(made->Err_0))
                            && *final(context) == *old(context)
                        &&& made is Ok ==> {
                            let deleted = l1.last()->DeleteTexture_1;
                            &&& l1 == l0 + pre + in_place_calls(
                                new_color_surface,
                                old(context).target(),
                                final(context).target(),
                                deleted,
                            )
                            &&& final(context).color_surface() == Some(new_color_surface)
                            &&& deleted matches Err(code) ==> r == Err::<Option<Surface>, Error>(
                                Error::SurfaceFailed(code),
                            )
                            &&& deleted is Ok ==> r == Ok::<Option<Surface>, Error>(
                                old(context).color_surface(),
                            )
                        }
                    }
                    &&& a is Ok && !same ==> {
                        let deleted = l1[l0.len() + 2int]->DeleteTexture_1;
                        let torn = framebuffer_teardown_calls(old(context).target(), Ok(()));
                        let made = l1[(l0.len() + 2 + torn.len()) as int]->CreateTexture_1;
                        &&& old(context).target() is Object && deleted is Err ==> l1 == l0 + pre
                            + framebuffer_teardown_calls(old(context).target(), deleted) && r
                            == Err::<Option<Surface>, Error>(Error::SurfaceFailed(deleted->Err_0))
                            && final(context).target() is Detached
                        &&& (old(context).target() is Detached || deleted is Ok) ==> {
                            &&& made is Err ==> l1 == l0 + pre + torn + seq![
                                NativeCall::CreateTexture(new_color_surface, made),
                            ] + displaced_calls(
                                old(context).color_surface(),
                                l1.last()->DestroySurface_1,
                            ) && r == Err::<Option<Surface>, Error>(
                                Error::SurfaceFailed(made->Err_0),
                            ) && final(context).target() is Detached
                            &&& made is Ok ==> l1 == l0 + pre + torn + framebuffer_build_calls(
                                new_color_surface,
                                old(context).info().attributes.flags,
                                final(context).target(),
                            ) && r == Ok::<Option<Surface>, Error>(old(context).color_surface())
                        }
                    }
                }
            }),
            final(context).native() == old(context).native(),
            final(context).info() == old(context).info(),
            final(context).release_by() == old(context).release_by(),
            r is Ok ==> final(context).color_surface() == Some(new_color_surface),
            r is Ok ==> r->Ok_0 == old(context).color_surface(),
            r is Ok && same_size_attached(old(context).target(), new_color_surface.descriptor.size)
                ==> final(context).target()->framebuffer_object
                == old(context).target()->framebuffer_object
                && final(context).target()->renderbuffers
                == old(context).target()->renderbuffers,
    {
        if let Framebuffer::Window = context.framebuffer {
            return Err(Error::WindowAttached);
        }
        let ghost l0 = native.log@;
        let ghost new_surface = new_color_surface;
        let current = native.set_current_context(context.native_context);
        match make_current_result(current) {
            Ok(()) => {},
            Err(err) => {
                assert(native.log@.subrange(l0.len() as int, native.log@.len() as int) =~= seq![
                    NativeCall::SetCurrentContext(context.native_context, current)]);
                return Err(err);
            },
        }
        proof {
            lemma_unit_ok(current);
        }
        native.flush();
        let ghost l2 = native.log@;
        assert(l2 =~= l0 + current_and_flushed(context.native_context));

        let can_modify_existing_framebuffer = match &context.framebuffer {
            Framebuffer::Object { color_surface_texture, .. } => {
                color_surface_texture.surface().descriptor().size
                    == new_color_surface.descriptor().size
            },
            _ => false,
        };
        if can_modify_existing_framebuffer {
            let replaced = self.replace_color_surface_in_existing_framebuffer(
                native,
                context,
                new_color_surface,
            );
            proof {
                let pre = current_and_flushed(old(context).native_context);
                let made = native.log@[l2.len() as int]->CreateTexture_1;
                if made is Err {
                    assert(native.log@ =~= l0 + pre + seq![
                        NativeCall::CreateTexture(new_surface, made),
                    ]);
                } else {
                    assert(native.log@ =~= l0 + pre + in_place_calls(
                        new_surface,
                        old(context).framebuffer,
                        context.framebuffer,
                        native.log@.last()->DeleteTexture_1,
                    ));
                }
                assert(native.log@.subrange(0, l0.len() + 2int) =~= l0 + pre);
            }
            return match replaced {
                Ok(old_surface) => Ok(Some(old_surface)),
                Err(code) => Err(Error::SurfaceFailed(code)),
            };
        }

        let (old_surface, result) = self.destroy_framebuffer(native, context);
        proof {
            lemma_unit_ok(result);
            assert(native.log@ =~= l0 + current_and_flushed(old(context).native_context)
                + framebuffer_teardown_calls(old(context).framebuffer, result));
            assert(native.log@.subrange(0, l0.len() + 2int) =~= l0 + current_and_flushed(
                old(context).native_context,
            ));
        }
        if let Err(code) = result {
            return Err(Error::SurfaceFailed(code));
        }
        let built = self.create_framebuffer(native, context, new_color_surface);
        match built {
            Ok(()) => {
                assert(native.log@ =~= l0 + current_and_flushed(old(context).native_context)
                    + framebuffer_teardown_calls(old(context).framebuffer, Ok(()))
                    + framebuffer_build_calls(
                    new_surface,
                    old(context).gl_info.attributes.flags,
                    context.framebuffer,
                ));
                assert(native.log@.subrange(0, l0.len() + 2int) =~= l0 + current_and_flushed(
                    old(context).native_context,
                ));
                Ok(old_surface)
            },
            Err(code) => {
                if let Some(old_surface) = old_surface {
                    let _ = native.destroy_surface(old_surface);
                }
                assert(native.log@ =~= l0 + current_and_flushed(old(context).native_context)
                    + framebuffer_teardown_calls(old(context).framebuffer, Ok(())) + seq![
                    NativeCall::CreateTexture(new_surface, Err(code)),
                ] + displaced_calls(
                    old(context).color_surface(),
                    native.log@.last()->DestroySurface_1,
                ));
                assert(native.log@.subrange(0, l0.len() + 2int) =~= l0 + current_and_flushed(
                    old(context).native_context,
                ));
                Err(Error::SurfaceFailed(code))
            },
        }
    }

    /// Wraps `surface` in a new GL texture.
    fn create_surface_texture<B: NativeBackend>(
        &self,
        native: &mut Native<B>,
        surface: Surface,
    ) -> (r: Result<SurfaceTexture, WindowingApiError>)
        ensures
            final(native).log@ == old(native).log@.push(
                NativeCall::CreateTexture(
                    surface,
                    match r {
                        Ok(t) => Ok(t.gl_texture),
                        Err(code) => Err(code),
                    },
                ),
            ),
            r matches Ok(t) ==> t.surface == surface,
    {
        match native.create_texture(&surface) {
            Ok(gl_texture) => Ok(SurfaceTexture { surface, gl_texture }),
            Err(code) => Err(code),
        }
    }

    /// Builds a framebuffer object around `color_surface`, with renderbuffers of its size,
    /// and sets the viewport to cover it. The context is current and has no target.
    fn create_framebuffer<B: NativeBackend>(
        &self,
        native: &mut Native<B>,
        context: &mut Context,
        color_surface: Surface,
    ) -> (r: Result<(), WindowingApiError>)
        requires
            old(context).target() is Detached,
        ensures
            final(context).native() == old(context).native(),
            final(context).info() == old(context).info(),
            final(context).release_by() == old(context).release_by(),
            r is Ok ==> final(context).color_surface() == Some(color_surface)
                && final(context).target() is Object && final(native).log@ == old(native).log@
                + framebuffer_build_calls(
                color_surface,
                old(context).info().attributes.flags,
                final(context).target(),
            ),
            r matches Err(code) ==> final(context).target() is Detached && final(native).log@
                == old(native).log@.push(NativeCall::CreateTexture(color_surface, Err(code))),
    {
        let descriptor = color_surface.descriptor;
        let color_surface_texture = match self.create_surface_texture(native, color_surface) {
            Ok(t) => t,
            Err(code) => return Err(code),
        };
        let framebuffer_object = native.create_framebuffer_object();
        native.attach_color_texture(framebuffer_object, color_surface_texture.gl_texture());
        let renderbuffers = native.create_renderbuffers(
            descriptor.size,
            context.gl_info.attributes.flags,
        );
        native.set_viewport(Device::viewport_for(&descriptor));
        context.framebuffer = Framebuffer::Object {
            framebuffer_object,
            color_surface_texture,
            renderbuffers,
        };
        assert(native.log@ =~= old(native).log@ + framebuffer_build_calls(
            color_surface,
            old(context).gl_info.attributes.flags,
            context.framebuffer,
        ));
        Ok(())
    }

    /// Tears down the offscreen target, handing back its surface. Every part is freed even
    /// when deleting the texture fails; the surface is then lost and the error reported.
    fn destroy_framebuffer<B: NativeBackend>(
        &self,
        native: &mut Native<B>,
        context: &mut Context,
    ) -> (r: (Option<Surface>, Result<(), WindowingApiError>))
        requires
            !(old(context).target() is Window),
        ensures
            final(context).target() is Detached,
            final(context).native() == old(context).native(),
            final(context).info() == old(context).info(),
            final(context).release_by() == old(context).release_by(),
            final(native).log@ == old(native).log@ + framebuffer_teardown_calls(
                old(context).target(),
                r.1,
            ),
            old(context).target() is Detached ==> r == (None::<Surface>, Ok::<(), WindowingApiError>(())),
            r.1 is Ok ==> r.0 == old(context).color_surface(),
            r.1 is Err ==> r.0 is None,
    {
        let framebuffer = context.take_framebuffer();
        match framebuffer {
            Framebuffer::Object { framebuffer_object, color_surface_texture, renderbuffers } => {
                let deleted = native.delete_texture(color_surface_texture.gl_texture);
                proof {
                    lemma_unit_ok(deleted);
                }
                native.destroy_renderbuffers(renderbuffers);
                native.delete_framebuffer_object(framebuffer_object);
                assert(native.log@ =~= old(native).log@ + framebuffer_teardown_calls(
                    old(context).framebuffer,
                    deleted,
                ));
                match deleted {
                    Ok(()) => (Some(color_surface_texture.surface), Ok(())),
                    Err(code) => (None, Err(code)),
                }
            },
            _ => {
                assert(native.log@ =~= old(native).log@ + framebuffer_teardown_calls(
                    old(context).framebuffer,
                    Ok(()),
                ));
                (None, Ok(()))
            },
        }
    }

    /// Attaches `new_color_surface` to the existing framebuffer object in place of the
    /// current color surface, whose texture is deleted and whose surface is handed back. The
    /// context is current and has an offscreen target.
    fn replace_color_surface_in_existing_framebuffer<B: NativeBackend>(
        &self,
        native: &mut Native<B>,
        context: &mut Context,
        new_color_surface: Surface,
    ) -> (r: Result<Surface, WindowingApiError>)
        requires
            old(context).target() is Object,
        ensures
            final(context).native() == old(context).native(),
            final(context).info() == old(context).info(),
            final(context).release_by() == old(context).release_by(),
            final(context).target() is Object,
            final(context).target()->framebuffer_object == old(context).target()->framebuffer_object,
            final(context).target()->renderbuffers == old(context).target()->renderbuffers,
            r is Ok ==> final(context).color_surface() == Some(new_color_surface),
            r is Ok ==> Some(r->Ok_0) == old(context).color_surface(),
            final(native).log@.len() > old(native).log@.len(),
            ({
                let made = final(native).log@[old(native).log@.len() as int]->CreateTexture_1;
                &&& made is Err ==> final(native).log@ == old(native).log@.push(
                    NativeCall::CreateTexture(new_color_surface, made),
                ) && r == Err::<Surface, WindowingApiError>(made->Err_0) && *final(context)
                    == *old(context)
                &&& made is Ok ==> {
                    let deleted = final(native).log@.last()->DeleteTexture_1;
                    &&& final(native).log@ == old(native).log@ + in_place_calls(
                        new_color_surface,
                        old(context).target(),
                        final(context).target(),
                        deleted,
                    )
                    &&& final(context).color_surface() == Some(new_color_surface)
                    &&& final(context).target()->color_surface_texture.gl_texture == made->Ok_0
                    &&& deleted matches Err(code) ==> r == Err::<Surface, WindowingApiError>(code)
                    &&& deleted is Ok ==> r is Ok
                }
            }),
            final(native).log@.subrange(0, old(native).log@.len() as int) == old(native).log@,
    {
        let new_color_surface_texture = match self.create_surface_texture(native, new_color_surface) {
            Ok(t) => t,
            Err(code) => {
                assert(native.log@.subrange(0, old(native).log@.len() as int) =~= old(native).log@);
                return Err(code);
            },
        };
        let framebuffer = context.take_framebuffer();
        match framebuffer {
            Framebuffer::Object { framebuffer_object, color_surface_texture, renderbuffers } => {
                native.attach_color_texture(framebuffer_object, new_color_surface_texture.gl_texture());
                context.framebuffer = Framebuffer::Object {
                    framebuffer_object,
                    color_surface_texture: new_color_surface_texture,
                    renderbuffers,
                };
                let deleted = native.delete_texture(color_surface_texture.gl_texture);
                proof {
                    lemma_unit_ok(deleted);
                }
                assert(native.log@.subrange(0, old(native).log@.len() as int) =~= old(native).log@);
                assert(native.log@ =~= old(native).log@ + in_place_calls(
                    new_color_surface,
                    old(context).framebuffer,
                    context.framebuffer,
                    deleted,
                ));
                match deleted {
                    Ok(()) => Ok(color_surface_texture.surface),
                    Err(code) => Err(code),
                }
            },
            other => {
                context.framebuffer = other;
                Err(0)
            },
        }
    }

    /// Takes from `context` everything that destroying it must free, each part once, and
    /// leaves the context destroyed: no target and the null handle. A context that is
    /// already destroyed yields nothing and is left alone.
    pub fn take_teardown(&self, context: &mut Context) -> (r: Option<Teardown>)
        ensures
            (final(context).target(), final(context).native()) == after_destroy(*old(context)),
            final(context).info() == old(context).info(),
            final(context).release_by() == old(context).release_by(),
            old(context).is_destroyed() <==> r is None,
            r matches Some(t) ==> t == teardown_of(*old(context)),
    {
        if context.native_context == 0 {
            return None;
        }
        let framebuffer = context.take_framebuffer();
        let target = match framebuffer {
            Framebuffer::Object { framebuffer_object, color_surface_texture, renderbuffers } => {
                Some(TargetTeardown {
                    renderbuffers,
                    framebuffer_object: if framebuffer_object != 0 {
                        Some(framebuffer_object)
                    } else {
                        None
                    },
                    color_surface_texture,
                })
            },
            _ => None,
        };
        let teardown = Teardown {
            target,
            releaser: context.releaser,
            native_context: context.native_context,
        };
        context.native_context = 0;
        Some(teardown)
    }

    /// The capability information of `context`.
    pub fn context_gl_info<'c>(&self, context: &'c Context) -> (r: &'c GLInfo)
        ensures
            *r == context.info(),
    {
        &context.gl_info
    }

    /// The surface that `context` renders into offscreen, if any.
    pub fn context_color_surface<'c>(&self, context: &'c Context) -> (r: Option<&'c Surface>)
        ensures
            match context.color_surface() {
                Some(s) => r matches Some(t) && *t == s,
                None => r is None,
            },
    {
        match &context.framebuffer {
            Framebuffer::Object { color_surface_texture, .. } => Some(color_surface_texture.surface()),
            _ => None,
        }
    }

    /// The framebuffer object of the offscreen target of `context`.
    pub fn context_surface_framebuffer_object(&self, context: &Context) -> (r: Result<u32, Error>)
        ensures
            match context.target() {
                Framebuffer::Detached => r == Err::<u32, Error>(Error::NoSurfaceAttached),
                Framebuffer::Window => r == Err::<u32, Error>(Error::WindowAttached),
                Framebuffer::Object { framebuffer_object, .. } => r == Ok::<u32, Error>(
                    framebuffer_object,
                ),
            },
    {
        match &context.framebuffer {
            Framebuffer::Detached => Err(Error::NoSurfaceAttached),
            Framebuffer::Window => Err(Error::WindowAttached),
            Framebuffer::Object { framebuffer_object, .. } => Ok(*framebuffer_object),
        }
    }

}

} // verus!
