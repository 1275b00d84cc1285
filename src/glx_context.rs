use vstd::prelude::*;

verus! {

/// The GLX entry points that a `GLContext` drives; handles are passed as plain integers,
/// with 0 as the null handle.
pub trait GlxBackend {
    /// Creates a context of `framebuffer_config` on `display`, sharing with `share_context`
    /// unless it is null; returns the null handle on failure.
    fn create_new_context(&mut self, display: usize, framebuffer_config: usize, share_context: usize) -> usize;

    /// The context current on the calling thread.
    fn current_context(&mut self) -> usize;

    /// Binds `context` and `drawable` on the calling thread; false on failure.
    fn make_current(&mut self, display: usize, drawable: u64, context: usize) -> bool;

    /// Destroys a context.
    fn destroy_context(&mut self, display: usize, context: usize);

    /// Destroys a pixmap drawable.
    fn destroy_pixmap(&mut self, display: usize, drawable: u64);
}

/// One call made on a `GlxBackend`, with its arguments and what it returned.
pub enum GlxCall {
    CreateNewContext(usize, usize, usize, usize),
    CurrentContext(usize),
    MakeCurrent(usize, u64, usize, bool),
    DestroyContext(usize, usize),
    DestroyPixmap(usize, u64),
}

/// A GLX backend together with the record of every call made on it.
pub struct GlxNative<G> {
    pub glx: G,
    /// The calls made so far, oldest first.
    pub log: Ghost<Seq<GlxCall>>,
}

impl<G: GlxBackend> GlxNative<G> {
    /// Wraps `glx`, with nothing recorded yet.
    pub fn new(glx: G) -> (r: GlxNative<G>)
        ensures
            r.glx == glx,
            r.log@ == Seq::<GlxCall>::empty(),
    {
        GlxNative { glx, log: Ghost(Seq::empty()) }
    }

    pub fn create_new_context(&mut self, display: usize, framebuffer_config: usize, share_context: usize) -> (r: usize)
        ensures
            final(self).log@ == old(self).log@.push(
                GlxCall::CreateNewContext(display, framebuffer_config, share_context, r),
            ),
    {
        let r = self.glx.create_new_context(display, framebuffer_config, share_context);
        self.log = Ghost(
            self.log@.push(GlxCall::CreateNewContext(display, framebuffer_config, share_context, r)),
        );
        r
    }

    pub fn current_context(&mut self) -> (r: usize)
        ensures
            final(self).log@ == old(self).log@.push(GlxCall::CurrentContext(r)),
    {
        let r = self.glx.current_context();
        self.log = Ghost(self.log@.push(GlxCall::CurrentContext(r)));
        r
    }

    pub fn make_current(&mut self, display: usize, drawable: u64, context: usize) -> (r: bool)
        ensures
            final(self).log@ == old(self).log@.push(
                GlxCall::MakeCurrent(display, drawable, context, r),
            ),
    {
        let r = self.glx.make_current(display, drawable, context);
        self.log = Ghost(self.log@.push(GlxCall::MakeCurrent(display, drawable, context, r)));
        r
    }

    pub fn destroy_context(&mut self, display: usize, context: usize)
        ensures
            final(self).log@ == old(self).log@.push(GlxCall::DestroyContext(display, context)),
    {
        self.glx.destroy_context(display, context);
        self.log = Ghost(self.log@.push(GlxCall::DestroyContext(display, context)));
    }

    pub fn destroy_pixmap(&mut self, display: usize, drawable: u64)
        ensures
            final(self).log@ == old(self).log@.push(GlxCall::DestroyPixmap(display, drawable)),
    {
        self.glx.destroy_pixmap(display, drawable);
        self.log = Ghost(self.log@.push(GlxCall::DestroyPixmap(display, drawable)));
    }
}

/// Whether a context must be bound, given the context current on the thread.
pub fn make_current_needed(current: usize, native: usize) -> (r: bool)
    ensures
        r == (current != native),
{
    current != native
}

/// The result of a make-current request, from whether the native call succeeded.
pub fn make_current_status(made: bool) -> (r: Result<(), &'static str>)
    ensures
        r is Ok <==> made,
        !made ==> r->Err_0@ == "glx::MakeContextCurrent"@,
{
    if made {
        Ok(())
    } else {
        proof {
            reveal_strlit("glx::MakeContextCurrent");
        }
        Err("glx::MakeContextCurrent")
    }
}

/// The calls with which `c` is made current, when `current` was current before and binding
/// it answered `made`.
pub open spec fn make_current_calls(c: GLContext, current: usize, made: bool) -> Seq<GlxCall> {
    if current == c.native() {
        seq![GlxCall::CurrentContext(current)]
    } else {
        seq![
            GlxCall::CurrentContext(current),
            GlxCall::MakeCurrent(c.display(), c.drawable(), c.native(), made),
        ]
    }
}

/// Whether the calls `calls` made `c` current: either it already was, or binding it succeeded.
pub open spec fn made_current(c: GLContext, calls: Seq<GlxCall>) -> bool {
    calls.len() == 1 || calls[1] == GlxCall::MakeCurrent(c.display(), c.drawable(), c.native(), true)
}

/// The calls that free `c` once it is current: the context, then its drawable if it owns it.
pub open spec fn release_calls(c: GLContext) -> Seq<GlxCall> {
    seq![GlxCall::DestroyContext(c.display(), c.native())] + if c.owns_drawable() {
        seq![GlxCall::DestroyPixmap(c.display(), c.drawable())]
    } else {
        Seq::empty()
    }
}

/// A GLX context bound to one drawable.
#[derive(Debug, PartialEq, Eq, Structural)]
pub struct GLContext {
    native_context: usize,
    native_display: usize,
    native_drawable: u64,
    delete_drawable_on_drop: bool,
    is_offscreen: bool,
}

impl GLContext {
    /// The native context handle.
    pub closed spec fn native(&self) -> usize {
        self.native_context
    }

    /// The display the context lives on.
    pub closed spec fn display(&self) -> usize {
        self.native_display
    }

    /// The drawable the context renders into.
    pub closed spec fn drawable(&self) -> u64 {
        self.native_drawable
    }

    /// Whether the drawable is destroyed along with the context.
    pub closed spec fn owns_drawable(&self) -> bool {
        self.delete_drawable_on_drop
    }

    /// Whether the context renders offscreen.
    pub closed spec fn offscreen(&self) -> bool {
        self.is_offscreen
    }

    /// Creates a context on `display` for `drawable`, sharing objects with `share_context`
    /// when one is given.
    pub fn new<G: GlxBackend>(
        glx: &mut GlxNative<G>,
        share_context: Option<&GLContext>,
        is_offscreen: bool,
        display: usize,
        drawable: u64,
        framebuffer_config: usize,
        delete_drawable_on_drop: bool,
    ) -> (r: Result<GLContext, &'static str>)
        ensures
            final(glx).log@.len() == old(glx).log@.len() + 1,
            final(glx).log@.last() matches GlxCall::CreateNewContext(d, f, shared, h) && d == display
                && f == framebuffer_config && shared == (match share_context {
                Some(ctx) => ctx.native(),
                None => 0,
            }) && (h == 0 <==> r is Err) && (r matches Ok(c) ==> c.native() == h),
            final(glx).log@.drop_last() == old(glx).log@,
            r matches Ok(c) ==> {
                &&& c.native() != 0
                &&& c.display() == display
                &&& c.drawable() == drawable
                &&& c.owns_drawable() == delete_drawable_on_drop
                &&& c.offscreen() == is_offscreen
            },
            r matches Err(msg) ==> msg@ == "Error creating native glx context"@,
    {
        let shared = match share_context {
            Some(ctx) => ctx.as_native_glx_context(),
            None => 0,
        };
        let native = glx.create_new_context(display, framebuffer_config, shared);
        assert(glx.log@.drop_last() =~= old(glx).log@);
        if native == 0 {
            let msg = "Error creating native glx context";
            proof {
                reveal_strlit("Error creating native glx context");
            }
            return Err(msg);
        }
        Ok(GLContext {
            native_context: native,
            native_display: display,
            native_drawable: drawable,
            delete_drawable_on_drop,
            is_offscreen,
        })
    }

    fn as_native_glx_context(&self) -> (r: usize)
        ensures
            r == self.native(),
    {
        self.native_context
    }

    /// Makes the context current, unless it already is: the native binding is made only
    /// when another context is current, and the result is that of the binding.
    pub fn make_current<G: GlxBackend>(&self, glx: &mut GlxNative<G>) -> (r: Result<
        (),
        &'static str,
    >)
        ensures
            ({
                let d = final(glx).log@.subrange(
                    old(glx).log@.len() as int,
                    final(glx).log@.len() as int,
                );
                &&& final(glx).log@.len() > old(glx).log@.len()
                &&& final(glx).log@.subrange(0, old(glx).log@.len() as int) == old(glx).log@
                &&& d[0] is CurrentContext
                &&& d == make_current_calls(
                    *self,
                    d[0]->CurrentContext_0,
                    d.len() == 2 && d[1]->MakeCurrent_3,
                )
                &&& (r is Ok <==> made_current(*self, d))
                &&& r matches Err(msg) ==> msg@ == "glx::MakeContextCurrent"@
            }),
    {
        let current = glx.current_context();
        if make_current_needed(current, self.native_context) {
            let made = glx.make_current(self.native_display, self.native_drawable, self.native_context);
            let r = make_current_status(made);
            assert(glx.log@.subrange(0, old(glx).log@.len() as int) =~= old(glx).log@);
            assert(glx.log@.subrange(old(glx).log@.len() as int, glx.log@.len() as int)
                =~= make_current_calls(*self, current, made));
            r
        } else {
            assert(glx.log@.subrange(0, old(glx).log@.len() as int) =~= old(glx).log@);
            assert(glx.log@.subrange(old(glx).log@.len() as int, glx.log@.len() as int)
                =~= make_current_calls(*self, current, false));
            Ok(())
        }
    }

    /// Destroys the context, and its drawable when the context owns it, once each. The
    /// context is made current first; if that fails nothing is destroyed.
    pub fn destroy<G: GlxBackend>(self, glx: &mut GlxNative<G>) -> (r: Result<(), &'static str>)
        ensures
            ({
                let d = final(glx).log@.subrange(
                    old(glx).log@.len() as int,
                    final(glx).log@.len() as int,
                );
                let k = if d[0]->CurrentContext_0 == self.native() { 1int } else { 2int };
                &&& final(glx).log@.len() > old(glx).log@.len()
                &&& final(glx).log@.subrange(0, old(glx).log@.len() as int) == old(glx).log@
                &&& d[0] is CurrentContext
                &&& d.subrange(0, k) == make_current_calls(
                    self,
                    d[0]->CurrentContext_0,
                    k == 2 && d[1]->MakeCurrent_3,
                )
                &&& (r is Ok <==> made_current(self, d.subrange(0, k)))
                &&& r is Ok ==> d.subrange(k, d.len() as int) == release_calls(self)
                &&& r is Err ==> d.len() == k
                &&& r matches Err(msg) ==> msg@ == "glx::MakeContextCurrent"@
            }),
    {
        let ghost start = glx.log@;
        let made = self.make_current(glx);
        let ghost mid = glx.log@;
        proof {
            assert forall|j: int| 0 <= j < start.len() implies mid[j] == start[j] by {
                assert(mid.subrange(0, start.len() as int)[j] == mid[j]);
            }
        }
        match made {
            Ok(()) => {},
            Err(msg) => {
                assert(glx.log@.subrange(start.len() as int, glx.log@.len() as int).subrange(
                    0, glx.log@.len() - start.len()) =~= glx.log@.subrange(start.len() as int, glx.log@.len() as int));
                return Err(msg);
            },
        }
        glx.destroy_context(self.native_display, self.native_context);
        if self.delete_drawable_on_drop {
            glx.destroy_pixmap(self.native_display, self.native_drawable);
        }
        let ghost d = glx.log@.subrange(start.len() as int, glx.log@.len() as int);
        let ghost k = mid.len() - start.len();
        assert(glx.log@.subrange(0, start.len() as int) =~= start);
        assert(d.subrange(0, k) =~= mid.subrange(start.len() as int, mid.len() as int));
        assert(d.subrange(k, d.len() as int) =~= release_calls(self));
        Ok(())
    }

    /// Offscreen contexts of this kind are not offered.
    pub fn create_offscreen() -> (r: Result<GLContext, &'static str>)
        ensures
            r matches Err(msg) && msg@ == "Not implemented"@,
    {
        proof {
            reveal_strlit("Not implemented");
        }
        Err("Not implemented")
    }
}

} // verus!
