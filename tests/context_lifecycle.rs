use surfman::{
    created_context, make_current_result, proc_address_result, select_pixel_format,
    ContextAttributeFlags, ContextAttributes, CurrentContext, Device, Error, GLApi, GLFlavor,
    GLLoadGuard, GLProfile, GLVersion, NativeBackend, NativeContext, PixelFormatChoice, Releaser,
    Renderbuffers, Size, Surface, SurfaceDescriptor, SurfaceTexture, Viewport, GLInfo, Native, teardown_result,
};

#[derive(Default)]
struct MockBackend {
    pixel_format_error: Option<i32>,
    pixel_format_count: i32,
    create_error: Option<i32>,
    create_null: bool,
    make_current_error: Option<i32>,
    library_missing: bool,
    create_texture_error: Option<i32>,
    delete_texture_error: Option<i32>,
    destroy_surface_error: Option<i32>,
    next_texture: u32,
    next_fbo: u32,
    current: NativeContext,
    loads: u32,
    flushes: u32,
    textures_created: u32,
    textures_deleted: Vec<u32>,
    surfaces_destroyed: Vec<u64>,
    renderbuffers_created: u32,
    renderbuffers_destroyed: Vec<Renderbuffers>,
    fbos_deleted: Vec<u32>,
    attachments: Vec<(u32, u32)>,
    viewports: Vec<Viewport>,
    released: Vec<(Releaser, NativeContext)>,
    last_profile: Option<GLProfile>,
}

impl MockBackend {
    fn new() -> MockBackend {
        MockBackend { pixel_format_count: 1, next_texture: 1, next_fbo: 100, ..Default::default() }
    }

    fn calls(&self) -> usize {
        self.textures_deleted.len()
            + self.surfaces_destroyed.len()
            + self.renderbuffers_destroyed.len()
            + self.fbos_deleted.len()
            + self.released.len()
            + self.attachments.len()
            + self.viewports.len()
            + self.flushes as usize
            + self.textures_created as usize
    }
}

impl NativeBackend for MockBackend {
    fn choose_pixel_format(&mut self, profile: GLProfile) -> Result<PixelFormatChoice, i32> {
        self.last_profile = Some(profile);
        match self.pixel_format_error {
            Some(code) => Err(code),
            None => Ok(PixelFormatChoice { pixel_format: 7, count: self.pixel_format_count }),
        }
    }
    fn create_native_context(&mut self, pixel_format: u64) -> Result<NativeContext, i32> {
        assert_eq!(pixel_format, 7);
        match self.create_error {
            Some(code) => Err(code),
            None if self.create_null => Ok(0),
            None => Ok(0x1000),
        }
    }
    fn set_current_context(&mut self, native_context: NativeContext) -> Result<(), i32> {
        match self.make_current_error {
            Some(code) => Err(code),
            None => {
                self.current = native_context;
                Ok(())
            }
        }
    }
    fn load_gl_entry_points(&mut self) {
        self.loads += 1;
    }
    fn flush(&mut self) {
        self.flushes += 1;
    }
    fn create_texture(&mut self, _surface: &Surface) -> Result<u32, i32> {
        self.textures_created += 1;
        if let Some(code) = self.create_texture_error {
            return Err(code);
        }
        let t = self.next_texture;
        self.next_texture += 1;
        Ok(t)
    }
    fn delete_texture(&mut self, texture: u32) -> Result<(), i32> {
        self.textures_deleted.push(texture);
        match self.delete_texture_error {
            Some(code) => Err(code),
            None => Ok(()),
        }
    }
    fn destroy_surface(&mut self, surface: Surface) -> Result<(), i32> {
        self.surfaces_destroyed.push(surface.id);
        match self.destroy_surface_error {
            Some(code) => Err(code),
            None => Ok(()),
        }
    }
    fn create_framebuffer_object(&mut self) -> u32 {
        let f = self.next_fbo;
        self.next_fbo += 1;
        f
    }
    fn attach_color_texture(&mut self, framebuffer_object: u32, texture: u32) {
        self.attachments.push((framebuffer_object, texture));
    }
    fn create_renderbuffers(&mut self, _size: Size, flags: ContextAttributeFlags) -> Renderbuffers {
        self.renderbuffers_created += 1;
        let n = self.renderbuffers_created * 10;
        Renderbuffers {
            depth: if flags.depth { n } else { 0 },
            stencil: if flags.stencil { n + 1 } else { 0 },
        }
    }
    fn destroy_renderbuffers(&mut self, renderbuffers: Renderbuffers) {
        self.renderbuffers_destroyed.push(renderbuffers);
    }
    fn delete_framebuffer_object(&mut self, framebuffer_object: u32) {
        self.fbos_deleted.push(framebuffer_object);
    }
    fn set_viewport(&mut self, viewport: Viewport) {
        self.viewports.push(viewport);
    }
    fn release_context(&mut self, releaser: Releaser, native_context: NativeContext) {
        self.released.push((releaser, native_context));
    }
    fn gl_library_found(&mut self) -> bool {
        !self.library_missing
    }
    fn symbol_address(&mut self, symbol_name: &str) -> usize {
        if symbol_name == "glFlush" { 0xabc } else { 0 }
    }
}

fn gl_attributes(major: u8, minor: u8) -> ContextAttributes {
    ContextAttributes {
        flags: ContextAttributeFlags { alpha: true, depth: true, stencil: false },
        flavor: GLFlavor { api: GLApi::GL, version: GLVersion::new(major, minor) },
    }
}

fn surface(id: u64, width: i32, height: i32) -> Surface {
    Surface::new(id, SurfaceDescriptor { size: Size { width, height } })
}

fn adopted(backend: &mut Native<MockBackend>, guard: &mut GLLoadGuard) -> (Device, surfman::Context) {
    let current = CurrentContext {
        native_display: 5,
        native_context: 0x2000,
        client_version: 3,
        alpha_size: 8,
        depth_size: 0,
        stencil_size: 8,
    };
    Device::from_current_context(backend, guard, current).unwrap()
}

#[test]
fn created_context_reports_requested_flags() {
    let mut backend = Native::new(MockBackend::new());
    let mut guard = GLLoadGuard::new();
    let device = Device::new(1);
    let attributes = gl_attributes(3, 2);
    let mut context = device.create_context(&mut backend, &mut guard, &attributes).unwrap();
    let info = device.context_gl_info(&context);
    assert_eq!(info.attributes.flags, attributes.flags);
    assert!(info.populated);
    assert_eq!(backend.backend.last_profile, Some(GLProfile::Core));
    assert_eq!(backend.backend.current, 0x1000);
    assert_eq!(context.native_context(), 0x1000);
    assert!(device.context_color_surface(&context).is_none());
    assert_eq!(device.context_surface_framebuffer_object(&context), Err(Error::NoSurfaceAttached));
    device.destroy_context(&mut backend, &mut context).unwrap();
}

#[test]
fn legacy_profile_below_version_three() {
    let mut backend = Native::new(MockBackend::new());
    let mut guard = GLLoadGuard::new();
    let device = Device::new(1);
    let mut context = device.create_context(&mut backend, &mut guard, &gl_attributes(2, 1)).unwrap();
    assert_eq!(backend.backend.last_profile, Some(GLProfile::Legacy));
    device.destroy_context(&mut backend, &mut context).unwrap();
}

#[test]
fn gles_is_unsupported() {
    let mut backend = Native::new(MockBackend::new());
    let mut guard = GLLoadGuard::new();
    let device = Device::new(1);
    let mut attributes = gl_attributes(3, 0);
    attributes.flavor.api = GLApi::GLES;
    assert_eq!(GLProfile::for_attributes(&attributes), Err(Error::UnsupportedGLType));
    let r = device.create_context(&mut backend, &mut guard, &attributes);
    assert_eq!(r.err(), Some(Error::UnsupportedGLType));
    assert_eq!(backend.backend.last_profile, None);
    assert!(!guard.loaded);
}

#[test]
fn creation_errors_carry_platform_codes() {
    let device = Device::new(1);
    let attributes = gl_attributes(3, 2);

    let mut backend = Native::new(MockBackend::new());
    backend.backend.pixel_format_error = Some(10);
    let mut guard = GLLoadGuard::new();
    let r = device.create_context(&mut backend, &mut guard, &attributes);
    assert_eq!(r.err(), Some(Error::PixelFormatSelectionFailed(10)));

    let mut backend = Native::new(MockBackend::new());
    backend.backend.pixel_format_count = 0;
    let r = device.create_context(&mut backend, &mut guard, &attributes);
    assert_eq!(r.err(), Some(Error::NoPixelFormatFound));

    let mut backend = Native::new(MockBackend::new());
    backend.backend.create_error = Some(11);
    let r = device.create_context(&mut backend, &mut guard, &attributes);
    assert_eq!(r.err(), Some(Error::ContextCreationFailed(11)));

    let mut backend = Native::new(MockBackend::new());
    backend.backend.create_null = true;
    let r = device.create_context(&mut backend, &mut guard, &attributes);
    assert_eq!(r.err(), Some(Error::ContextCreationFailed(0)));

    let mut backend = Native::new(MockBackend::new());
    backend.backend.make_current_error = Some(12);
    let r = device.create_context(&mut backend, &mut guard, &attributes);
    assert_eq!(r.err(), Some(Error::MakeCurrentFailed(12)));

    assert!(!guard.loaded);
    assert_eq!(backend.backend.loads, 0);
}

#[test]
fn gl_entry_points_load_once() {
    let mut backend = Native::new(MockBackend::new());
    let mut guard = GLLoadGuard::new();
    let device = Device::new(1);
    let mut a = device.create_context(&mut backend, &mut guard, &gl_attributes(3, 2)).unwrap();
    let mut b = device.create_context(&mut backend, &mut guard, &gl_attributes(2, 1)).unwrap();
    let (_d, mut c) = adopted(&mut backend, &mut guard);
    assert_eq!(backend.backend.loads, 1);
    assert!(guard.loaded);
    device.destroy_context(&mut backend, &mut a).unwrap();
    device.destroy_context(&mut backend, &mut b).unwrap();
    device.destroy_context(&mut backend, &mut c).unwrap();
}

#[test]
fn load_guard_grants_first_claim_only() {
    let mut guard = GLLoadGuard::new();
    assert!(guard.claim_load());
    assert!(!guard.claim_load());
    assert!(!guard.claim_load());
    guard.reset();
    assert!(guard.claim_load());
}

#[test]
fn destroy_context_twice_is_noop() {
    let mut backend = Native::new(MockBackend::new());
    let mut guard = GLLoadGuard::new();
    let device = Device::new(1);
    let mut context = device.create_context(&mut backend, &mut guard, &gl_attributes(3, 2)).unwrap();
    assert_eq!(device.destroy_context(&mut backend, &mut context), Ok(()));
    assert_eq!(backend.backend.released, vec![(Releaser::Owned, 0x1000)]);
    assert_eq!(context.native_context(), 0);
    let calls = backend.backend.calls();
    assert_eq!(device.destroy_context(&mut backend, &mut context), Ok(()));
    assert_eq!(backend.backend.calls(), calls);
    assert_eq!(backend.backend.released.len(), 1);
}

#[test]
fn window_context_refuses_replacement() {
    let mut backend = Native::new(MockBackend::new());
    let mut guard = GLLoadGuard::new();
    let (device, mut context) = adopted(&mut backend, &mut guard);
    assert_eq!(device.native_display, 5);
    let info = *device.context_gl_info(&context);
    assert_eq!(info.attributes.flags, ContextAttributeFlags { alpha: true, depth: false, stencil: true });
    assert_eq!(info.attributes.flavor.version, GLVersion::new(3, 0));
    let calls = backend.backend.calls();
    let r = device.replace_context_color_surface(&mut backend, &mut context, surface(1, 64, 64));
    assert_eq!(r.err(), Some(Error::WindowAttached));
    assert_eq!(backend.backend.calls(), calls);
    assert!(device.context_color_surface(&context).is_none());
    assert_eq!(device.context_surface_framebuffer_object(&context), Err(Error::WindowAttached));
    device.destroy_context(&mut backend, &mut context).unwrap();
    assert_eq!(backend.backend.released, vec![(Releaser::Adopted, 0x2000)]);
}

#[test]
fn same_size_replacement_keeps_framebuffer_object() {
    let mut backend = Native::new(MockBackend::new());
    let mut guard = GLLoadGuard::new();
    let device = Device::new(1);
    let mut context = device.create_context(&mut backend, &mut guard, &gl_attributes(3, 2)).unwrap();
    let r = device.replace_context_color_surface(&mut backend, &mut context, surface(1, 64, 64));
    assert_eq!(r, Ok(None));
    let fbo = device.context_surface_framebuffer_object(&context).unwrap();
    assert_eq!(fbo, 100);

    let r = device.replace_context_color_surface(&mut backend, &mut context, surface(2, 64, 64));
    assert_eq!(r, Ok(Some(surface(1, 64, 64))));
    assert_eq!(device.context_color_surface(&context), Some(&surface(2, 64, 64)));
    assert_eq!(device.context_surface_framebuffer_object(&context), Ok(fbo));
    assert_eq!(backend.backend.attachments.last(), Some(&(100, 2)));
    assert_eq!(backend.backend.textures_deleted, vec![1]);
    assert!(backend.backend.fbos_deleted.is_empty());
    assert_eq!(backend.backend.renderbuffers_created, 1);
    assert!(backend.backend.surfaces_destroyed.is_empty());
    device.destroy_context(&mut backend, &mut context).unwrap();
}

#[test]
fn size_change_rebuilds_framebuffer_and_viewport() {
    let mut backend = Native::new(MockBackend::new());
    let mut guard = GLLoadGuard::new();
    let device = Device::new(1);
    let mut context = device.create_context(&mut backend, &mut guard, &gl_attributes(3, 2)).unwrap();
    device.replace_context_color_surface(&mut backend, &mut context, surface(1, 64, 64)).unwrap();
    assert_eq!(backend.backend.viewports.last(), Some(&Viewport { x: 0, y: 0, width: 64, height: 64 }));
    let r = device.replace_context_color_surface(&mut backend, &mut context, surface(2, 128, 128));
    assert_eq!(r, Ok(Some(surface(1, 64, 64))));
    assert_eq!(backend.backend.viewports.last(), Some(&Viewport { x: 0, y: 0, width: 128, height: 128 }));
    assert_eq!(device.context_surface_framebuffer_object(&context), Ok(101));
    assert_eq!(backend.backend.fbos_deleted, vec![100]);
    assert_eq!(backend.backend.renderbuffers_destroyed, vec![Renderbuffers { depth: 10, stencil: 0 }]);
    assert_eq!(device.context_color_surface(&context).map(|s| s.descriptor.size), Some(Size { width: 128, height: 128 }));
    assert!(backend.backend.surfaces_destroyed.is_empty());
    device.destroy_context(&mut backend, &mut context).unwrap();
}

#[test]
fn destroying_offscreen_context_frees_each_part_once() {
    let mut backend = Native::new(MockBackend::new());
    let mut guard = GLLoadGuard::new();
    let device = Device::new(1);
    let mut context = device.create_context(&mut backend, &mut guard, &gl_attributes(3, 2)).unwrap();
    device.replace_context_color_surface(&mut backend, &mut context, surface(9, 32, 16)).unwrap();
    assert_eq!(device.destroy_context(&mut backend, &mut context), Ok(()));
    assert_eq!(backend.backend.renderbuffers_destroyed.len(), 1);
    assert_eq!(backend.backend.textures_deleted, vec![1]);
    assert_eq!(backend.backend.surfaces_destroyed, vec![9]);
    assert_eq!(backend.backend.fbos_deleted, vec![100]);
    assert_eq!(backend.backend.released.len(), 1);
    assert!(device.context_color_surface(&context).is_none());
    assert_eq!(device.destroy_context(&mut backend, &mut context), Ok(()));
    assert_eq!(backend.backend.renderbuffers_destroyed.len(), 1);
    assert_eq!(backend.backend.textures_deleted.len(), 1);
    assert_eq!(backend.backend.surfaces_destroyed.len(), 1);
}

#[test]
fn make_current_and_not_current() {
    let mut backend = Native::new(MockBackend::new());
    let mut guard = GLLoadGuard::new();
    let device = Device::new(1);
    let mut context = device.create_context(&mut backend, &mut guard, &gl_attributes(3, 2)).unwrap();
    assert_eq!(device.make_context_not_current(&mut backend, &context), Ok(()));
    assert_eq!(backend.backend.current, 0);
    assert_eq!(device.make_context_current(&mut backend, &context), Ok(()));
    assert_eq!(backend.backend.current, 0x1000);
    backend.backend.make_current_error = Some(4);
    assert_eq!(device.make_context_current(&mut backend, &context), Err(Error::MakeCurrentFailed(4)));
    let r = device.replace_context_color_surface(&mut backend, &mut context, surface(1, 8, 8));
    assert_eq!(r, Err(Error::MakeCurrentFailed(4)));
    assert!(device.context_color_surface(&context).is_none());
    backend.backend.make_current_error = None;
    device.destroy_context(&mut backend, &mut context).unwrap();
}

#[test]
fn proc_address_lookup() {
    let mut backend = Native::new(MockBackend::new());
    let mut guard = GLLoadGuard::new();
    let device = Device::new(1);
    let mut context = device.create_context(&mut backend, &mut guard, &gl_attributes(3, 2)).unwrap();
    assert_eq!(device.get_proc_address(&mut backend, &context, "glFlush"), Ok(0xabc));
    assert_eq!(device.get_proc_address(&mut backend, &context, "glMissing"), Err(Error::GLFunctionNotFound));
    backend.backend.library_missing = true;
    assert_eq!(device.get_proc_address(&mut backend, &context, "glFlush"), Err(Error::NoGLLibraryFound));
    device.destroy_context(&mut backend, &mut context).unwrap();
}

#[test]
fn flags_follow_channel_sizes() {
    assert_eq!(
        ContextAttributeFlags::from_sizes(8, 24, 0),
        ContextAttributeFlags { alpha: true, depth: true, stencil: false }
    );
    assert_eq!(ContextAttributeFlags::from_sizes(0, 0, 0), ContextAttributeFlags::empty());
}

#[test]
fn native_results_map_to_errors() {
    assert_eq!(select_pixel_format(Err(3)), Err(Error::PixelFormatSelectionFailed(3)));
    assert_eq!(select_pixel_format(Ok(PixelFormatChoice { pixel_format: 4, count: 0 })), Err(Error::NoPixelFormatFound));
    assert_eq!(select_pixel_format(Ok(PixelFormatChoice { pixel_format: 4, count: 2 })), Ok(4));
    assert_eq!(created_context(Err(5)), Err(Error::ContextCreationFailed(5)));
    assert_eq!(created_context(Ok(0)), Err(Error::ContextCreationFailed(0)));
    assert_eq!(created_context(Ok(77)), Ok(77));
    assert_eq!(make_current_result(Err(6)), Err(Error::MakeCurrentFailed(6)));
    assert_eq!(make_current_result(Ok(())), Ok(()));
    assert_eq!(proc_address_result(false, 9), Err(Error::NoGLLibraryFound));
    assert_eq!(proc_address_result(true, 0), Err(Error::GLFunctionNotFound));
    assert_eq!(proc_address_result(true, 9), Ok(9));
}

#[test]
fn teardown_takes_each_part_once() {
    let mut backend = Native::new(MockBackend::new());
    let mut guard = GLLoadGuard::new();
    let device = Device::new(1);
    let mut context = device.create_context(&mut backend, &mut guard, &gl_attributes(3, 2)).unwrap();
    device.replace_context_color_surface(&mut backend, &mut context, surface(3, 16, 16)).unwrap();
    let teardown = device.take_teardown(&mut context).unwrap();
    assert_eq!(teardown.native_context, 0x1000);
    assert_eq!(teardown.releaser, Releaser::Owned);
    let target = teardown.target.unwrap();
    assert_eq!(target.framebuffer_object, Some(100));
    assert_eq!(target.renderbuffers, Renderbuffers { depth: 10, stencil: 0 });
    assert_eq!(target.color_surface_texture, SurfaceTexture { surface: surface(3, 16, 16), gl_texture: 1 });
    assert_eq!(context.native_context(), 0);
    assert!(device.take_teardown(&mut context).is_none());
    assert_eq!(device.destroy_context(&mut backend, &mut context), Ok(()));
    assert!(backend.backend.released.is_empty());
}

#[test]
fn gl_info_records_attributes() {
    let attributes = gl_attributes(4, 1);
    let mut info = GLInfo::new(&attributes);
    assert_eq!(info.attributes, attributes);
    assert!(!info.populated);
    info.populate();
    assert!(info.populated);
    assert_eq!(info.attributes, attributes);
}

#[test]
fn teardown_reports_first_error() {
    assert_eq!(teardown_result(Ok(()), Some(Ok(()))), Ok(()));
    assert_eq!(teardown_result(Ok(()), None), Ok(()));
    assert_eq!(teardown_result(Err(3), None), Err(Error::SurfaceFailed(3)));
    assert_eq!(teardown_result(Ok(()), Some(Err(4))), Err(Error::SurfaceFailed(4)));
}

#[test]
fn destroy_drains_after_texture_failure() {
    let mut backend = Native::new(MockBackend::new());
    let mut guard = GLLoadGuard::new();
    let device = Device::new(1);
    let mut context = device.create_context(&mut backend, &mut guard, &gl_attributes(3, 2)).unwrap();
    device.replace_context_color_surface(&mut backend, &mut context, surface(5, 8, 8)).unwrap();
    backend.backend.delete_texture_error = Some(21);
    assert_eq!(device.destroy_context(&mut backend, &mut context), Err(Error::SurfaceFailed(21)));
    assert_eq!(backend.backend.renderbuffers_destroyed.len(), 1);
    assert_eq!(backend.backend.fbos_deleted, vec![100]);
    assert!(backend.backend.surfaces_destroyed.is_empty());
    assert_eq!(backend.backend.released, vec![(Releaser::Owned, 0x1000)]);
    assert_eq!(context.native_context(), 0);
}

#[test]
fn destroy_reports_surface_failure() {
    let mut backend = Native::new(MockBackend::new());
    let mut guard = GLLoadGuard::new();
    let device = Device::new(1);
    let mut context = device.create_context(&mut backend, &mut guard, &gl_attributes(3, 2)).unwrap();
    device.replace_context_color_surface(&mut backend, &mut context, surface(5, 8, 8)).unwrap();
    backend.backend.destroy_surface_error = Some(22);
    assert_eq!(device.destroy_context(&mut backend, &mut context), Err(Error::SurfaceFailed(22)));
    assert_eq!(backend.backend.surfaces_destroyed, vec![5]);
    assert_eq!(backend.backend.released.len(), 1);
}

#[test]
fn failed_rebuild_destroys_displaced_surface() {
    let mut backend = Native::new(MockBackend::new());
    let mut guard = GLLoadGuard::new();
    let device = Device::new(1);
    let mut context = device.create_context(&mut backend, &mut guard, &gl_attributes(3, 2)).unwrap();
    device.replace_context_color_surface(&mut backend, &mut context, surface(1, 64, 64)).unwrap();
    backend.backend.create_texture_error = Some(23);
    let r = device.replace_context_color_surface(&mut backend, &mut context, surface(2, 128, 128));
    assert_eq!(r, Err(Error::SurfaceFailed(23)));
    assert_eq!(backend.backend.surfaces_destroyed, vec![1]);
    assert!(device.context_color_surface(&context).is_none());
    backend.backend.create_texture_error = None;
    device.destroy_context(&mut backend, &mut context).unwrap();
}

#[test]
fn failed_texture_deletion_in_rebuild_frees_old_objects() {
    let mut backend = Native::new(MockBackend::new());
    let mut guard = GLLoadGuard::new();
    let device = Device::new(1);
    let mut context = device.create_context(&mut backend, &mut guard, &gl_attributes(3, 2)).unwrap();
    device.replace_context_color_surface(&mut backend, &mut context, surface(1, 64, 64)).unwrap();
    backend.backend.delete_texture_error = Some(24);
    let r = device.replace_context_color_surface(&mut backend, &mut context, surface(2, 32, 32));
    assert_eq!(r, Err(Error::SurfaceFailed(24)));
    assert_eq!(backend.backend.fbos_deleted, vec![100]);
    assert_eq!(backend.backend.renderbuffers_destroyed.len(), 1);
    assert!(device.context_color_surface(&context).is_none());
    backend.backend.delete_texture_error = None;
    device.destroy_context(&mut backend, &mut context).unwrap();
}
