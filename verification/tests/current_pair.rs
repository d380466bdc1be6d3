use egl_wrapper::config::Config;
use egl_wrapper::context::gles::OpenGLESContext;
use egl_wrapper::context::{Context, ContextOrSurfaceError, SingleContext};
use egl_wrapper::display::{Display, EGLVersion, InitializeOutcome, InitializeReply};
use egl_wrapper::error::EGLError;
use egl_wrapper::platform::DefaultPlatform;
use egl_wrapper::surface::window::WindowSurface;
use egl_wrapper::surface::Surface;
use egl_wrapper::surface::attribute::RenderBuffer;
use egl_wrapper::utils::{NativeCallReply, QueryError, QueryReply, UnsignedInteger};
use egl_wrapper::EGLHandle;

const ES2_BIT: i32 = 0x0004;
const WINDOW_BIT: i32 = 0x0004;
const CONTEXT_LOST: i32 = 0x300E;
const BAD_NATIVE_WINDOW: i32 = 0x300B;
const BAD_ALLOC: i32 = 0x3003;

fn handle() -> EGLHandle {
    EGLHandle {
        get_platform_display_ext: false,
        create_platform_window_surface_ext: false,
        create_platform_pixmap_surface_ext: false,
    }
}

fn display(raw: usize) -> Display<DefaultPlatform<()>> {
    let h = DefaultPlatform::get_display(handle(), raw, ()).unwrap();
    match h.initialize(InitializeReply {
        ok: true,
        version_major: 1,
        version_minor: 4,
    }) {
        InitializeOutcome::Initialized(d) => d.with_extensions(Some("")),
        InitializeOutcome::Failed(_, _) => panic!("construction should succeed"),
    }
}

type TestPair = (
    SingleContext<OpenGLESContext, Display<DefaultPlatform<()>>>,
    WindowSurface<()>,
);

fn current_pair(raw_display: usize, raw_context: usize, raw_surface: usize) -> TestPair {
    let display = display(raw_display);
    let config = Config { raw_config: 9 };
    let builder = display
        .opengl_es_context_builder(
            egl_wrapper::context::gles::EGL14OpenGLESVersion::Version2,
            config,
            QueryReply::succeeded(ES2_BIT),
        )
        .unwrap()
        .expect("the capability bit is present");
    let bound = builder.on_bind_api(NativeCallReply::succeeded()).unwrap();
    let context = bound.on_create_context(raw_context, 0).unwrap();
    let config_window = display
        .window_surface(config, QueryReply::succeeded(WINDOW_BIT))
        .unwrap()
        .expect("the window bit is present");
    let surface = display
        .platform_display()
        .get_platform_window_surface((), config_window, raw_surface, 0)
        .unwrap();
    let single = display.build_opengl_es_context(Ok(context)).unwrap();
    (single, surface)
}

#[test]
fn make_current_success_holds_the_pair() {
    let (single, surface) = current_pair(11, 21, 31);
    let current = single
        .make_current(surface, NativeCallReply::succeeded())
        .unwrap();
    assert_eq!(current.surface().raw_surface(), 31);
    assert_eq!(current.context().context().config().display_config().raw_display(), 11);
}

// Failure ownership classification, context-lost class: display and surface
// come back live, the context must be destroyed.
#[test]
fn make_current_context_lost_returns_display_and_surface() {
    let (single, surface) = current_pair(12, 22, 32);
    match single.make_current(surface, NativeCallReply::failed(CONTEXT_LOST)) {
        Err(ContextOrSurfaceError::ContextLost(display, surface, destroy)) => {
            assert_eq!(display.raw_display(), 12);
            assert_eq!(surface.raw_surface(), 32);
            assert_eq!(destroy.raw_context(), 22);
        }
        _ => panic!("expected the context-lost class"),
    }
}

// Failure ownership classification, bad-native-window class: context and
// display stay usable, the surface must be destroyed.
#[test]
fn make_current_bad_native_window_keeps_context() {
    let (single, surface) = current_pair(13, 23, 33);
    match single.make_current(surface, NativeCallReply::failed(BAD_NATIVE_WINDOW)) {
        Err(ContextOrSurfaceError::BadNativeWindow(single, destroy)) => {
            assert_eq!(single.display().raw_display(), 13);
            assert_eq!(single.context().raw_context(), 23);
            assert_eq!(destroy.raw_surface(), 33);
        }
        _ => panic!("expected the bad-native-window class"),
    }
}

// Failure ownership classification, any other error: the display comes back
// beside the classified error; context and surface must be destroyed.
#[test]
fn make_current_other_error_returns_display_only() {
    let (single, surface) = current_pair(14, 24, 34);
    match single.make_current(surface, NativeCallReply::failed(BAD_ALLOC)) {
        Err(ContextOrSurfaceError::OtherError(display, error, context_destroy, surface_destroy)) => {
            assert_eq!(display.raw_display(), 14);
            assert_eq!(error, Some(EGLError::BadAlloc));
            assert_eq!(context_destroy.raw_context(), 24);
            assert_eq!(surface_destroy.raw_surface(), 34);
        }
        _ => panic!("expected the catch-all class"),
    }
}

#[test]
fn swap_buffers_success_continues() {
    let (single, surface) = current_pair(15, 25, 35);
    let current = single
        .make_current(surface, NativeCallReply::succeeded())
        .unwrap();
    let current = current.swap_buffers(NativeCallReply::succeeded()).unwrap();
    let current = current.swap_buffers(NativeCallReply::succeeded()).unwrap();
    assert_eq!(current.surface().raw_surface(), 35);
}

// Scenario: a buffer swap reporting the bad-native-window error hands back
// the context with its display, still usable, while the surface goes to
// destruction.
#[test]
fn swap_buffers_bad_native_window_preserves_display() {
    let (single, surface) = current_pair(16, 26, 36);
    let current = single
        .make_current(surface, NativeCallReply::succeeded())
        .unwrap();
    match current.swap_buffers(NativeCallReply::failed(BAD_NATIVE_WINDOW)) {
        Err(ContextOrSurfaceError::BadNativeWindow(single, destroy)) => {
            assert_eq!(destroy.raw_surface(), 36);
            // the display remains usable afterwards
            let (display, context_destroy) = single.destroy();
            assert_eq!(display.raw_display(), 16);
            assert_eq!(context_destroy.raw_context(), 26);
            assert_eq!(display.egl_version(), EGLVersion::EGL_1_4);
        }
        _ => panic!("expected the bad-native-window class"),
    }
}

#[test]
fn swap_buffers_context_lost_dismantles_pair() {
    let (single, surface) = current_pair(17, 27, 37);
    let current = single
        .make_current(surface, NativeCallReply::succeeded())
        .unwrap();
    match current.swap_buffers(NativeCallReply::failed(CONTEXT_LOST)) {
        Err(ContextOrSurfaceError::ContextLost(display, surface, destroy)) => {
            assert_eq!(display.raw_display(), 17);
            assert_eq!(surface.raw_surface(), 37);
            assert_eq!(destroy.raw_context(), 27);
        }
        _ => panic!("expected the context-lost class"),
    }
}

#[test]
fn swap_interval_decides_on_the_reply() {
    let (single, surface) = current_pair(18, 28, 38);
    let current = single
        .make_current(surface, NativeCallReply::succeeded())
        .unwrap();
    assert_eq!(
        current.swap_interval(UnsignedInteger::new(1), NativeCallReply::succeeded()),
        Ok(())
    );
    assert_eq!(
        current.swap_interval(UnsignedInteger::new(0), NativeCallReply::failed(0x300C)),
        Err(Some(EGLError::BadParameter))
    );
}

#[test]
fn render_buffer_decodes_the_closed_set() {
    let (single, surface) = current_pair(19, 29, 39);
    let current = single
        .make_current(surface, NativeCallReply::succeeded())
        .unwrap();
    assert_eq!(
        current.render_buffer(QueryReply::succeeded(0x3084)),
        Ok(RenderBuffer::BackBuffer)
    );
    assert_eq!(
        current.render_buffer(QueryReply::succeeded(0x3085)),
        Ok(RenderBuffer::SingleBuffer)
    );
    assert_eq!(
        current.render_buffer(QueryReply::succeeded(7)),
        Err(QueryError::EnumError)
    );
}
