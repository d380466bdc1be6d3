use egl_wrapper::config::Config;
use egl_wrapper::display::{Display, InitializeOutcome, InitializeReply};
use egl_wrapper::error::EGLError;
use egl_wrapper::platform::{DefaultPlatform, WindowCreationError};
use egl_wrapper::surface::attribute::{
    multisample_resolve, on_set_surface_attribute, render_buffer, swap_behavior, texture_format,
    texture_target, MultisampleResolveValue, RenderBuffer, SwapBehaviorValue, TextureFormat,
    TextureTarget,
};
use egl_wrapper::surface::window::WindowSurfaceAttributeListBuilder;
use egl_wrapper::surface::Surface;
use egl_wrapper::context::attribute::{
    ContextAPIType, OpenGLContextFlags, OpenGLContextProfile, ResetNotificationStrategy,
};
use egl_wrapper::context::gles::OpenGLESMajorVersionEXT;
use egl_wrapper::context::Context;
use egl_wrapper::utils::{
    NativeCallReply, PositiveInteger, QueryError, QueryReply, UnsignedInteger,
};
use egl_wrapper::EGLHandle;

const WINDOW_BIT: i32 = 0x0004;
const PBUFFER_BIT: i32 = 0x0001;
const PIXMAP_BIT: i32 = 0x0002;

fn handle() -> EGLHandle {
    EGLHandle {
        get_platform_display_ext: false,
        create_platform_window_surface_ext: false,
        create_platform_pixmap_surface_ext: false,
    }
}

fn display(raw: usize) -> Display<DefaultPlatform<()>> {
    let h = DefaultPlatform::get_display(handle(), raw, ()).unwrap();
    match h.initialize(InitializeReply {
        ok: true,
        version_major: 1,
        version_minor: 4,
    }) {
        InitializeOutcome::Initialized(d) => d.with_extensions(Some("")),
        InitializeOutcome::Failed(_, _) => panic!("construction should succeed"),
    }
}

#[test]
fn window_surface_creation_succeeds() {
    let d = display(50);
    let config_window = d
        .window_surface(Config { raw_config: 6 }, QueryReply::succeeded(WINDOW_BIT))
        .unwrap()
        .unwrap();
    let surface = d
        .platform_display()
        .get_platform_window_surface("token", config_window, 600, 0)
        .unwrap();
    assert_eq!(surface.raw_surface(), 600);
    assert_eq!(surface.raw_display(), 50);
    assert_eq!(*surface.native_window_handle(), "token");
}

#[test]
fn window_surface_creation_failure_is_classified() {
    let d = display(51);
    let config_window = d
        .window_surface(Config { raw_config: 6 }, QueryReply::succeeded(WINDOW_BIT))
        .unwrap()
        .unwrap();
    match d
        .platform_display()
        .get_platform_window_surface((), config_window, 0, 0x300B)
    {
        Err(WindowCreationError::EGLError(e)) => {
            assert_eq!(e, Some(EGLError::BadNativeWindow));
        }
        _ => panic!("expected a creation failure"),
    }
}

#[test]
fn window_attribute_list_encodes_render_buffer() {
    let mut builder = WindowSurfaceAttributeListBuilder::new();
    builder.render_buffer(RenderBuffer::SingleBuffer);
    let list = builder.build();
    assert_eq!(list.entries().as_slice(), &[0x3086, 0x3085, 0x3038]);
}

#[test]
fn pbuffer_builder_encodes_attributes_and_creates() {
    let d = display(52);
    let mut builder = d
        .pbuffer_surface_builder(Config { raw_config: 7 }, QueryReply::succeeded(PBUFFER_BIT))
        .unwrap()
        .unwrap();
    builder.width(UnsignedInteger::new(640));
    builder.height(UnsignedInteger::new(480));
    builder.texture_format(TextureFormat::RGBA);
    builder.texture_target(TextureTarget::Texture2D);
    builder.mipmap_texture(true);
    builder.largest_pbuffer(false);
    let (pending, list) = builder.attribute_list();
    assert_eq!(
        list.entries().as_slice(),
        &[
            0x3057, 640, 0x3056, 480, 0x3080, 0x305E, 0x3081, 0x305F, 0x3082, 1, 0x3058, 0,
            0x3038,
        ]
    );
    let surface = pending.on_create(900, 0).unwrap();
    assert_eq!(surface.raw_surface(), 900);
    assert_eq!(surface.display_config().raw_display(), 52);
}

#[test]
fn pbuffer_creation_failure_is_classified() {
    let d = display(53);
    let builder = d
        .pbuffer_surface_builder(Config { raw_config: 7 }, QueryReply::succeeded(PBUFFER_BIT))
        .unwrap()
        .unwrap();
    let (pending, _list) = builder.attribute_list();
    assert!(matches!(
        pending.on_create(0, 0x3003),
        Err(Some(EGLError::BadAlloc))
    ));
}

#[test]
fn pixmap_builder_creates_or_classifies() {
    let d = display(54);
    let builder = d
        .pixmap_surface_builder(Config { raw_config: 8 }, 1234, QueryReply::succeeded(PIXMAP_BIT))
        .unwrap()
        .unwrap();
    assert_eq!(builder.native_pixmap(), 1234);
    let (pending, list) = builder.attribute_list();
    assert_eq!(list.entries().as_slice(), &[0x3038]);
    let surface = pending.on_create(901, 0).unwrap();
    assert_eq!(surface.raw_surface(), 901);

    let builder = d
        .pixmap_surface_builder(Config { raw_config: 8 }, 1234, QueryReply::succeeded(PIXMAP_BIT))
        .unwrap()
        .unwrap();
    let (pending, _list) = builder.attribute_list();
    assert!(matches!(
        pending.on_create(0, 0x300A),
        Err(Some(EGLError::BadNativePixmap))
    ));
}

#[test]
fn surface_attribute_decoders() {
    assert_eq!(
        texture_format(QueryReply::succeeded(0x305D)),
        Ok(TextureFormat::RGB)
    );
    assert_eq!(
        texture_format(QueryReply::succeeded(1)),
        Err(QueryError::EnumError)
    );
    assert_eq!(
        texture_target(QueryReply::succeeded(0x305F)),
        Ok(TextureTarget::Texture2D)
    );
    assert_eq!(
        multisample_resolve(QueryReply::succeeded(0x309A)),
        Ok(MultisampleResolveValue::ResolveDefault)
    );
    assert_eq!(
        multisample_resolve(QueryReply::succeeded(0x309B)),
        Ok(MultisampleResolveValue::ResolveBox)
    );
    assert_eq!(
        swap_behavior(QueryReply::succeeded(0x3094)),
        Ok(SwapBehaviorValue::BufferPreserved)
    );
    assert_eq!(
        swap_behavior(QueryReply::succeeded(0x3095)),
        Ok(SwapBehaviorValue::BufferDestroyed)
    );
    assert_eq!(
        swap_behavior(QueryReply::failed()),
        Err(QueryError::QueryError)
    );
    assert_eq!(
        render_buffer(QueryReply::succeeded(0x3084)),
        Ok(RenderBuffer::BackBuffer)
    );
    assert_eq!(on_set_surface_attribute(NativeCallReply::succeeded()), Ok(()));
    assert_eq!(
        on_set_surface_attribute(NativeCallReply::failed(0x3009)),
        Err(Some(EGLError::BadMatch))
    );
}

#[test]
fn context_builder_session_runs_in_order() {
    let d = display(55);
    let builder = d
        .opengl_context_builder(Config { raw_config: 9 }, QueryReply::succeeded(0x0008))
        .unwrap()
        .unwrap();
    assert_eq!(builder.api_type(), ContextAPIType::OpenGL);
    // a failed bind ends the attempt before any create call is possible
    let failed = builder.on_bind_api(NativeCallReply::failed(0x300C));
    assert!(matches!(failed, Err(Some(EGLError::BadParameter))));

    let builder = d
        .opengl_context_builder(Config { raw_config: 9 }, QueryReply::succeeded(0x0008))
        .unwrap()
        .unwrap();
    let bound = builder.on_bind_api(NativeCallReply::succeeded()).unwrap();
    assert_eq!(bound.attribute_list().entries().as_slice(), &[0x3038]);
    assert_eq!(bound.display_config().raw_display(), 55);
    // the null handle is a creation failure and is not retained
    assert!(matches!(
        bound.on_create_context(0, 0x3005),
        Err(Some(EGLError::BadConfig))
    ));
}

#[test]
fn ext_context_builder_encodes_extension_attributes() {
    let d = display(56);
    let with = {
        let h = DefaultPlatform::get_display(handle(), 56, ()).unwrap();
        match h.initialize(InitializeReply {
            ok: true,
            version_major: 1,
            version_minor: 4,
        }) {
            InitializeOutcome::Initialized(x) => x.with_extensions(Some("EGL_KHR_create_context")),
            InitializeOutcome::Failed(_, _) => panic!("construction should succeed"),
        }
    };
    let _ = d;
    let mut builder = with
        .opengl_context_builder_ext(Config { raw_config: 10 }, QueryReply::succeeded(0x0008))
        .unwrap()
        .unwrap();
    builder.set_major_version(PositiveInteger::new(3));
    builder.set_minor_version(UnsignedInteger::new(2));
    builder.set_profile(OpenGLContextProfile::Core);
    builder.set_context_flags(OpenGLContextFlags {
        debug: true,
        forward_compatible: false,
        robust_access: true,
    });
    builder.set_reset_notification_strategy(ResetNotificationStrategy::LoseContextOnReset);
    let bound = builder.on_bind_api(NativeCallReply::succeeded()).unwrap();
    assert_eq!(
        bound.attribute_list().entries().as_slice(),
        &[
            0x3098, 3, 0x30FB, 2, 0x30FD, 0x0001, 0x30FC, 0x0005, 0x31BD, 0x31BF, 0x3038,
        ]
    );
    let context = bound.on_create_context(777, 0).unwrap();
    assert_eq!(context.raw_context(), 777);
    assert_eq!(context.raw_display(), 56);
}

#[test]
fn es_ext_builder_encodes_versions() {
    let d = {
        let h = DefaultPlatform::get_display(handle(), 57, ()).unwrap();
        match h.initialize(InitializeReply {
            ok: true,
            version_major: 1,
            version_minor: 4,
        }) {
            InitializeOutcome::Initialized(x) => x.with_extensions(Some("EGL_KHR_create_context")),
            InitializeOutcome::Failed(_, _) => panic!("construction should succeed"),
        }
    };
    let mut builder = d
        .opengl_es_context_builder_ext(
            OpenGLESMajorVersionEXT::Version3,
            Config { raw_config: 11 },
            QueryReply::succeeded(0x0040),
        )
        .unwrap()
        .unwrap();
    builder.set_minor_version(UnsignedInteger::new(1));
    builder.enable_debug_context(true);
    let bound = builder.on_bind_api(NativeCallReply::succeeded()).unwrap();
    assert_eq!(
        bound.attribute_list().entries().as_slice(),
        &[0x3098, 3, 0x30FB, 1, 0x30FC, 0x0001, 0x3038]
    );
}
