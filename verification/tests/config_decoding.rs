use egl_wrapper::config::attribute::{
    ColorBuffer, ColorBufferReplies, ConfigAttribute, ConfigClientAPI, RenderableType,
    SurfaceType, TransparentColorReplies,
};
use egl_wrapper::context::attribute::QueryableAttribute as ContextAttribute;
use egl_wrapper::surface::attribute::QueryableAttribute;
use egl_wrapper::config::{Config, ConfigError};
use egl_wrapper::display::{DisplayExtensionSupport, EGLVersion};
use egl_wrapper::utils::{IntegerError, QueryReply};

fn config() -> Config {
    Config { raw_config: 5 }
}

fn ext(create_context: bool) -> DisplayExtensionSupport {
    DisplayExtensionSupport {
        get_all_proc_addresses: false,
        create_context,
    }
}

fn rgb_replies(alpha: i32) -> ColorBufferReplies {
    ColorBufferReplies {
        color_buffer_type: QueryReply::succeeded(0x308E),
        red_size: QueryReply::succeeded(8),
        green_size: QueryReply::succeeded(8),
        blue_size: QueryReply::succeeded(8),
        luminance_size: QueryReply::succeeded(0),
        alpha_size: QueryReply::succeeded(alpha),
    }
}

fn luminance_replies(alpha: i32) -> ColorBufferReplies {
    ColorBufferReplies {
        color_buffer_type: QueryReply::succeeded(0x308F),
        red_size: QueryReply::succeeded(0),
        green_size: QueryReply::succeeded(0),
        blue_size: QueryReply::succeeded(0),
        luminance_size: QueryReply::succeeded(16),
        alpha_size: QueryReply::succeeded(alpha),
    }
}

// Color-buffer inference: zero alpha gives the variant without an alpha
// buffer.
#[test]
fn color_buffer_zero_alpha_is_rgb() {
    let r = config().color_buffer(&rgb_replies(0)).unwrap();
    match r {
        ColorBuffer::RGB(red, green, blue) => {
            assert_eq!(red.value(), 8);
            assert_eq!(green.value(), 8);
            assert_eq!(blue.value(), 8);
        }
        _ => panic!("expected the variant without an alpha buffer"),
    }
}

// Color-buffer inference: positive alpha attaches exactly that alpha size.
#[test]
fn color_buffer_positive_alpha_is_rgba() {
    let r = config().color_buffer(&rgb_replies(8)).unwrap();
    match r {
        ColorBuffer::RGBA(red, green, blue, alpha) => {
            assert_eq!(red.value(), 8);
            assert_eq!(green.value(), 8);
            assert_eq!(blue.value(), 8);
            assert_eq!(alpha.value(), 8);
        }
        _ => panic!("expected the variant with an alpha buffer"),
    }
}

// Color-buffer inference: a negative alpha is an integer-range error, never
// a silent default.
#[test]
fn color_buffer_negative_alpha_is_error() {
    let r = config().color_buffer(&rgb_replies(-1));
    assert_eq!(
        r.unwrap_err(),
        ConfigError::IntegerError(IntegerError::Negative)
    );
}

#[test]
fn color_buffer_luminance_family() {
    match config().color_buffer(&luminance_replies(0)).unwrap() {
        ColorBuffer::Luminance(l) => assert_eq!(l.value(), 16),
        _ => panic!("expected the luminance variant without alpha"),
    }
    match config().color_buffer(&luminance_replies(4)).unwrap() {
        ColorBuffer::LuminanceAndAlpha(l, a) => {
            assert_eq!(l.value(), 16);
            assert_eq!(a.value(), 4);
        }
        _ => panic!("expected the luminance variant with alpha"),
    }
    let r = config().color_buffer(&luminance_replies(-3));
    assert_eq!(
        r.unwrap_err(),
        ConfigError::IntegerError(IntegerError::Negative)
    );
}

#[test]
fn color_buffer_unknown_family_is_enum_error() {
    let mut replies = rgb_replies(0);
    replies.color_buffer_type = QueryReply::succeeded(0x1234);
    assert_eq!(config().color_buffer(&replies).unwrap_err(), ConfigError::EnumError);
}

#[test]
fn color_buffer_failed_query_is_query_error() {
    let mut replies = rgb_replies(0);
    replies.green_size = QueryReply::failed();
    assert_eq!(config().color_buffer(&replies).unwrap_err(), ConfigError::QueryError);
}

// Native-visual-id: `None` exactly on a raw zero, the id on any positive
// value, an error on negative values.
#[test]
fn native_visual_id_zero_is_none() {
    let c = config();
    assert_eq!(c.native_visual_id(QueryReply::succeeded(0)).unwrap(), None);
    assert_eq!(c.native_visual_id(QueryReply::succeeded(33)).unwrap(), Some(33));
    assert_eq!(
        c.native_visual_id(QueryReply::succeeded(-2)).unwrap_err(),
        ConfigError::IntegerError(IntegerError::Negative)
    );
    assert_eq!(
        c.native_visual_id(QueryReply::failed()).unwrap_err(),
        ConfigError::QueryError
    );
}

// Caveat decode fails closed.
#[test]
fn slow_config_fails_closed() {
    let c = config();
    assert_eq!(c.slow_config(QueryReply::succeeded(0x3050)).unwrap(), true);
    assert_eq!(c.slow_config(QueryReply::succeeded(0x3038)).unwrap(), false);
    assert_eq!(c.slow_config(QueryReply::succeeded(0x3051)).unwrap(), false);
    assert_eq!(
        c.slow_config(QueryReply::succeeded(0x4242)).unwrap_err(),
        ConfigError::EnumError
    );
}

#[test]
fn surface_type_bits_round_trip() {
    let flags = config()
        .surface_type(QueryReply::succeeded((0x0004 | 0x0001) as i32))
        .unwrap();
    assert!(flags.window);
    assert!(flags.pbuffer);
    assert!(!flags.pixmap);
    assert_eq!(flags.bits(), 0x0005);
    let window = SurfaceType::window();
    assert_eq!(window.bits(), 0x0004);
    assert_eq!(SurfaceType::from_bits_truncate(0x0004), window);
}

// The extension-defined bit is stripped without the create-context
// extension, and kept with it.
#[test]
fn client_api_strips_extension_bit() {
    let c = config();
    let raw = (0x0040 | 0x0004 | 0x0008) as i32;
    let with_ext = c.client_api(QueryReply::succeeded(raw), &ext(true)).unwrap();
    assert!(with_ext.opengl_es3_khr);
    assert!(with_ext.opengl_es2);
    assert!(with_ext.opengl);
    let without_ext = c.client_api(QueryReply::succeeded(raw), &ext(false)).unwrap();
    assert!(!without_ext.opengl_es3_khr);
    assert!(without_ext.opengl_es2);
    assert!(without_ext.opengl);
}

#[test]
fn renderable_type_is_version_dispatched() {
    let c = config();
    let raw = (0x0008 | 0x0001) as i32;
    match c
        .renderable_type(QueryReply::succeeded(raw), EGLVersion::EGL_1_4)
        .unwrap()
    {
        RenderableType::EGL14(v) => {
            assert!(v.opengl);
            assert!(v.opengl_es);
            assert!(!v.opengl_es2);
        }
        _ => panic!("expected the first version's bits"),
    }
    match c
        .renderable_type(QueryReply::succeeded(0x0040), EGLVersion::EGL_1_5)
        .unwrap()
    {
        RenderableType::EGL15(v) => assert!(v.opengl_es3),
        _ => panic!("expected the second version's bits"),
    }
}

#[test]
fn transparent_rgb_decodes_by_type() {
    let c = config();
    let none = TransparentColorReplies {
        transparent_type: QueryReply::succeeded(0x3038),
        red_value: QueryReply::succeeded(0),
        green_value: QueryReply::succeeded(0),
        blue_value: QueryReply::succeeded(0),
    };
    assert!(c.transparent_rgb(&none).unwrap().is_none());
    let rgb = TransparentColorReplies {
        transparent_type: QueryReply::succeeded(0x3052),
        red_value: QueryReply::succeeded(1),
        green_value: QueryReply::succeeded(2),
        blue_value: QueryReply::succeeded(3),
    };
    let (r, g, b) = c.transparent_rgb(&rgb).unwrap().unwrap();
    assert_eq!((r.value(), g.value(), b.value()), (1, 2, 3));
    let unknown = TransparentColorReplies {
        transparent_type: QueryReply::succeeded(0x9999),
        ..rgb
    };
    assert_eq!(c.transparent_rgb(&unknown).unwrap_err(), ConfigError::EnumError);
    let negative = TransparentColorReplies {
        green_value: QueryReply::succeeded(-7),
        ..rgb
    };
    assert_eq!(
        c.transparent_rgb(&negative).unwrap_err(),
        ConfigError::IntegerError(IntegerError::Negative)
    );
}

#[test]
fn native_renderable_is_strict_boolean() {
    let c = config();
    assert_eq!(c.native_renderable(QueryReply::succeeded(1)).unwrap(), true);
    assert_eq!(c.native_renderable(QueryReply::succeeded(0)).unwrap(), false);
    assert_eq!(
        c.native_renderable(QueryReply::succeeded(2)).unwrap_err(),
        ConfigError::BooleanError
    );
}

#[test]
fn positive_and_zero_queries() {
    let c = config();
    let depth = c.depth_buffer(QueryReply::succeeded(24)).unwrap().unwrap();
    assert_eq!(depth.value(), 24);
    assert!(c.depth_buffer(QueryReply::succeeded(0)).unwrap().is_none());
    assert_eq!(
        c.config_id(QueryReply::succeeded(0)).unwrap_err(),
        ConfigError::IntegerError(IntegerError::Zero)
    );
    let (w, h) = c
        .max_pbuffer_width_height(QueryReply::succeeded(2048), QueryReply::succeeded(1024))
        .unwrap();
    assert_eq!((w.value(), h.value()), (2048, 1024));
}

#[test]
fn config_client_api_none_has_no_bits() {
    let none = ConfigClientAPI::none();
    assert_eq!(none.bits(), 0);
    assert!(ConfigClientAPI::from_bits_truncate(0x0002).openvg);
}

#[test]
fn attribute_names_match_the_native_table() {
    assert_eq!(ConfigAttribute::BufferSize.raw(), 0x3020);
    assert_eq!(ConfigAttribute::AlphaSize.raw(), 0x3021);
    assert_eq!(ConfigAttribute::RedSize.raw(), 0x3024);
    assert_eq!(ConfigAttribute::ColorBufferType.raw(), 0x303F);
    assert_eq!(ConfigAttribute::ConfigCaveat.raw(), 0x3027);
    assert_eq!(ConfigAttribute::RenderableType.raw(), 0x3040);
    assert_eq!(ConfigAttribute::Conformant.raw(), 0x3042);
    assert_eq!(ConfigAttribute::SurfaceType.raw(), 0x3033);
    assert_eq!(ConfigAttribute::NativeVisualID.raw(), 0x302E);
    assert_eq!(ConfigAttribute::MinSwapInterval.raw(), 0x303B);
    assert_eq!(ConfigAttribute::MaxSwapInterval.raw(), 0x303C);
    assert_eq!(QueryableAttribute::Width.raw(), 0x3057);
    assert_eq!(QueryableAttribute::Height.raw(), 0x3056);
    assert_eq!(QueryableAttribute::SwapBehavior.raw(), 0x3093);
    assert_eq!(QueryableAttribute::RenderBuffer.raw(), 0x3086);
    assert_eq!(ContextAttribute::ContextClientVersion.raw(), 0x3098);
    assert_eq!(ContextAttribute::ConfigID.raw(), 0x3028);
}
