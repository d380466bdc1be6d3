use egl_wrapper::config::attribute::{
    AllAttributesReplies, ColorBuffer, ColorBufferReplies, TransparentColorReplies,
};
use egl_wrapper::config::{Config, ConfigError};
use egl_wrapper::context::attribute::{context_api_type, ContextAPIType};
use egl_wrapper::display::DisplayExtensionSupport;
use egl_wrapper::utils::{QueryError, QueryReply};

fn ok(v: i32) -> QueryReply {
    QueryReply::succeeded(v)
}

fn replies() -> AllAttributesReplies {
    AllAttributesReplies {
        config_id: ok(12),
        color_buffer: ColorBufferReplies {
            color_buffer_type: ok(0x308E),
            red_size: ok(8),
            green_size: ok(8),
            blue_size: ok(8),
            luminance_size: ok(0),
            alpha_size: ok(8),
        },
        buffer_size: ok(32),
        alpha_mask_size: ok(0),
        depth_size: ok(24),
        stencil_size: ok(8),
        samples: ok(4),
        surface_type: ok(0x0005),
        renderable_type: ok(0x0044),
        native_renderable: ok(1),
        native_visual_id: ok(0),
        native_visual_type: ok(0x3038),
        config_caveat: ok(0x3038),
        conformant: ok(0x0004),
        level: ok(0),
        transparent_color: TransparentColorReplies {
            transparent_type: ok(0x3038),
            red_value: ok(0),
            green_value: ok(0),
            blue_value: ok(0),
        },
        max_pbuffer_width: ok(4096),
        max_pbuffer_height: ok(4096),
        max_pbuffer_pixels: ok(1 << 24),
        max_swap_interval: ok(4),
        min_swap_interval: ok(1),
    }
}

fn extensions(create_context: bool) -> DisplayExtensionSupport {
    DisplayExtensionSupport {
        get_all_proc_addresses: false,
        create_context,
    }
}

#[test]
fn all_attributes_decode_together() {
    let config = Config { raw_config: 2 };
    let info = config.all(&replies(), &extensions(true)).unwrap();
    assert_eq!(info.config_id.value(), 12);
    assert!(matches!(info.color_buffer, ColorBuffer::RGBA(_, _, _, _)));
    assert_eq!(info.color_buffer_size.value(), 32);
    assert!(info.alpha_mask_buffer.is_none());
    assert_eq!(info.depth_buffer.unwrap().value(), 24);
    assert_eq!(info.stencil_buffer.unwrap().value(), 8);
    assert_eq!(info.multisample_buffer_samples.unwrap().value(), 4);
    assert!(info.surface_type.window);
    assert!(info.surface_type.pbuffer);
    assert!(info.client_api.opengl_es2);
    assert!(info.client_api.opengl_es3_khr);
    assert!(info.native_renderable);
    assert_eq!(info.native_visual_id, None);
    assert_eq!(info.native_visual_type, None);
    assert!(!info.slow_config);
    assert!(info.client_api_conformance.opengl_es2);
    assert_eq!(info.level, 0);
    assert!(info.transparent_rgb.is_none());
    assert_eq!(info.max_pbuffer_width_height.0.value(), 4096);
    assert_eq!(info.max_pbuffer_pixels.value(), 1 << 24);
    assert_eq!(info.max_swap_interval.value(), 4);
    assert_eq!(info.min_swap_interval.value(), 1);
}

#[test]
fn all_attributes_strip_extension_bit_without_the_extension() {
    let config = Config { raw_config: 2 };
    let info = config.all(&replies(), &extensions(false)).unwrap();
    assert!(info.client_api.opengl_es2);
    assert!(!info.client_api.opengl_es3_khr);
}

#[test]
fn all_attributes_surface_first_error() {
    let config = Config { raw_config: 2 };
    let mut r = replies();
    r.config_id = QueryReply::failed();
    assert_eq!(
        config.all(&r, &extensions(true)).unwrap_err(),
        ConfigError::QueryError
    );
    let mut r = replies();
    r.config_caveat = ok(0x7777);
    assert_eq!(
        config.all(&r, &extensions(true)).unwrap_err(),
        ConfigError::EnumError
    );
}

#[test]
fn context_api_type_decodes_the_closed_set() {
    assert_eq!(context_api_type(ok(0x30A2)), Ok(ContextAPIType::OpenGL));
    assert_eq!(context_api_type(ok(0x30A0)), Ok(ContextAPIType::OpenGLES));
    assert_eq!(context_api_type(ok(0x30A1)), Ok(ContextAPIType::OpenVG));
    assert_eq!(context_api_type(ok(0x1111)), Err(QueryError::EnumError));
    assert_eq!(
        context_api_type(QueryReply::failed()),
        Err(QueryError::QueryError)
    );
}
