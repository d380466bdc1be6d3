use egl_wrapper::display::{ClientApiSupport, DisplayExtensionSupport};
use egl_wrapper::error::EGLError;
use egl_wrapper::utils::{IntegerError, PositiveInteger, UnsignedInteger};
use egl_wrapper::{ClientExtensions, EGLHandle};

fn handle(all: bool) -> EGLHandle {
    EGLHandle {
        get_platform_display_ext: all,
        create_platform_window_surface_ext: all,
        create_platform_pixmap_surface_ext: all,
    }
}

#[test]
fn display_extensions_parse_words() {
    let r = DisplayExtensionSupport::parse(
        "EGL_KHR_image EGL_KHR_create_context EGL_KHR_get_all_proc_addresses",
    );
    assert!(r.create_context);
    assert!(r.get_all_proc_addresses);
    let r = DisplayExtensionSupport::parse("EGL_KHR_image_base");
    assert!(!r.create_context);
    assert!(!r.get_all_proc_addresses);
}

#[test]
fn display_extensions_need_word_boundaries() {
    // the name as a prefix of a longer word is not a match
    let r = DisplayExtensionSupport::parse("EGL_KHR_create_context_no_error");
    assert!(!r.create_context);
    let r = DisplayExtensionSupport::parse("x EGL_KHR_create_context");
    assert!(r.create_context);
    let r = DisplayExtensionSupport::parse("");
    assert!(!r.create_context);
}

#[test]
fn client_api_support_distinguishes_words() {
    let r = ClientApiSupport::parse("OpenGL_ES OpenVG");
    assert!(!r.opengl);
    assert!(r.opengl_es);
    assert!(r.openvg);
    let r = ClientApiSupport::parse("OpenGL OpenGL_ES");
    assert!(r.opengl);
    assert!(r.opengl_es);
    assert!(!r.openvg);
    let r = ClientApiSupport::parse("");
    assert!(!r.opengl && !r.opengl_es && !r.openvg);
}

#[test]
fn client_extensions_parse_and_gate() {
    let r = ClientExtensions::parse(
        "EGL_EXT_platform_base EGL_EXT_platform_x11",
        &handle(true),
    )
    .unwrap();
    assert!(r.ext_platform_x11);
    assert!(!r.ext_platform_wayland);

    // announcing the base extension while a function is missing is an error
    let r = ClientExtensions::parse("EGL_EXT_platform_base", &handle(false));
    assert_eq!(r, Err(()));

    // without the base token the missing functions do not matter
    let r = ClientExtensions::parse("EGL_EXT_platform_wayland", &handle(false)).unwrap();
    assert!(r.ext_platform_wayland);
    assert!(!r.ext_platform_x11);
}

#[test]
fn display_builder_flags_follow_the_reply() {
    let b = handle(true).display_builder(Some("EGL_EXT_platform_x11 EGL_EXT_platform_wayland"));
    assert!(b.ext_platform_x11());
    assert!(b.ext_platform_wayland());
    let b = handle(true).display_builder(None);
    assert!(!b.ext_platform_x11());
    assert!(!b.ext_platform_wayland());
    // an unparseable string leaves the flags unset
    let b = handle(false).display_builder(Some("EGL_EXT_platform_base EGL_EXT_platform_x11"));
    assert!(!b.ext_platform_x11());
}

#[test]
fn error_classification_is_the_closed_table() {
    assert_eq!(EGLError::check_errors(0x3000), None);
    assert_eq!(EGLError::check_errors(0x3001), Some(EGLError::NotInitialized));
    assert_eq!(EGLError::check_errors(0x3002), Some(EGLError::BadAccess));
    assert_eq!(EGLError::check_errors(0x3003), Some(EGLError::BadAlloc));
    assert_eq!(EGLError::check_errors(0x3004), Some(EGLError::BadAttribute));
    assert_eq!(EGLError::check_errors(0x3005), Some(EGLError::BadConfig));
    assert_eq!(EGLError::check_errors(0x3006), Some(EGLError::BadContext));
    assert_eq!(EGLError::check_errors(0x3007), Some(EGLError::BadCurrentSurface));
    assert_eq!(EGLError::check_errors(0x3008), Some(EGLError::BadDisplay));
    assert_eq!(EGLError::check_errors(0x3009), Some(EGLError::BadMatch));
    assert_eq!(EGLError::check_errors(0x300A), Some(EGLError::BadNativePixmap));
    assert_eq!(EGLError::check_errors(0x300B), Some(EGLError::BadNativeWindow));
    assert_eq!(EGLError::check_errors(0x300C), Some(EGLError::BadParameter));
    assert_eq!(EGLError::check_errors(0x300D), Some(EGLError::BadSurface));
    assert_eq!(EGLError::check_errors(0x300E), Some(EGLError::ContextLost));
    assert_eq!(EGLError::check_errors(0x4000), Some(EGLError::UnknownError));
    assert_eq!(EGLError::check_errors(-5), Some(EGLError::UnknownError));
}

#[test]
fn integer_conversions() {
    assert_eq!(PositiveInteger::try_convert(3).unwrap().value(), 3);
    assert_eq!(PositiveInteger::try_convert(0).unwrap_err(), IntegerError::Zero);
    assert_eq!(
        PositiveInteger::try_convert(-1).unwrap_err(),
        IntegerError::Negative
    );
    assert_eq!(UnsignedInteger::try_convert(0).unwrap().value(), 0);
    assert_eq!(
        UnsignedInteger::try_convert(-1).unwrap_err(),
        IntegerError::Negative
    );
    assert_eq!(PositiveInteger::new(17).value(), 17);
    assert_eq!(UnsignedInteger::new(0).value(), 0);
}
