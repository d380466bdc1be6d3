use egl_wrapper::display::{DisplayCreationError, InitializeOutcome, InitializeReply};
use egl_wrapper::platform::{
    EXTPlatform, EXTPlatformAttributeList, EXTPlatformAttributeListBuilder, EXTPlatformType,
};
use egl_wrapper::EGLHandle;

fn handle() -> EGLHandle {
    EGLHandle {
        get_platform_display_ext: true,
        create_platform_window_surface_ext: true,
        create_platform_pixmap_surface_ext: true,
    }
}

#[test]
fn ext_platform_type_names_the_native_values() {
    assert_eq!(EXTPlatformType::X11.raw(), 0x31D5);
    assert_eq!(EXTPlatformType::Wayland.raw(), 0x31D8);
}

#[test]
fn ext_platform_attribute_list_default_is_empty() {
    let list = EXTPlatformAttributeList::default();
    assert_eq!(list.entries().as_slice(), &[0x3038]);
    let built = EXTPlatformAttributeListBuilder::new().build();
    assert_eq!(built.entries().as_slice(), &[0x3038]);
}

#[test]
fn ext_platform_get_display_decides_on_the_reply() {
    let r = EXTPlatform::get_display(0, (), handle());
    assert!(matches!(r, Err(DisplayCreationError::NoMatchingDisplay)));
    let h = EXTPlatform::get_display(64, 7u8, handle()).unwrap();
    assert_eq!(h.raw_display(), 64);
    assert_eq!(*h.platform().optional_native_display(), 7);
}

#[test]
fn display_builder_drives_both_platforms() {
    let builder = handle().display_builder(Some("EGL_EXT_platform_x11"));
    assert!(builder.ext_platform_x11());
    // failure hands the builder back beside the error
    let (builder, error) = builder.build_default_platform_display(0, ()).unwrap_err();
    assert_eq!(error, DisplayCreationError::NoMatchingDisplay);
    let attributes = EXTPlatformAttributeList::default();
    let raw = builder
        .build_ext_platform_base_display(EXTPlatformType::X11, &attributes, 65, ())
        .unwrap();
    assert_eq!(raw.raw_display(), 65);
    match raw.initialize(InitializeReply {
        ok: true,
        version_major: 1,
        version_minor: 5,
    }) {
        InitializeOutcome::Initialized(d) => {
            let display = d.with_extensions(Some(""));
            assert_eq!(display.raw_display(), 65);
        }
        InitializeOutcome::Failed(_, _) => panic!("construction should succeed"),
    }
}

#[test]
fn platform_data_is_reachable_and_mutable() {
    let mut platform = match EXTPlatform::get_display(66, String::from("wl"), handle()) {
        Ok(h) => h.into_platform(),
        Err(_) => panic!("a non-null handle yields a display handle"),
    };
    platform.optional_native_display_mut().push('0');
    assert_eq!(platform.optional_native_display(), "wl0");
}
