use egl_wrapper::display::{
    DisplayCreationError, DisplayExtensionSupport, DisplayHandle, EGLVersion, InitializeOutcome,
    InitializeReply,
};
use egl_wrapper::platform::DefaultPlatform;
use egl_wrapper::{EGLHandle, EGLInitError, EGLLoader, FunctionResolution};

fn handle() -> EGLHandle {
    EGLHandle {
        get_platform_display_ext: true,
        create_platform_window_surface_ext: true,
        create_platform_pixmap_surface_ext: true,
    }
}

fn full_resolution() -> FunctionResolution {
    FunctionResolution {
        required_functions: true,
        get_platform_display_ext: true,
        create_platform_window_surface_ext: false,
        create_platform_pixmap_surface_ext: false,
    }
}

#[test]
fn loader_succeeds_exactly_once() {
    let mut loader = EGLLoader::new();
    assert!(!loader.initialized());
    let first = loader.load(Some(full_resolution()));
    let first = first.unwrap();
    assert!(first.get_platform_display_ext);
    assert!(!first.create_platform_window_surface_ext);
    assert!(loader.initialized());
    let second = loader.load(Some(full_resolution()));
    assert_eq!(second, Err(EGLInitError::AlreadyInitialized));
}

#[test]
fn loader_reports_missing_library_and_symbols() {
    let mut loader = EGLLoader::new();
    assert_eq!(loader.load(None), Err(EGLInitError::LibraryLoadingError));
    assert!(!loader.initialized());
    let missing = FunctionResolution {
        required_functions: false,
        ..full_resolution()
    };
    assert_eq!(loader.load(Some(missing)), Err(EGLInitError::SymbolNotFound));
    assert!(!loader.initialized());
    assert!(loader.load(Some(full_resolution())).is_ok());
}

#[test]
fn get_display_null_handle_is_no_matching_display() {
    let r = DefaultPlatform::get_display(handle(), 0, ());
    assert!(matches!(r, Err(DisplayCreationError::NoMatchingDisplay)));
}

// Scenario: a valid display id whose native initialize call reports
// version (1, 4) yields an initialized display carrying that version.
#[test]
fn display_new_version_1_4() {
    let raw = DefaultPlatform::get_display(handle(), 77, ()).unwrap();
    let outcome = raw.initialize(InitializeReply {
        ok: true,
        version_major: 1,
        version_minor: 4,
    });
    match outcome {
        InitializeOutcome::Initialized(d) => {
            assert_eq!(d.egl_version, EGLVersion::EGL_1_4);
            let display = d.with_extensions(Some("EGL_KHR_create_context"));
            assert_eq!(display.egl_version(), EGLVersion::EGL_1_4);
            assert!(display.display_extensions().create_context());
            assert!(!display.display_extensions().get_all_proc_addresses);
            // teardown flows back through the one owner
            let handle = display.terminate();
            assert_eq!(handle.raw_display(), 77);
        }
        InitializeOutcome::Failed(_, _) => panic!("construction should succeed"),
    }
}

// Scenario: a reported version (9, 9) is outside the closed set: the error
// is version-unsupported and the handle comes back for exactly one
// terminate call.
#[test]
fn display_new_version_9_9_fails_with_teardown() {
    let raw = DefaultPlatform::get_display(handle(), 78, ()).unwrap();
    let outcome = raw.initialize(InitializeReply {
        ok: true,
        version_major: 9,
        version_minor: 9,
    });
    match outcome {
        InitializeOutcome::Failed(teardown, error) => {
            assert_eq!(error, DisplayCreationError::EGLVersionUnsupported);
            assert_eq!(teardown.raw_display(), 78);
        }
        InitializeOutcome::Initialized(_) => panic!("construction should fail"),
    }
}

// No leak on partial construction: a failing native initialize still hands
// the obtained handle back as the teardown obligation.
#[test]
fn display_new_initialize_failure_returns_handle() {
    let raw = DefaultPlatform::get_display(handle(), 79, ()).unwrap();
    let outcome = raw.initialize(InitializeReply {
        ok: false,
        version_major: 0,
        version_minor: 0,
    });
    match outcome {
        InitializeOutcome::Failed(teardown, error) => {
            assert_eq!(error, DisplayCreationError::EGLInitializationError);
            assert_eq!(teardown.raw_display(), 79);
        }
        InitializeOutcome::Initialized(_) => panic!("construction should fail"),
    }
}

#[test]
fn extension_query_failure_leaves_flags_false() {
    let raw = DefaultPlatform::get_display(handle(), 80, ()).unwrap();
    let outcome = raw.initialize(InitializeReply {
        ok: true,
        version_major: 1,
        version_minor: 5,
    });
    let initialized = match outcome {
        InitializeOutcome::Initialized(d) => d,
        InitializeOutcome::Failed(_, _) => panic!("construction should succeed"),
    };
    let display = initialized.with_extensions(None);
    assert_eq!(
        *display.display_extensions(),
        DisplayExtensionSupport {
            get_all_proc_addresses: false,
            create_context: false,
        }
    );
    assert_eq!(display.egl_version(), EGLVersion::EGL_1_5);
}

#[test]
fn version_parse_is_the_closed_set() {
    assert_eq!(EGLVersion::parse(1, 4), Some(EGLVersion::EGL_1_4));
    assert_eq!(EGLVersion::parse(1, 5), Some(EGLVersion::EGL_1_5));
    assert_eq!(EGLVersion::parse(1, 3), None);
    assert_eq!(EGLVersion::parse(2, 0), None);
    assert_eq!(EGLVersion::parse(0, 4), None);
}

#[test]
fn function_loader_gated_on_extension() {
    let raw = DefaultPlatform::get_display(handle(), 81, ()).unwrap();
    let outcome = raw.initialize(InitializeReply {
        ok: true,
        version_major: 1,
        version_minor: 4,
    });
    let initialized = match outcome {
        InitializeOutcome::Initialized(d) => d,
        InitializeOutcome::Failed(_, _) => panic!("construction should succeed"),
    };
    let display = initialized.with_extensions(Some("EGL_KHR_get_all_proc_addresses"));
    assert!(display.function_loader().is_some());

    let raw = DefaultPlatform::get_display(handle(), 82, ()).unwrap();
    let outcome = raw.initialize(InitializeReply {
        ok: true,
        version_major: 1,
        version_minor: 4,
    });
    let initialized = match outcome {
        InitializeOutcome::Initialized(d) => d,
        InitializeOutcome::Failed(_, _) => panic!("construction should succeed"),
    };
    let display = initialized.with_extensions(Some(""));
    assert!(display.function_loader().is_none());
}

#[test]
fn display_handle_keeps_platform_data() {
    let raw: DisplayHandle<DefaultPlatform<u32>> =
        DefaultPlatform::get_display(handle(), 83, 42u32).unwrap();
    assert_eq!(raw.raw_display(), 83);
    let platform = raw.into_platform();
    assert_eq!(*platform.optional_native_display(), 42);
}
