use egl_wrapper::config::attribute::{
    ClientApiConformance, ConfigClientAPI, EGL14ConfigClientAPI, EGL15ConfigClientAPI,
    SurfaceType,
};
use egl_wrapper::config::search::EGLVersionError;
use egl_wrapper::config::attribute::RenderableType;
use egl_wrapper::config::{Config, ConfigError};
use egl_wrapper::context::gles::{EGL14OpenGLESVersion, OpenGLESMajorVersionEXT};
use egl_wrapper::display::{Display, InitializeOutcome, InitializeReply};
use egl_wrapper::platform::DefaultPlatform;
use egl_wrapper::utils::{QueryReply, UnsignedInteger};
use egl_wrapper::EGLHandle;

const OPENGL_ES_BIT: i32 = 0x0001;
const OPENGL_ES2_BIT: i32 = 0x0004;
const OPENGL_BIT: i32 = 0x0008;
const OPENGL_ES3_BIT: i32 = 0x0040;
const WINDOW_BIT: i32 = 0x0004;
const PBUFFER_BIT: i32 = 0x0001;
const PIXMAP_BIT: i32 = 0x0002;

fn handle() -> EGLHandle {
    EGLHandle {
        get_platform_display_ext: false,
        create_platform_window_surface_ext: false,
        create_platform_pixmap_surface_ext: false,
    }
}

fn display(extensions: &str) -> Display<DefaultPlatform<()>> {
    let h = DefaultPlatform::get_display(handle(), 90, ()).unwrap();
    match h.initialize(InitializeReply {
        ok: true,
        version_major: 1,
        version_minor: 4,
    }) {
        InitializeOutcome::Initialized(d) => d.with_extensions(Some(extensions)),
        InitializeOutcome::Failed(_, _) => panic!("construction should succeed"),
    }
}

fn config() -> Config {
    Config { raw_config: 3 }
}

// Capability gating: a builder comes back exactly when the matching bit is
// present in the queried bitmask.
#[test]
fn window_surface_gated_on_window_bit() {
    let d = display("");
    let some = d
        .window_surface(config(), QueryReply::succeeded(WINDOW_BIT))
        .unwrap();
    assert!(some.is_some());
    let none = d
        .window_surface(config(), QueryReply::succeeded(PBUFFER_BIT))
        .unwrap();
    assert!(none.is_none());
    assert_eq!(
        d.window_surface(config(), QueryReply::failed()).unwrap_err(),
        ConfigError::QueryError
    );
}

#[test]
fn pbuffer_and_pixmap_builders_gated_on_their_bits() {
    let d = display("");
    assert!(d
        .pbuffer_surface_builder(config(), QueryReply::succeeded(PBUFFER_BIT))
        .unwrap()
        .is_some());
    assert!(d
        .pbuffer_surface_builder(config(), QueryReply::succeeded(WINDOW_BIT))
        .unwrap()
        .is_none());
    let pixmap = d
        .pixmap_surface_builder(config(), 700, QueryReply::succeeded(PIXMAP_BIT))
        .unwrap()
        .unwrap();
    assert_eq!(pixmap.native_pixmap(), 700);
    assert!(d
        .pixmap_surface_builder(config(), 700, QueryReply::succeeded(WINDOW_BIT))
        .unwrap()
        .is_none());
}

#[test]
fn opengl_builder_gated_on_desktop_bit() {
    let d = display("");
    assert!(d
        .opengl_context_builder(config(), QueryReply::succeeded(OPENGL_BIT))
        .unwrap()
        .is_some());
    assert!(d
        .opengl_context_builder(config(), QueryReply::succeeded(OPENGL_ES2_BIT))
        .unwrap()
        .is_none());
}

// Scenario: asking for a version-2 embedded context on a config lacking the
// version-2 bit yields nothing, before any native create-context call can
// exist — the builder the create call needs is never produced.
#[test]
fn es2_builder_refused_without_es2_bit() {
    let d = display("");
    let r = d
        .opengl_es_context_builder(
            EGL14OpenGLESVersion::Version2,
            config(),
            QueryReply::succeeded(OPENGL_ES_BIT | OPENGL_BIT),
        )
        .unwrap();
    assert!(r.is_none());
    let r = d
        .opengl_es_context_builder(
            EGL14OpenGLESVersion::Version2,
            config(),
            QueryReply::succeeded(OPENGL_ES2_BIT),
        )
        .unwrap();
    assert!(r.is_some());
    let r = d
        .opengl_es_context_builder(
            EGL14OpenGLESVersion::Version1,
            config(),
            QueryReply::succeeded(OPENGL_ES_BIT),
        )
        .unwrap();
    assert!(r.is_some());
}

#[test]
fn ext_builders_require_create_context_extension() {
    let without = display("");
    assert!(without
        .opengl_context_builder_ext(config(), QueryReply::succeeded(OPENGL_BIT))
        .unwrap()
        .is_none());
    assert!(without
        .opengl_es_context_builder_ext(
            OpenGLESMajorVersionEXT::Version3,
            config(),
            QueryReply::succeeded(OPENGL_ES3_BIT),
        )
        .unwrap()
        .is_none());

    let with = display("EGL_KHR_create_context");
    assert!(with
        .opengl_context_builder_ext(config(), QueryReply::succeeded(OPENGL_BIT))
        .unwrap()
        .is_some());
    assert!(with
        .opengl_es_context_builder_ext(
            OpenGLESMajorVersionEXT::Version3,
            config(),
            QueryReply::succeeded(OPENGL_ES3_BIT),
        )
        .unwrap()
        .is_some());
    assert!(with
        .opengl_es_context_builder_ext(
            OpenGLESMajorVersionEXT::Version3,
            config(),
            QueryReply::succeeded(OPENGL_ES2_BIT),
        )
        .unwrap()
        .is_none());
}

// Search criteria: the built attribute list encodes exactly the requested
// filters, terminated by the sentinel.
#[test]
fn search_options_encode_requested_filters() {
    let d = display("EGL_KHR_create_context");
    let mut builder = d.config_search_options_builder();
    builder.add_unsigned_integer_attribute(
        egl_wrapper::config::search::UnsignedIntegerSearchAttributes::AlphaSize,
        Some(UnsignedInteger::new(8)),
    );
    builder.surface_type(SurfaceType::window());
    let mut es2 = ConfigClientAPI::none();
    es2.opengl_es2 = true;
    builder.client_api(es2);
    let options = builder.build();
    assert_eq!(
        options.attribute_list().entries().as_slice(),
        &[
            0x3021, 8,      // alpha size, exactly eight
            0x3033, 0x0004, // surface type, the window bit
            0x3040, 0x0004, // renderable type, the version-2 embedded bit
            0x3038,         // the terminating sentinel
        ]
    );
}

#[test]
fn search_options_dont_care_and_ignore() {
    let d = display("");
    let mut builder = d.config_search_options_builder();
    builder.add_unsigned_integer_attribute(
        egl_wrapper::config::search::UnsignedIntegerSearchAttributes::DepthSize,
        None,
    );
    builder.ignore_attribute(egl_wrapper::config::search::IgnoreAttribute::NativeVisualID);
    let options = builder.build();
    assert_eq!(
        options.attribute_list().entries().as_slice(),
        &[0x3025, -1, 0x302E, 0, 0x3038]
    );
}

// Without the create-context extension the extension-defined bit is
// silently stripped from the requested client APIs.
#[test]
fn search_options_strip_extension_bit() {
    let d = display("");
    let mut builder = d.config_search_options_builder();
    let mut api = ConfigClientAPI::none();
    api.opengl_es2 = true;
    api.opengl_es3_khr = true;
    builder.client_api(api);
    let options = builder.build();
    assert_eq!(
        options.attribute_list().entries().as_slice(),
        &[0x3040, 0x0004, 0x3038]
    );
}

#[test]
fn version_gated_filters_reject_the_other_version() {
    let d = display("");
    let mut builder = d.config_search_options_builder();
    let wrong = RenderableType::EGL15(EGL15ConfigClientAPI::from_bits_truncate(0x0008));
    assert_eq!(builder.renderable_type(wrong), Err(EGLVersionError));
    let right = RenderableType::EGL14(EGL14ConfigClientAPI::from_bits_truncate(0x0008));
    assert_eq!(builder.renderable_type(right), Ok(()));
    let wrong = ClientApiConformance::EGL15(EGL15ConfigClientAPI::from_bits_truncate(0x0001));
    assert_eq!(builder.client_api_conformance(wrong), Err(EGLVersionError));
    let right = ClientApiConformance::EGL14(EGL14ConfigClientAPI::from_bits_truncate(0x0001));
    assert_eq!(builder.client_api_conformance(right), Ok(()));
    let options = builder.build();
    assert_eq!(
        options.attribute_list().entries().as_slice(),
        &[0x3040, 0x0008, 0x3042, 0x0001, 0x3038]
    );
}

// The two-call enumeration and search idioms validate counts.
#[test]
fn configs_and_search_validate_counts() {
    let d = display("");
    assert_eq!(d.config_count(QueryReply::succeeded(4)), 4);
    assert_eq!(d.config_count(QueryReply::succeeded(-2)), 0);
    assert_eq!(d.config_count(QueryReply::failed()), 0);

    let configs = d
        .configs(2, QueryReply::succeeded(2), vec![100, 200])
        .unwrap();
    assert_eq!(configs.count(), 2);
    assert_eq!(configs.get(0).unwrap().raw(), 100);
    assert_eq!(configs.get(1).unwrap().raw(), 200);
    assert!(configs.get(2).is_none());
    assert!(d.configs(2, QueryReply::succeeded(3), vec![1, 2, 3]).is_err());
    assert!(d.configs(2, QueryReply::failed(), vec![]).is_err());
    assert!(d.configs(2, QueryReply::succeeded(-1), vec![]).is_err());

    assert_eq!(d.config_search_count(QueryReply::succeeded(0)), Ok(0));
    assert!(d.config_search_count(QueryReply::succeeded(-1)).is_err());
    assert!(d.config_search_count(QueryReply::failed()).is_err());
    // an explicit zero count is a valid, empty result
    let empty = d
        .config_search(0, QueryReply::succeeded(0), vec![])
        .unwrap();
    assert_eq!(empty.count(), 0);
    // the filling call must echo the count
    assert!(d.config_search(2, QueryReply::succeeded(1), vec![9]).is_err());
    let found = d
        .config_search(1, QueryReply::succeeded(1), vec![55])
        .unwrap();
    assert_eq!(found.get(0).unwrap().raw(), 55);
}
