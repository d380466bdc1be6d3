//! Display negotiation: version parsing, extension and client-API support,
//! and the construction protocol that never leaks a native display handle.
//!
//! Construction runs in three steps, each deciding on the raw reply of one
//! native call the embedding program makes:
//!
//! 1. a platform's `get_display` turns the get-display reply into a
//!    [`DisplayHandle`], the sole owner of the raw display;
//! 2. [`DisplayHandle::initialize`] takes the initialize reply, parses the
//!    reported version, and either yields an [`InitializedDisplay`] or gives
//!    the handle back as a teardown obligation;
//! 3. [`InitializedDisplay::with_extensions`] takes the extension-string
//!    reply (best effort: a failed query leaves every flag false) and yields
//!    the finished [`Display`].
//!
//! A `DisplayHandle` has no `Clone` and no `Copy`: at every moment exactly one
//! owner holds it, so the native terminate call its holder must eventually
//! make happens exactly once, on success and on every failure path alike.

use vstd::prelude::*;

use crate::config::attribute::{ConfigClientAPI, SurfaceType};
use crate::config::client_api::{ConfigOpenGL, ConfigOpenGLES, ConfigWindow};
use crate::config::search::ConfigSearchOptionsBuilder;
use crate::config::{Config, ConfigError, Configs, DisplayConfig};
use crate::context::gl::{OpenGLContext, OpenGLContextBuilder, OpenGLContextBuilderEXT};
use crate::context::gles::{
    EGL14OpenGLESVersion, OpenGLESContext, OpenGLESContextBuilder, OpenGLESContextBuilderEXT,
    OpenGLESMajorVersionEXT,
};
use crate::context::SingleContext;
use crate::error::EGLError;
use crate::platform::Platform;
use crate::surface::pbuffer::PbufferSurfaceBuilder;
use crate::surface::pixmap::PixmapSurfaceBuilder;
use crate::text::{contains_token, has_token};
use crate::egl;
use crate::utils::QueryReply;

verus! {

/// Display extensions this layer understands, parsed once from the extension
/// string at construction.
#[derive(Debug, Copy, Clone, PartialEq, Eq, Structural)]
pub struct DisplayExtensionSupport {
    pub get_all_proc_addresses: bool,
    pub create_context: bool,
}

impl DisplayExtensionSupport {
    pub fn new() -> (r: DisplayExtensionSupport)
        ensures
            r == (DisplayExtensionSupport { get_all_proc_addresses: false, create_context: false }),
    {
        DisplayExtensionSupport { get_all_proc_addresses: false, create_context: false }
    }

    /// A flag is set exactly when its extension name stands as a word of the
    /// whitespace-separated extension string.
    pub fn parse(extensions: &str) -> (r: DisplayExtensionSupport)
        ensures
            r.get_all_proc_addresses == has_token(
                extensions@,
                "EGL_KHR_get_all_proc_addresses"@,
            ),
            r.create_context == has_token(extensions@, "EGL_KHR_create_context"@),
    {
        proof {
            reveal_strlit("EGL_KHR_get_all_proc_addresses");
            reveal_strlit("EGL_KHR_create_context");
        }
        DisplayExtensionSupport {
            get_all_proc_addresses: contains_token(extensions, "EGL_KHR_get_all_proc_addresses"),
            create_context: contains_token(extensions, "EGL_KHR_create_context"),
        }
    }

    /// Whether the create-context extension is supported.
    pub fn create_context(&self) -> (r: bool)
        ensures
            r == self.create_context,
    {
        self.create_context
    }
}

/// Which client APIs the display advertises.
#[derive(Debug, Copy, Clone, PartialEq, Eq, Structural)]
pub struct ClientApiSupport {
    pub opengl: bool,
    pub opengl_es: bool,
    pub openvg: bool,
}

impl ClientApiSupport {
    pub fn new() -> (r: ClientApiSupport)
        ensures
            r == (ClientApiSupport { opengl: false, opengl_es: false, openvg: false }),
    {
        ClientApiSupport { opengl: false, opengl_es: false, openvg: false }
    }

    /// A flag is set exactly when its API name stands as a word of the
    /// whitespace-separated client-API string.
    pub fn parse(client_apis: &str) -> (r: ClientApiSupport)
        ensures
            r.opengl == has_token(client_apis@, "OpenGL"@),
            r.opengl_es == has_token(client_apis@, "OpenGL_ES"@),
            r.openvg == has_token(client_apis@, "OpenVG"@),
    {
        proof {
            reveal_strlit("OpenGL");
            reveal_strlit("OpenGL_ES");
            reveal_strlit("OpenVG");
        }
        ClientApiSupport {
            opengl: contains_token(client_apis, "OpenGL"),
            opengl_es: contains_token(client_apis, "OpenGL_ES"),
            openvg: contains_token(client_apis, "OpenVG"),
        }
    }
}

/// The distinct ways display construction fails.
#[derive(Debug, Copy, Clone, PartialEq, Eq, Structural)]
pub enum DisplayCreationError {
    NoMatchingDisplay,
    EGLInitializationError,
    EGLVersionUnsupported,
    PlatformExtensionNotSupported,
}

/// The closed set of native versions this layer accepts.
#[allow(non_camel_case_types)]
#[derive(Debug, Copy, Clone, PartialEq, Eq, Structural)]
pub enum EGLVersion {
    EGL_1_4,
    EGL_1_5,
}

/// What version a reported (major, minor) pair parses to: only 1.4 and 1.5
/// are in the closed set.
pub open spec fn spec_parse_version(version_major: i32, version_minor: i32) -> Option<EGLVersion> {
    if version_major == 1 && version_minor == 4 {
        Some(EGLVersion::EGL_1_4)
    } else if version_major == 1 && version_minor == 5 {
        Some(EGLVersion::EGL_1_5)
    } else {
        None
    }
}

impl EGLVersion {
    pub fn parse(version_major: i32, version_minor: i32) -> (r: Option<EGLVersion>)
        ensures
            r == spec_parse_version(version_major, version_minor),
    {
        match version_major {
            1 => match version_minor {
                4 => Some(EGLVersion::EGL_1_4),
                5 => Some(EGLVersion::EGL_1_5),
                _ => None,
            },
            _ => None,
        }
    }
}

/// Sole owner of a raw native display handle. Whoever holds it (directly, or
/// inside an [`InitializedDisplay`] or [`Display`]) owes the native terminate
/// call; the type has no `Clone`, so that call happens exactly once.
#[derive(Debug)]
pub struct DisplayHandle<P: Platform> {
    pub raw_display: usize,
    pub platform: P,
}

impl<P: Platform> DisplayHandle<P> {
    pub(crate) fn from_raw(raw_display: usize, platform: P) -> (r: DisplayHandle<P>)
        ensures
            r == (DisplayHandle { raw_display, platform }),
    {
        DisplayHandle { raw_display, platform }
    }

    pub fn raw_display(&self) -> (r: usize)
        ensures
            r == self.raw_display,
    {
        self.raw_display
    }

    pub fn platform(&self) -> (r: &P)
        ensures
            r == &self.platform,
    {
        &self.platform
    }

    /// Surrenders the platform data once the native teardown calls are done.
    pub fn into_platform(self) -> (r: P)
        ensures
            r == self.platform,
    {
        self.platform
    }

    /// Decides on the raw reply of the native initialize call. On failure the
    /// handle comes back beside the error as the caller's teardown obligation.
    pub fn initialize(self, reply: InitializeReply) -> (r: InitializeOutcome<P>)
        ensures
            r == spec_initialize(self, reply),
    {
        if !reply.ok {
            return InitializeOutcome::Failed(self, DisplayCreationError::EGLInitializationError);
        }
        match EGLVersion::parse(reply.version_major, reply.version_minor) {
            Some(egl_version) => InitializeOutcome::Initialized(
                InitializedDisplay { handle: self, egl_version },
            ),
            None => InitializeOutcome::Failed(self, DisplayCreationError::EGLVersionUnsupported),
        }
    }
}

/// Raw outcome of the native initialize call: its boolean result and the
/// version numbers it wrote (meaningful only on success).
#[derive(Debug, Copy, Clone, PartialEq, Eq, Structural)]
pub struct InitializeReply {
    pub ok: bool,
    pub version_major: i32,
    pub version_minor: i32,
}

/// Either an initialized display, or the error beside the display handle the
/// caller must still tear down.
#[derive(Debug)]
pub enum InitializeOutcome<P: Platform> {
    Initialized(InitializedDisplay<P>),
    Failed(DisplayHandle<P>, DisplayCreationError),
}

/// What `DisplayHandle::initialize` returns for every injected reply.
pub open spec fn spec_initialize<P: Platform>(
    handle: DisplayHandle<P>,
    reply: InitializeReply,
) -> InitializeOutcome<P> {
    if !reply.ok {
        InitializeOutcome::Failed(handle, DisplayCreationError::EGLInitializationError)
    } else {
        match spec_parse_version(reply.version_major, reply.version_minor) {
            Some(egl_version) => InitializeOutcome::Initialized(
                InitializedDisplay { handle, egl_version },
            ),
            None => InitializeOutcome::Failed(handle, DisplayCreationError::EGLVersionUnsupported),
        }
    }
}

/// The display handle an initialize outcome carries, wherever it carries it.
pub open spec fn outcome_display_handle<P: Platform>(o: InitializeOutcome<P>) -> DisplayHandle<P> {
    match o {
        InitializeOutcome::Initialized(d) => d.handle,
        InitializeOutcome::Failed(h, _) => h,
    }
}

/// Law (no leak on partial construction): for every reply injected into the
/// initialize step, the outcome carries the obtained display handle in
/// exactly one place — inside the initialized display on success, beside the
/// error as the teardown obligation on failure — and each failure mode comes
/// exactly on the inputs that name it. Since `DisplayHandle` cannot be
/// cloned, the caller who performs the native terminate on whichever owner it
/// ends up holding makes that call exactly once.
pub proof fn lemma_initialize_no_leak<P: Platform>(handle: DisplayHandle<P>, reply: InitializeReply)
    ensures
        outcome_display_handle(spec_initialize(handle, reply)) == handle,
        spec_initialize(handle, reply) matches InitializeOutcome::Failed(h, e) ==> h == handle && (
        e == DisplayCreationError::EGLInitializationError || e
            == DisplayCreationError::EGLVersionUnsupported),
        (spec_initialize(handle, reply) matches InitializeOutcome::Failed(h, e) && e
            == DisplayCreationError::EGLInitializationError) <==> !reply.ok,
        (spec_initialize(handle, reply) matches InitializeOutcome::Failed(h, e) && e
            == DisplayCreationError::EGLVersionUnsupported) <==> (reply.ok && spec_parse_version(
            reply.version_major,
            reply.version_minor,
        ) is None),
        (spec_initialize(handle, reply) matches InitializeOutcome::Initialized(d)) <==> (reply.ok
            && spec_parse_version(reply.version_major, reply.version_minor) is Some),
        spec_initialize(handle, reply) matches InitializeOutcome::Initialized(d) ==> d.handle
            == handle && Some(d.egl_version) == spec_parse_version(
            reply.version_major,
            reply.version_minor,
        ),
{
}

/// A display whose native side is initialized and whose version is parsed;
/// only the extension query is still outstanding.
#[derive(Debug)]
pub struct InitializedDisplay<P: Platform> {
    pub handle: DisplayHandle<P>,
    pub egl_version: EGLVersion,
}

/// What `with_extensions` returns for every injected reply: the handle and
/// version carried unchanged, the extension flags parsed from the string, or
/// all false when the query failed.
pub open spec fn spec_with_extensions<P: Platform>(
    initialized: InitializedDisplay<P>,
    extensions_reply: Option<&str>,
) -> Display<P> {
    Display {
        extension_support: match extensions_reply {
            None => DisplayExtensionSupport { get_all_proc_addresses: false, create_context: false },
            Some(text) => DisplayExtensionSupport {
                get_all_proc_addresses: has_token(text@, "EGL_KHR_get_all_proc_addresses"@),
                create_context: has_token(text@, "EGL_KHR_create_context"@),
            },
        },
        egl_version: initialized.egl_version,
        display_handle: initialized.handle,
    }
}

impl<P: Platform> InitializedDisplay<P> {
    /// Finishes construction with the raw reply of the extension-string
    /// query. The query is best effort: `None` (a failed query) leaves every
    /// extension flag false instead of failing construction.
    pub fn with_extensions(self, extensions_reply: Option<&str>) -> (r: Display<P>)
        ensures
            r == spec_with_extensions(self, extensions_reply),
    {
        let extension_support = match extensions_reply {
            Some(text) => DisplayExtensionSupport::parse(text),
            None => DisplayExtensionSupport::new(),
        };
        Display {
            extension_support,
            egl_version: self.egl_version,
            display_handle: self.handle,
        }
    }
}

/// A negotiated connection to the native graphics system: version, extension
/// flags, and exclusive ownership of the display handle.
#[derive(Debug)]
pub struct Display<P: Platform> {
    pub extension_support: DisplayExtensionSupport,
    pub egl_version: EGLVersion,
    pub display_handle: DisplayHandle<P>,
}

impl<P: Platform> Display<P> {
    pub fn raw_display(&self) -> (r: usize)
        ensures
            r == self.display_handle.raw_display,
    {
        self.display_handle.raw_display()
    }

    pub fn egl_version(&self) -> (r: EGLVersion)
        ensures
            r == self.egl_version,
    {
        self.egl_version
    }

    pub fn display_extensions(&self) -> (r: &DisplayExtensionSupport)
        ensures
            r == &self.extension_support,
    {
        &self.extension_support
    }

    pub fn platform_display(&self) -> (r: &P)
        ensures
            r == &self.display_handle.platform,
    {
        self.display_handle.platform()
    }

    /// Parses the raw reply of the client-API string query.
    pub fn client_api_support(&self, client_apis_reply: Option<&str>) -> (r: Result<
        ClientApiSupport,
        (),
    >)
        ensures
            client_apis_reply is None ==> r == Err::<ClientApiSupport, ()>(()),
            client_apis_reply matches Some(text) ==> (r matches Ok(s) && s
                == (ClientApiSupport {
                opengl: has_token(text@, "OpenGL"@),
                opengl_es: has_token(text@, "OpenGL_ES"@),
                openvg: has_token(text@, "OpenVG"@),
            })),
    {
        match client_apis_reply {
            Some(text) => Ok(ClientApiSupport::parse(text)),
            None => Err(()),
        }
    }

    /// Ends the display's life and returns the handle: the caller now owes
    /// the native terminate (and release-thread) calls, exactly once.
    ///
    /// Nothing here checks that no context or surface derived from this
    /// display is still current; keeping the teardown ordered against the
    /// current pair is documented caller responsibility.
    pub fn terminate(self) -> (r: DisplayHandle<P>)
        ensures
            r == self.display_handle,
    {
        self.display_handle
    }
}

/// Law (no leak on partial construction, the whole protocol): once a display
/// handle is obtained, every run of the construction protocol — whatever the
/// initialize reply, and whatever the extension-string reply — carries that
/// handle in exactly one place: beside the error as the teardown obligation
/// when a step fails, inside the finished display when every step succeeds.
/// With `terminate` giving the handle back to the caller, the one native
/// terminate call is owed exactly once on every path.
pub proof fn lemma_display_new_no_leak<P: Platform>(
    handle: DisplayHandle<P>,
    reply: InitializeReply,
    extensions_reply: Option<&str>,
)
    ensures
        match spec_initialize(handle, reply) {
            InitializeOutcome::Failed(h, _) => h == handle,
            InitializeOutcome::Initialized(d) => spec_with_extensions(
                d,
                extensions_reply,
            ).display_handle == handle,
        },
{
}

/// Whether the renderable-type bitmask supports the given embedded-API
/// version of the core version's set.
pub open spec fn spec_es14_version_bit(version: EGL14OpenGLESVersion, bits: u32) -> bool {
    match version {
        EGL14OpenGLESVersion::Version1 => ConfigClientAPI::spec_from_bits(bits).opengl_es,
        EGL14OpenGLESVersion::Version2 => ConfigClientAPI::spec_from_bits(bits).opengl_es2,
    }
}

/// Whether the renderable-type bitmask supports the given embedded-API major
/// version of the create-context extension's set.
pub open spec fn spec_es_ext_version_bit(version: OpenGLESMajorVersionEXT, bits: u32) -> bool {
    match version {
        OpenGLESMajorVersionEXT::Version1 => ConfigClientAPI::spec_from_bits(bits).opengl_es,
        OpenGLESMajorVersionEXT::Version2 => ConfigClientAPI::spec_from_bits(bits).opengl_es2,
        OpenGLESMajorVersionEXT::Version3 => ConfigClientAPI::spec_from_bits(bits).opengl_es3_khr,
    }
}

impl<P: Platform> Display<P> {
    /// First half of the two-call enumeration idiom: the count the caller's
    /// buffer is sized to. A failed call or a negative count counts as zero.
    pub fn config_count(&self, reply: QueryReply) -> (c: i32)
        ensures
            c == if reply.ok && reply.value >= 0 {
                reply.value
            } else {
                0i32
            },
    {
        if reply.ok && reply.value >= 0 {
            reply.value
        } else {
            0
        }
    }

    /// Second half of the enumeration idiom: validates the filling call's
    /// reply (its count written back, and the handles read) against the
    /// buffer size the first half chose. A failed call, a negative or
    /// oversized count, or a count that does not match the handles read are
    /// all query failures, never a panic.
    pub fn configs(&self, buf_count: i32, reply: QueryReply, raw_configs: Vec<usize>) -> (r: Result<
        Configs,
        (),
    >)
        ensures
            !reply.ok ==> r is Err,
            reply.ok && (reply.value < 0 || reply.value > buf_count) ==> r is Err,
            reply.ok && 0 <= reply.value <= buf_count && raw_configs@.len() != reply.value ==> r
                is Err,
            reply.ok && 0 <= reply.value <= buf_count && raw_configs@.len() == reply.value ==> (
            r matches Ok(c) && c.view() == raw_configs@),
    {
        if !reply.ok {
            return Err(());
        }
        if reply.value < 0 || reply.value > buf_count {
            return Err(());
        }
        if raw_configs.len() != reply.value as usize {
            return Err(());
        }
        Ok(Configs::new(raw_configs))
    }

    /// First half of the two-call search idiom: how many configs matched.
    /// An explicit zero is a valid, empty result, distinct from failure; a
    /// failed call or a negative count is a failure.
    pub fn config_search_count(&self, reply: QueryReply) -> (r: Result<i32, ()>)
        ensures
            !reply.ok ==> r == Err::<i32, ()>(()),
            reply.ok && reply.value < 0 ==> r == Err::<i32, ()>(()),
            reply.ok && reply.value >= 0 ==> r == Ok::<i32, ()>(reply.value),
    {
        if !reply.ok {
            return Err(());
        }
        if reply.value < 0 {
            return Err(());
        }
        Ok(reply.value)
    }

    /// Second half of the search idiom: the filling call must echo exactly
    /// the count the first half reported. For a zero count the caller makes
    /// no second native call and passes the empty buffer with a successful
    /// zero reply.
    pub fn config_search(&self, count: i32, reply: QueryReply, raw_configs: Vec<usize>) -> (r:
        Result<Configs, ()>)
        ensures
            !reply.ok ==> r is Err,
            reply.ok && reply.value != count ==> r is Err,
            reply.ok && reply.value == count && (count < 0 || raw_configs@.len() != count) ==> r
                is Err,
            reply.ok && reply.value == count && count >= 0 && raw_configs@.len() == count ==> (
            r matches Ok(c) && c.view() == raw_configs@),
    {
        if !reply.ok {
            return Err(());
        }
        if reply.value != count || count < 0 {
            return Err(());
        }
        if raw_configs.len() != count as usize {
            return Err(());
        }
        Ok(Configs::new(raw_configs))
    }

    /// A criteria builder scoped to this display's version and extensions.
    pub fn config_search_options_builder(&self) -> (r: ConfigSearchOptionsBuilder)
        ensures
            r.spec_version() == self.egl_version,
            r.spec_extension_support() == self.extension_support,
            r.entries() == Seq::<i32>::empty(),
    {
        ConfigSearchOptionsBuilder::new(self.egl_version, self.extension_support)
    }

    /// Binds a config to this display for the objects derived from it.
    pub fn to_display_config(&self, config: Config) -> (r: DisplayConfig)
        ensures
            r == (DisplayConfig {
                raw_display: self.display_handle.raw_display,
                raw_config: config.raw_config,
            }),
    {
        DisplayConfig::new(self.display_handle.raw_display(), config.raw())
    }

    /// Capability gate for window surfaces: the conversion yields a value
    /// exactly when the window bit stands in the queried surface-type
    /// bitmask. `None` means the config cannot host a window surface — no
    /// error; callers iterate configs and skip.
    pub fn window_surface(&self, config: Config, surface_type_reply: QueryReply) -> (r: Result<
        Option<ConfigWindow>,
        ConfigError,
    >)
        ensures
            !surface_type_reply.ok ==> r == Err::<Option<ConfigWindow>, ConfigError>(
                ConfigError::QueryError,
            ),
            surface_type_reply.ok && SurfaceType::spec_from_bits(
                surface_type_reply.value as u32,
            ).window ==> (r matches Ok(o) && o matches Some(w) && w.spec_display_config() == (
            DisplayConfig {
                raw_display: self.display_handle.raw_display,
                raw_config: config.raw_config,
            })),
            surface_type_reply.ok && !SurfaceType::spec_from_bits(
                surface_type_reply.value as u32,
            ).window ==> r == Ok::<Option<ConfigWindow>, ConfigError>(None),
    {
        if config.window_config(surface_type_reply)? {
            Ok(Some(ConfigWindow::new(self.to_display_config(config))))
        } else {
            Ok(None)
        }
    }

    /// Capability gate for off-screen buffer surfaces, by the pbuffer bit.
    pub fn pbuffer_surface_builder(&self, config: Config, surface_type_reply: QueryReply) -> (r:
        Result<Option<PbufferSurfaceBuilder>, ConfigError>)
        ensures
            !surface_type_reply.ok ==> r == Err::<Option<PbufferSurfaceBuilder>, ConfigError>(
                ConfigError::QueryError,
            ),
            surface_type_reply.ok && SurfaceType::spec_from_bits(
                surface_type_reply.value as u32,
            ).pbuffer ==> (r matches Ok(o) && o matches Some(b) && b.spec_display_config() == (
            DisplayConfig {
                raw_display: self.display_handle.raw_display,
                raw_config: config.raw_config,
            }) && b.entries() == Seq::<i32>::empty()),
            surface_type_reply.ok && !SurfaceType::spec_from_bits(
                surface_type_reply.value as u32,
            ).pbuffer ==> r == Ok::<Option<PbufferSurfaceBuilder>, ConfigError>(None),
    {
        let flags = config.surface_type(surface_type_reply)?;
        if flags.pbuffer {
            Ok(Some(PbufferSurfaceBuilder::new(self.to_display_config(config))))
        } else {
            Ok(None)
        }
    }

    /// Capability gate for pixmap surfaces, by the pixmap bit.
    pub fn pixmap_surface_builder(
        &self,
        config: Config,
        native_pixmap: usize,
        surface_type_reply: QueryReply,
    ) -> (r: Result<Option<PixmapSurfaceBuilder>, ConfigError>)
        ensures
            !surface_type_reply.ok ==> r == Err::<Option<PixmapSurfaceBuilder>, ConfigError>(
                ConfigError::QueryError,
            ),
            surface_type_reply.ok && SurfaceType::spec_from_bits(
                surface_type_reply.value as u32,
            ).pixmap ==> (r matches Ok(o) && o matches Some(b) && b.spec_display_config() == (
            DisplayConfig {
                raw_display: self.display_handle.raw_display,
                raw_config: config.raw_config,
            }) && b.spec_native_pixmap() == native_pixmap && b.entries() == Seq::<i32>::empty()),
            surface_type_reply.ok && !SurfaceType::spec_from_bits(
                surface_type_reply.value as u32,
            ).pixmap ==> r == Ok::<Option<PixmapSurfaceBuilder>, ConfigError>(None),
    {
        let flags = config.surface_type(surface_type_reply)?;
        if flags.pixmap {
            Ok(Some(PixmapSurfaceBuilder::new(self.to_display_config(config), native_pixmap)))
        } else {
            Ok(None)
        }
    }

    /// Capability gate for desktop-API contexts: a builder exactly when the
    /// desktop bit stands in the queried renderable-type bitmask.
    pub fn opengl_context_builder(&self, config: Config, renderable_type_reply: QueryReply) -> (r:
        Result<Option<OpenGLContextBuilder>, ConfigError>)
        ensures
            !renderable_type_reply.ok ==> r == Err::<Option<OpenGLContextBuilder>, ConfigError>(
                ConfigError::QueryError,
            ),
            renderable_type_reply.ok && ConfigClientAPI::spec_from_bits(
                renderable_type_reply.value as u32,
            ).opengl ==> (r matches Ok(o) && o matches Some(b) && b.spec_config()
                .spec_display_config() == (DisplayConfig {
                raw_display: self.display_handle.raw_display,
                raw_config: config.raw_config,
            }) && b.entries() == Seq::<i32>::empty()),
            renderable_type_reply.ok && !ConfigClientAPI::spec_from_bits(
                renderable_type_reply.value as u32,
            ).opengl ==> r == Ok::<Option<OpenGLContextBuilder>, ConfigError>(None),
    {
        if config.opengl_config(renderable_type_reply, &self.extension_support)? {
            Ok(Some(OpenGLContextBuilder::new(ConfigOpenGL::new(self.to_display_config(config)))))
        } else {
            Ok(None)
        }
    }

    /// The create-context-extension variant of the desktop gate: without the
    /// extension the conversion yields nothing, whatever the bitmask.
    pub fn opengl_context_builder_ext(
        &self,
        config: Config,
        renderable_type_reply: QueryReply,
    ) -> (r: Result<Option<OpenGLContextBuilderEXT>, ConfigError>)
        ensures
            !self.extension_support.create_context ==> r == Ok::<
                Option<OpenGLContextBuilderEXT>,
                ConfigError,
            >(None),
            self.extension_support.create_context && !renderable_type_reply.ok ==> r == Err::<
                Option<OpenGLContextBuilderEXT>,
                ConfigError,
            >(ConfigError::QueryError),
            self.extension_support.create_context && renderable_type_reply.ok
                && ConfigClientAPI::spec_from_bits(renderable_type_reply.value as u32).opengl ==> (
            r matches Ok(o) && o matches Some(b) && b.spec_config().spec_display_config() == (
            DisplayConfig {
                raw_display: self.display_handle.raw_display,
                raw_config: config.raw_config,
            }) && b.entries() == Seq::<i32>::empty()),
            self.extension_support.create_context && renderable_type_reply.ok
                && !ConfigClientAPI::spec_from_bits(renderable_type_reply.value as u32).opengl
                ==> r == Ok::<Option<OpenGLContextBuilderEXT>, ConfigError>(None),
    {
        if !self.extension_support.create_context() {
            return Ok(None);
        }
        if config.opengl_config(renderable_type_reply, &self.extension_support)? {
            Ok(
                Some(
                    OpenGLContextBuilderEXT::new(ConfigOpenGL::new(self.to_display_config(config))),
                ),
            )
        } else {
            Ok(None)
        }
    }

    /// Capability gate for embedded-API contexts: a builder, already carrying
    /// the requested client version, exactly when that version's bit stands
    /// in the queried renderable-type bitmask.
    pub fn opengl_es_context_builder(
        &self,
        version: EGL14OpenGLESVersion,
        config: Config,
        renderable_type_reply: QueryReply,
    ) -> (r: Result<Option<OpenGLESContextBuilder>, ConfigError>)
        ensures
            !renderable_type_reply.ok ==> r == Err::<Option<OpenGLESContextBuilder>, ConfigError>(
                ConfigError::QueryError,
            ),
            renderable_type_reply.ok && spec_es14_version_bit(
                version,
                renderable_type_reply.value as u32,
            ) ==> (r matches Ok(o) && o matches Some(b) && b.spec_config().spec_display_config()
                == (DisplayConfig {
                raw_display: self.display_handle.raw_display,
                raw_config: config.raw_config,
            }) && b.entries() == seq![egl::CONTEXT_CLIENT_VERSION, version.spec_raw()]),
            renderable_type_reply.ok && !spec_es14_version_bit(
                version,
                renderable_type_reply.value as u32,
            ) ==> r == Ok::<Option<OpenGLESContextBuilder>, ConfigError>(None),
    {
        let supported: bool = match version {
            EGL14OpenGLESVersion::Version1 => config.opengl_es_1_config(
                renderable_type_reply,
                &self.extension_support,
            )?,
            EGL14OpenGLESVersion::Version2 => config.opengl_es_2_config(
                renderable_type_reply,
                &self.extension_support,
            )?,
        };
        if !supported {
            return Ok(None);
        }
        let mut builder = OpenGLESContextBuilder::new(
            ConfigOpenGLES::new(self.to_display_config(config)),
        );
        builder.set_context_client_version(version);
        assert(builder.entries() =~= seq![egl::CONTEXT_CLIENT_VERSION, version.spec_raw()]);
        Ok(Some(builder))
    }

    /// The create-context-extension variant of the embedded gate: without
    /// the extension the conversion yields nothing; with it, a builder
    /// carrying the requested major version exactly when that version's bit
    /// stands in the bitmask.
    pub fn opengl_es_context_builder_ext(
        &self,
        version: OpenGLESMajorVersionEXT,
        config: Config,
        renderable_type_reply: QueryReply,
    ) -> (r: Result<Option<OpenGLESContextBuilderEXT>, ConfigError>)
        ensures
            !self.extension_support.create_context ==> r == Ok::<
                Option<OpenGLESContextBuilderEXT>,
                ConfigError,
            >(None),
            self.extension_support.create_context && !renderable_type_reply.ok ==> r == Err::<
                Option<OpenGLESContextBuilderEXT>,
                ConfigError,
            >(ConfigError::QueryError),
            self.extension_support.create_context && renderable_type_reply.ok
                && spec_es_ext_version_bit(version, renderable_type_reply.value as u32) ==> (
            r matches Ok(o) && o matches Some(b) && b.spec_config().spec_display_config() == (
            DisplayConfig {
                raw_display: self.display_handle.raw_display,
                raw_config: config.raw_config,
            }) && b.entries() == seq![egl::CONTEXT_MAJOR_VERSION_KHR, version.spec_raw()]),
            self.extension_support.create_context && renderable_type_reply.ok
                && !spec_es_ext_version_bit(version, renderable_type_reply.value as u32) ==> r
                == Ok::<Option<OpenGLESContextBuilderEXT>, ConfigError>(None),
    {
        if !self.extension_support.create_context() {
            return Ok(None);
        }
        let supported: bool = match version {
            OpenGLESMajorVersionEXT::Version1 => config.opengl_es_1_config(
                renderable_type_reply,
                &self.extension_support,
            )?,
            OpenGLESMajorVersionEXT::Version2 => config.opengl_es_2_config(
                renderable_type_reply,
                &self.extension_support,
            )?,
            OpenGLESMajorVersionEXT::Version3 => config.opengl_es_3_config(
                renderable_type_reply,
                &self.extension_support,
            )?,
        };
        if !supported {
            return Ok(None);
        }
        let mut builder = OpenGLESContextBuilderEXT::new(
            ConfigOpenGLES::new(self.to_display_config(config)),
        );
        builder.set_major_version(version);
        assert(builder.entries() =~= seq![egl::CONTEXT_MAJOR_VERSION_KHR, version.spec_raw()]);
        Ok(Some(builder))
    }

    /// Finishes a desktop-context build: on success the context pairs with
    /// this display; on failure the display comes back beside the error.
    pub fn build_opengl_context(self, built: Result<OpenGLContext, Option<EGLError>>) -> (r: Result<
        SingleContext<OpenGLContext, Display<P>>,
        DisplayError<P, Option<EGLError>>,
    >)
        ensures
            built matches Ok(context) ==> (r matches Ok(s) && s.context == context && s.display
                == self),
            built matches Err(e) ==> (r matches Err(d) && d.display == self && d.error == e),
    {
        match built {
            Ok(context) => Ok(SingleContext::new(context, self)),
            Err(error) => Err(DisplayError::new(self, error)),
        }
    }

    /// Finishes an embedded-context build, exactly as the desktop one.
    pub fn build_opengl_es_context(self, built: Result<OpenGLESContext, Option<EGLError>>) -> (r:
        Result<SingleContext<OpenGLESContext, Display<P>>, DisplayError<P, Option<EGLError>>>)
        ensures
            built matches Ok(context) ==> (r matches Ok(s) && s.context == context && s.display
                == self),
            built matches Err(e) ==> (r matches Err(d) && d.display == self && d.error == e),
    {
        match built {
            Ok(context) => Ok(SingleContext::new(context, self)),
            Err(error) => Err(DisplayError::new(self, error)),
        }
    }

    /// A loader handle for client-API and extension function addresses; the
    /// address resolution itself is the embedding program's native call.
    pub fn extension_function_loader<'a>(&'a self) -> (r: ExtensionFunctionLoader<'a, P>)
        ensures
            r.display == self,
    {
        ExtensionFunctionLoader { display: self }
    }

    /// A loader handle valid for every function, not only extensions: it
    /// exists exactly when the all-proc-addresses extension is supported.
    pub fn function_loader<'a>(&'a self) -> (r: Option<FunctionLoader<'a, P>>)
        ensures
            self.extension_support.get_all_proc_addresses ==> (r matches Some(l) && l.display
                == self),
            !self.extension_support.get_all_proc_addresses ==> r is None,
    {
        if self.extension_support.get_all_proc_addresses {
            Some(FunctionLoader { display: self })
        } else {
            None
        }
    }
}

/// Marker for loading extension function addresses through the display.
pub struct ExtensionFunctionLoader<'a, P: Platform> {
    pub display: &'a Display<P>,
}

/// Marker for loading any function address through the display; obtainable
/// only when the all-proc-addresses extension is supported.
pub struct FunctionLoader<'a, P: Platform> {
    pub display: &'a Display<P>,
}

/// Returns ownership of the display beside the error when an operation that
/// consumed the display fails.
#[derive(Debug)]
pub struct DisplayError<P: Platform, E> {
    pub display: Display<P>,
    pub error: E,
}

impl<P: Platform, E> DisplayError<P, E> {
    pub(crate) fn new(display: Display<P>, error: E) -> (r: DisplayError<P, E>)
        ensures
            r.display == display,
            r.error == error,
    {
        DisplayError { display, error }
    }
}

} // verus!
