//! A typed, verified binding layer over a native display/graphics
//! initialization API: capability negotiation, typed configuration filtering,
//! and the lifetime rules of contexts and drawing surfaces.
//!
//! The native library itself is an external collaborator. Every native call
//! is made by the embedding program; this crate's functions take each call's
//! raw reply as plain values (handles as pointer-sized tokens, results as
//! integers) and carry the whole decision and ownership logic, with contracts
//! that pin that logic down. Resources with a native teardown call are linear
//! values: they have no `Clone`, every operation that can lose them returns
//! them or an explicit teardown obligation, so each destructive native call
//! is owed exactly once.

use vstd::prelude::*;

pub mod config;
pub mod context;
pub mod display;
pub mod egl;
pub mod error;
pub mod platform;
pub mod surface;
pub mod text;
pub mod utils;

use crate::display::DisplayCreationError;
use crate::display::DisplayHandle;
use crate::platform::{DefaultPlatform, EXTPlatform, EXTPlatformAttributeList, EXTPlatformType};
use crate::text::{contains_token, has_token};

verus! {

/// Initialization error.
#[derive(Debug, Copy, Clone, PartialEq, Eq, Structural)]
pub enum EGLInitError {
    AlreadyInitialized,
    /// The native library could not be opened.
    LibraryLoadingError,
    /// A required native function was missing from the library.
    SymbolNotFound,
}

/// What the embedding program's symbol resolution found in the native
/// library: whether every required function resolved, and which extension
/// functions resolved (each independently present or absent).
#[derive(Debug, Copy, Clone, PartialEq, Eq, Structural)]
pub struct FunctionResolution {
    pub required_functions: bool,
    pub get_platform_display_ext: bool,
    pub create_platform_window_surface_ext: bool,
    pub create_platform_pixmap_surface_ext: bool,
}

/// Handle to the resolved native function table. Cheap to copy and share;
/// records which extension functions are available.
#[derive(Debug, Copy, Clone, PartialEq, Eq, Structural)]
pub struct EGLHandle {
    pub get_platform_display_ext: bool,
    pub create_platform_window_surface_ext: bool,
    pub create_platform_pixmap_surface_ext: bool,
}

impl EGLHandle {
    /// Starts building a display, with the client-extension string the
    /// embedding program queried before any display exists (`None` when that
    /// query failed).
    pub fn display_builder(&self, client_extensions_reply: Option<&str>) -> (r: DisplayBuilder)
        ensures
            r.egl_handle == *self,
            r.client_extensions == spec_parsed_client_extensions(
                *self,
                client_extensions_reply,
            ),
    {
        DisplayBuilder::new(*self, client_extensions_reply)
    }
}

/// What a load attempt returns: a handle carrying the resolved extension
/// flags exactly when the loader was fresh, the library opened, and every
/// required function resolved; the matching sentinel error otherwise.
pub open spec fn spec_load(
    already_initialized: bool,
    library: Option<FunctionResolution>,
) -> Result<EGLHandle, EGLInitError> {
    if already_initialized {
        Err(EGLInitError::AlreadyInitialized)
    } else {
        match library {
            None => Err(EGLInitError::LibraryLoadingError),
            Some(res) => if !res.required_functions {
                Err(EGLInitError::SymbolNotFound)
            } else {
                Ok(
                    EGLHandle {
                        get_platform_display_ext: res.get_platform_display_ext,
                        create_platform_window_surface_ext: res.create_platform_window_surface_ext,
                        create_platform_pixmap_surface_ext: res.create_platform_pixmap_surface_ext,
                    },
                )
            },
        }
    }
}

/// The process-wide singleton factory for the native function table. The
/// native library is loaded once per process; a second load attempt fails
/// with the already-initialized sentinel. The embedding program keeps exactly
/// one `EGLLoader` (behind its process-wide lock) and feeds it what its
/// symbol resolution found.
#[derive(Debug)]
pub struct EGLLoader {
    initialized: bool,
}

impl EGLLoader {
    pub closed spec fn spec_initialized(&self) -> bool {
        self.initialized
    }

    pub fn new() -> (r: EGLLoader)
        ensures
            !r.spec_initialized(),
    {
        EGLLoader { initialized: false }
    }

    pub fn initialized(&self) -> (r: bool)
        ensures
            r == self.spec_initialized(),
    {
        self.initialized
    }

    /// Succeeds exactly once per loader: afterwards, and only afterwards, the
    /// loader is initialized and every further call fails. `None` stands for
    /// a native library that could not be opened; a resolution missing a
    /// required function is a hard load error.
    pub fn load(&mut self, library: Option<FunctionResolution>) -> (r: Result<
        EGLHandle,
        EGLInitError,
    >)
        ensures
            r == spec_load(old(self).spec_initialized(), library),
            final(self).spec_initialized() == (old(self).spec_initialized() || r is Ok),
    {
        if self.initialized {
            return Err(EGLInitError::AlreadyInitialized);
        }
        match library {
            None => Err(EGLInitError::LibraryLoadingError),
            Some(res) => {
                if !res.required_functions {
                    Err(EGLInitError::SymbolNotFound)
                } else {
                    self.initialized = true;
                    Ok(
                        EGLHandle {
                            get_platform_display_ext: res.get_platform_display_ext,
                            create_platform_window_surface_ext:
                                res.create_platform_window_surface_ext,
                            create_platform_pixmap_surface_ext:
                                res.create_platform_pixmap_surface_ext,
                        },
                    )
                }
            },
        }
    }
}

/// Client extensions discovered before any display exists.
#[derive(Debug, Copy, Clone, PartialEq, Eq, Structural)]
pub struct ClientExtensions {
    pub ext_platform_x11: bool,
    pub ext_platform_wayland: bool,
}

impl Default for ClientExtensions {
    fn default() -> (r: Self)
        ensures
            r == (ClientExtensions { ext_platform_x11: false, ext_platform_wayland: false }),
    {
        ClientExtensions { ext_platform_x11: false, ext_platform_wayland: false }
    }
}

impl ClientExtensions {
    /// Scans the client-extension string. Finding the platform-base extension
    /// announced while one of its three functions is missing from the
    /// function table is an error; otherwise each platform flag is set
    /// exactly when its extension name stands as a word of the string.
    pub fn parse(text: &str, egl_handle: &EGLHandle) -> (r: Result<ClientExtensions, ()>)
        ensures
            r == spec_parse_client_extensions(*egl_handle, text@),
    {
        proof {
            reveal_strlit("EGL_EXT_platform_base");
            reveal_strlit("EGL_EXT_platform_x11");
            reveal_strlit("EGL_EXT_platform_wayland");
        }
        if contains_token(text, "EGL_EXT_platform_base") && !(egl_handle.get_platform_display_ext
            && egl_handle.create_platform_window_surface_ext
            && egl_handle.create_platform_pixmap_surface_ext) {
            return Err(());
        }
        Ok(
            ClientExtensions {
                ext_platform_x11: contains_token(text, "EGL_EXT_platform_x11"),
                ext_platform_wayland: contains_token(text, "EGL_EXT_platform_wayland"),
            },
        )
    }
}

/// What `ClientExtensions::parse` returns for every extension string.
pub open spec fn spec_parse_client_extensions(egl_handle: EGLHandle, text: Seq<char>) -> Result<
    ClientExtensions,
    (),
> {
    if has_token(text, "EGL_EXT_platform_base"@) && !(egl_handle.get_platform_display_ext
        && egl_handle.create_platform_window_surface_ext
        && egl_handle.create_platform_pixmap_surface_ext) {
        Err(())
    } else {
        Ok(
            ClientExtensions {
                ext_platform_x11: has_token(text, "EGL_EXT_platform_x11"@),
                ext_platform_wayland: has_token(text, "EGL_EXT_platform_wayland"@),
            },
        )
    }
}

/// The client extensions a display builder ends up holding: none when the
/// string query failed or the string did not parse.
pub open spec fn spec_parsed_client_extensions(
    egl_handle: EGLHandle,
    reply: Option<&str>,
) -> Option<ClientExtensions> {
    match reply {
        None => None,
        Some(text) => match spec_parse_client_extensions(egl_handle, text@) {
            Ok(extensions) => Some(extensions),
            Err(_) => None,
        },
    }
}

/// Entry point for building displays, scoped to the discovered client
/// extensions.
#[derive(Debug)]
pub struct DisplayBuilder {
    pub client_extensions: Option<ClientExtensions>,
    pub egl_handle: EGLHandle,
}

impl DisplayBuilder {
    pub fn new(egl_handle: EGLHandle, client_extensions_reply: Option<&str>) -> (r: DisplayBuilder)
        ensures
            r.egl_handle == egl_handle,
            r.client_extensions == spec_parsed_client_extensions(
                egl_handle,
                client_extensions_reply,
            ),
    {
        let client_extensions = match client_extensions_reply {
            None => None,
            Some(text) => match ClientExtensions::parse(text, &egl_handle) {
                Ok(extensions) => Some(extensions),
                Err(_) => None,
            },
        };
        DisplayBuilder { client_extensions, egl_handle }
    }

    pub fn ext_platform_x11(&self) -> (r: bool)
        ensures
            r == (self.client_extensions matches Some(e) && e.ext_platform_x11),
    {
        match &self.client_extensions {
            Some(extensions) => extensions.ext_platform_x11,
            None => false,
        }
    }

    pub fn ext_platform_wayland(&self) -> (r: bool)
        ensures
            r == (self.client_extensions matches Some(e) && e.ext_platform_wayland),
    {
        match &self.client_extensions {
            Some(extensions) => extensions.ext_platform_wayland,
            None => false,
        }
    }

    /// Decides on the raw reply of the native get-display call for the
    /// default platform, handing the builder back beside the error on
    /// failure.
    pub fn build_default_platform_display<T>(
        self,
        raw_display_reply: usize,
        optional_native_display_handle: T,
    ) -> (r: Result<DisplayHandle<DefaultPlatform<T>>, (DisplayBuilder, DisplayCreationError)>)
        ensures
            raw_display_reply == egl::NO_HANDLE ==> (r matches Err((b, e)) && b == self && e
                == DisplayCreationError::NoMatchingDisplay),
            raw_display_reply != egl::NO_HANDLE ==> (r matches Ok(h) && h.raw_display
                == raw_display_reply && h.platform.egl_handle == self.egl_handle),
    {
        let egl_handle = self.egl_handle;
        match DefaultPlatform::get_display(
            egl_handle,
            raw_display_reply,
            optional_native_display_handle,
        ) {
            Ok(handle) => Ok(handle),
            Err(e) => Err((self, e)),
        }
    }

    /// Decides on the raw reply of the extension get-platform-display call,
    /// handing the builder back beside the error on failure. The attribute
    /// list is what the embedding program passed to the native call.
    pub fn build_ext_platform_base_display<T>(
        self,
        _display_type: EXTPlatformType,
        _attributes: &EXTPlatformAttributeList,
        raw_display_reply: usize,
        optional_native_display_handle: T,
    ) -> (r: Result<DisplayHandle<EXTPlatform<T>>, (DisplayBuilder, DisplayCreationError)>)
        ensures
            raw_display_reply == egl::NO_HANDLE ==> (r matches Err((b, e)) && b == self && e
                == DisplayCreationError::NoMatchingDisplay),
            raw_display_reply != egl::NO_HANDLE ==> (r matches Ok(h) && h.raw_display
                == raw_display_reply && h.platform.egl_handle == self.egl_handle),
    {
        let egl_handle = self.egl_handle;
        match EXTPlatform::get_display(
            raw_display_reply,
            optional_native_display_handle,
            egl_handle,
        ) {
            Ok(handle) => Ok(handle),
            Err(e) => Err((self, e)),
        }
    }
}

} // verus!
