//! Pixmap-backed surfaces.

use vstd::prelude::*;

use crate::config::DisplayConfig;
use crate::egl;
use crate::error::{spec_classify_error, EGLError};
use crate::surface::Surface;
use crate::utils::{AttributeList, AttributeListBuilder};

verus! {

/// A pixmap-backed surface.
#[derive(Debug)]
pub struct PixmapSurface {
    display_config: DisplayConfig,
    raw_surface: usize,
}

impl PixmapSurface {
    pub closed spec fn spec_display_config(&self) -> DisplayConfig {
        self.display_config
    }

    pub fn display_config(&self) -> (r: &DisplayConfig)
        ensures
            r == &self.spec_display_config(),
    {
        &self.display_config
    }
}

impl Surface for PixmapSurface {
    closed spec fn spec_raw_surface(&self) -> usize {
        self.raw_surface
    }

    closed spec fn spec_raw_display(&self) -> usize {
        self.spec_display_config().raw_display
    }

    fn raw_surface(&self) -> (r: usize)
        ensures
            r == self.spec_raw_surface(),
    {
        self.raw_surface
    }

    fn raw_display(&self) -> (r: usize)
        ensures
            r == self.spec_raw_display(),
    {
        self.display_config.raw_display()
    }
}

/// Accumulates what the native create-pixmap-surface call needs.
pub struct PixmapSurfaceBuilder {
    display_config: DisplayConfig,
    attributes: AttributeListBuilder,
    native_pixmap: usize,
}

impl PixmapSurfaceBuilder {
    pub closed spec fn spec_display_config(&self) -> DisplayConfig {
        self.display_config
    }

    pub closed spec fn spec_native_pixmap(&self) -> usize {
        self.native_pixmap
    }

    /// The (attribute, value) pairs set so far, flattened in order.
    pub closed spec fn entries(&self) -> Seq<i32> {
        self.attributes.entries()
    }

    pub(crate) fn new(display_config: DisplayConfig, native_pixmap: usize) -> (r:
        PixmapSurfaceBuilder)
        ensures
            r.spec_display_config() == display_config,
            r.spec_native_pixmap() == native_pixmap,
            r.entries() == Seq::<i32>::empty(),
    {
        PixmapSurfaceBuilder {
            display_config,
            attributes: AttributeListBuilder::new(),
            native_pixmap,
        }
    }

    pub fn display_config(&self) -> (r: &DisplayConfig)
        ensures
            r == &self.spec_display_config(),
    {
        &self.display_config
    }

    /// The raw native pixmap handle for the create call.
    pub fn native_pixmap(&self) -> (r: usize)
        ensures
            r == self.spec_native_pixmap(),
    {
        self.native_pixmap
    }

    /// Freezes the attributes for the create call.
    pub fn attribute_list(self) -> (r: (PendingPixmapSurface, AttributeList))
        ensures
            r.0.spec_display_config() == self.spec_display_config(),
            r.1@ == self.entries().push(egl::NONE),
    {
        (
            PendingPixmapSurface { display_config: self.display_config },
            self.attributes.build(),
        )
    }
}

/// A pixmap surface whose create call is outstanding.
pub struct PendingPixmapSurface {
    display_config: DisplayConfig,
}

impl PendingPixmapSurface {
    pub closed spec fn spec_display_config(&self) -> DisplayConfig {
        self.display_config
    }

    /// Decides on the raw surface the native create-pixmap-surface call
    /// returned: the null handle means failure, classified from the error
    /// query; anything else is the created surface.
    pub fn on_create(self, raw_surface: usize, raw_error: i32) -> (r: Result<
        PixmapSurface,
        Option<EGLError>,
    >)
        ensures
            raw_surface == egl::NO_HANDLE ==> r == Err::<PixmapSurface, Option<EGLError>>(
                spec_classify_error(raw_error),
            ),
            raw_surface != egl::NO_HANDLE ==> (r matches Ok(s) && s.spec_display_config()
                == self.spec_display_config() && s.spec_raw_surface() == raw_surface),
    {
        if raw_surface == egl::NO_HANDLE {
            Err(EGLError::check_errors(raw_error))
        } else {
            Ok(PixmapSurface { display_config: self.display_config, raw_surface })
        }
    }
}

} // verus!
