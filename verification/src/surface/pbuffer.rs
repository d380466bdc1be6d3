//! Off-screen buffer surfaces.

use vstd::prelude::*;

use crate::config::DisplayConfig;
use crate::egl;
use crate::error::{spec_classify_error, EGLError};
use crate::surface::Surface;
use crate::surface::attribute::{TextureFormat, TextureTarget};
use crate::utils::{AttributeList, AttributeListBuilder, UnsignedInteger};

verus! {

/// An off-screen buffer surface.
#[derive(Debug)]
pub struct PbufferSurface {
    display_config: DisplayConfig,
    raw_surface: usize,
}

impl PbufferSurface {
    pub closed spec fn spec_display_config(&self) -> DisplayConfig {
        self.display_config
    }

    pub fn display_config(&self) -> (r: &DisplayConfig)
        ensures
            r == &self.spec_display_config(),
    {
        &self.display_config
    }
}

impl Surface for PbufferSurface {
    closed spec fn spec_raw_surface(&self) -> usize {
        self.raw_surface
    }

    closed spec fn spec_raw_display(&self) -> usize {
        self.spec_display_config().raw_display
    }

    fn raw_surface(&self) -> (r: usize)
        ensures
            r == self.spec_raw_surface(),
    {
        self.raw_surface
    }

    fn raw_display(&self) -> (r: usize)
        ensures
            r == self.spec_raw_display(),
    {
        self.display_config.raw_display()
    }
}

/// Accumulates creation attributes for an off-screen buffer surface.
pub struct PbufferSurfaceBuilder {
    display_config: DisplayConfig,
    attributes: AttributeListBuilder,
}

impl PbufferSurfaceBuilder {
    pub closed spec fn spec_display_config(&self) -> DisplayConfig {
        self.display_config
    }

    /// The (attribute, value) pairs set so far, flattened in order.
    pub closed spec fn entries(&self) -> Seq<i32> {
        self.attributes.entries()
    }

    pub(crate) fn new(display_config: DisplayConfig) -> (r: PbufferSurfaceBuilder)
        ensures
            r.spec_display_config() == display_config,
            r.entries() == Seq::<i32>::empty(),
    {
        PbufferSurfaceBuilder { display_config, attributes: AttributeListBuilder::new() }
    }

    /// Default value: zero.
    pub fn width(&mut self, width: UnsignedInteger)
        ensures
            final(self).spec_display_config() == old(self).spec_display_config(),
            final(self).entries() == old(self).entries().push(egl::WIDTH).push(
                width.spec_value() as i32,
            ),
    {
        self.attributes.add(egl::WIDTH, width.value());
    }

    /// Default value: zero.
    pub fn height(&mut self, height: UnsignedInteger)
        ensures
            final(self).spec_display_config() == old(self).spec_display_config(),
            final(self).entries() == old(self).entries().push(egl::HEIGHT).push(
                height.spec_value() as i32,
            ),
    {
        self.attributes.add(egl::HEIGHT, height.value());
    }

    /// Default value: `TextureFormat::NoTexture`.
    pub fn texture_format(&mut self, format: TextureFormat)
        ensures
            final(self).spec_display_config() == old(self).spec_display_config(),
            final(self).entries() == old(self).entries().push(egl::TEXTURE_FORMAT).push(
                format.spec_raw(),
            ),
    {
        self.attributes.add(egl::TEXTURE_FORMAT, format.raw());
    }

    /// Default value: `TextureTarget::NoTexture`.
    pub fn texture_target(&mut self, target: TextureTarget)
        ensures
            final(self).spec_display_config() == old(self).spec_display_config(),
            final(self).entries() == old(self).entries().push(egl::TEXTURE_TARGET).push(
                target.spec_raw(),
            ),
    {
        self.attributes.add(egl::TEXTURE_TARGET, target.raw());
    }

    /// Default value: false.
    pub fn mipmap_texture(&mut self, value: bool)
        ensures
            final(self).spec_display_config() == old(self).spec_display_config(),
            final(self).entries() == old(self).entries().push(egl::MIPMAP_TEXTURE).push(
                if value {
                    egl::TRUE
                } else {
                    egl::FALSE
                },
            ),
    {
        let raw: i32 = if value {
            egl::TRUE
        } else {
            egl::FALSE
        };
        self.attributes.add(egl::MIPMAP_TEXTURE, raw);
    }

    /// Default value: false.
    pub fn largest_pbuffer(&mut self, value: bool)
        ensures
            final(self).spec_display_config() == old(self).spec_display_config(),
            final(self).entries() == old(self).entries().push(egl::LARGEST_PBUFFER).push(
                if value {
                    egl::TRUE
                } else {
                    egl::FALSE
                },
            ),
    {
        let raw: i32 = if value {
            egl::TRUE
        } else {
            egl::FALSE
        };
        self.attributes.add(egl::LARGEST_PBUFFER, raw);
    }

    pub fn display_config(&self) -> (r: &DisplayConfig)
        ensures
            r == &self.spec_display_config(),
    {
        &self.display_config
    }

    /// Freezes the attributes for the create call.
    pub fn attribute_list(self) -> (r: (PendingPbufferSurface, AttributeList))
        ensures
            r.0.spec_display_config() == self.spec_display_config(),
            r.1@ == self.entries().push(egl::NONE),
    {
        (
            PendingPbufferSurface { display_config: self.display_config },
            self.attributes.build(),
        )
    }
}

/// An off-screen buffer surface whose create call is outstanding.
pub struct PendingPbufferSurface {
    display_config: DisplayConfig,
}

impl PendingPbufferSurface {
    pub closed spec fn spec_display_config(&self) -> DisplayConfig {
        self.display_config
    }

    /// Decides on the raw surface the native create-pbuffer-surface call
    /// returned: the null handle means failure, classified from the error
    /// query; anything else is the created surface.
    pub fn on_create(self, raw_surface: usize, raw_error: i32) -> (r: Result<
        PbufferSurface,
        Option<EGLError>,
    >)
        ensures
            raw_surface == egl::NO_HANDLE ==> r == Err::<PbufferSurface, Option<EGLError>>(
                spec_classify_error(raw_error),
            ),
            raw_surface != egl::NO_HANDLE ==> (r matches Ok(s) && s.spec_display_config()
                == self.spec_display_config() && s.spec_raw_surface() == raw_surface),
    {
        if raw_surface == egl::NO_HANDLE {
            Err(EGLError::check_errors(raw_error))
        } else {
            Ok(PbufferSurface { display_config: self.display_config, raw_surface })
        }
    }
}

} // verus!
