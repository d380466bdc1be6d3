//! Building the attribute list a native config search filters by.

use vstd::prelude::*;

use crate::config::attribute::{
    ClientApiConformance, ConfigClientAPI, RenderableType, SurfaceType,
};
use crate::display::{DisplayExtensionSupport, EGLVersion};
use crate::egl;
use crate::utils::{AttributeList, AttributeListBuilder, PositiveInteger, UnsignedInteger};

verus! {

/// A filter value was built for a version other than the display's.
#[derive(Debug, Copy, Clone, PartialEq, Eq, Structural)]
pub struct EGLVersionError;

/// The search attributes that take an unsigned integer or "don't care".
#[derive(Debug, Copy, Clone, PartialEq, Eq, Structural)]
pub enum UnsignedIntegerSearchAttributes {
    BufferSize,
    RedSize,
    GreenSize,
    BlueSize,
    LuminanceSize,
    AlphaSize,
    AlphaMaskSize,
    DepthSize,
    Level,
    Samples,
    StencilSize,
}

impl UnsignedIntegerSearchAttributes {
    pub open spec fn spec_raw(self) -> i32 {
        match self {
            UnsignedIntegerSearchAttributes::BufferSize => egl::BUFFER_SIZE,
            UnsignedIntegerSearchAttributes::RedSize => egl::RED_SIZE,
            UnsignedIntegerSearchAttributes::GreenSize => egl::GREEN_SIZE,
            UnsignedIntegerSearchAttributes::BlueSize => egl::BLUE_SIZE,
            UnsignedIntegerSearchAttributes::LuminanceSize => egl::LUMINANCE_SIZE,
            UnsignedIntegerSearchAttributes::AlphaSize => egl::ALPHA_SIZE,
            UnsignedIntegerSearchAttributes::AlphaMaskSize => egl::ALPHA_MASK_SIZE,
            UnsignedIntegerSearchAttributes::DepthSize => egl::DEPTH_SIZE,
            UnsignedIntegerSearchAttributes::Level => egl::LEVEL,
            UnsignedIntegerSearchAttributes::Samples => egl::SAMPLES,
            UnsignedIntegerSearchAttributes::StencilSize => egl::STENCIL_SIZE,
        }
    }

    /// The native attribute name.
    pub fn raw(self) -> (r: i32)
        ensures
            r == self.spec_raw(),
    {
        match self {
            UnsignedIntegerSearchAttributes::BufferSize => egl::BUFFER_SIZE,
            UnsignedIntegerSearchAttributes::RedSize => egl::RED_SIZE,
            UnsignedIntegerSearchAttributes::GreenSize => egl::GREEN_SIZE,
            UnsignedIntegerSearchAttributes::BlueSize => egl::BLUE_SIZE,
            UnsignedIntegerSearchAttributes::LuminanceSize => egl::LUMINANCE_SIZE,
            UnsignedIntegerSearchAttributes::AlphaSize => egl::ALPHA_SIZE,
            UnsignedIntegerSearchAttributes::AlphaMaskSize => egl::ALPHA_MASK_SIZE,
            UnsignedIntegerSearchAttributes::DepthSize => egl::DEPTH_SIZE,
            UnsignedIntegerSearchAttributes::Level => egl::LEVEL,
            UnsignedIntegerSearchAttributes::Samples => egl::SAMPLES,
            UnsignedIntegerSearchAttributes::StencilSize => egl::STENCIL_SIZE,
        }
    }
}

/// Attributes a caller can explicitly leave unconstrained.
#[derive(Debug, Copy, Clone, PartialEq, Eq, Structural)]
pub enum IgnoreAttribute {
    MaxPbufferWidth,
    MaxPbufferHeight,
    MaxPbufferPixels,
    NativeVisualID,
}

impl IgnoreAttribute {
    pub open spec fn spec_raw(self) -> i32 {
        match self {
            IgnoreAttribute::MaxPbufferWidth => egl::MAX_PBUFFER_WIDTH,
            IgnoreAttribute::MaxPbufferHeight => egl::MAX_PBUFFER_HEIGHT,
            IgnoreAttribute::MaxPbufferPixels => egl::MAX_PBUFFER_PIXELS,
            IgnoreAttribute::NativeVisualID => egl::NATIVE_VISUAL_ID,
        }
    }

    /// The native attribute name.
    pub fn raw(self) -> (r: i32)
        ensures
            r == self.spec_raw(),
    {
        match self {
            IgnoreAttribute::MaxPbufferWidth => egl::MAX_PBUFFER_WIDTH,
            IgnoreAttribute::MaxPbufferHeight => egl::MAX_PBUFFER_HEIGHT,
            IgnoreAttribute::MaxPbufferPixels => egl::MAX_PBUFFER_PIXELS,
            IgnoreAttribute::NativeVisualID => egl::NATIVE_VISUAL_ID,
        }
    }
}

/// The renderable-type bitmask a version-gated filter value encodes to, if
/// the value was built for that version.
pub open spec fn spec_renderable_type_bits(
    renderable_type: RenderableType,
    version: EGLVersion,
) -> Option<int> {
    match (version, renderable_type) {
        (EGLVersion::EGL_1_4, RenderableType::EGL14(v)) => Some(v.spec_bits()),
        (EGLVersion::EGL_1_5, RenderableType::EGL15(v)) => Some(v.spec_bits()),
        _ => None,
    }
}

/// The conformant bitmask a version-gated filter value encodes to, if the
/// value was built for that version.
pub open spec fn spec_conformance_bits(
    conformance: ClientApiConformance,
    version: EGLVersion,
) -> Option<int> {
    match (version, conformance) {
        (EGLVersion::EGL_1_4, ClientApiConformance::EGL14(v)) => Some(v.spec_bits()),
        (EGLVersion::EGL_1_5, ClientApiConformance::EGL15(v)) => Some(v.spec_bits()),
        _ => None,
    }
}

/// Accumulates config selection criteria, scoped to the display's negotiated
/// version and extension flags so that version-inappropriate filter values
/// are rejected and the extension-gated bit is stripped.
///
/// With no criteria set, the native side selects and sorts configs by its
/// default rules.
pub struct ConfigSearchOptionsBuilder {
    egl_version: EGLVersion,
    extension_support: DisplayExtensionSupport,
    list_builder: AttributeListBuilder,
}

impl ConfigSearchOptionsBuilder {
    pub closed spec fn spec_version(&self) -> EGLVersion {
        self.egl_version
    }

    pub closed spec fn spec_extension_support(&self) -> DisplayExtensionSupport {
        self.extension_support
    }

    /// The (attribute, value) pairs set so far, flattened in order.
    pub closed spec fn entries(&self) -> Seq<i32> {
        self.list_builder.entries()
    }

    pub(crate) fn new(egl_version: EGLVersion, extension_support: DisplayExtensionSupport) -> (r:
        ConfigSearchOptionsBuilder)
        ensures
            r.spec_version() == egl_version,
            r.spec_extension_support() == extension_support,
            r.entries() == Seq::<i32>::empty(),
    {
        ConfigSearchOptionsBuilder {
            egl_version,
            extension_support,
            list_builder: AttributeListBuilder::new(),
        }
    }

    /// Requires an exact value for the attribute, or sets the explicit
    /// "don't care" sentinel when the value is `None`.
    pub fn add_unsigned_integer_attribute(
        &mut self,
        attribute: UnsignedIntegerSearchAttributes,
        value: Option<UnsignedInteger>,
    )
        ensures
            final(self).spec_version() == old(self).spec_version(),
            final(self).spec_extension_support() == old(self).spec_extension_support(),
            value matches Some(v) ==> final(self).entries() == old(self).entries().push(
                attribute.spec_raw(),
            ).push(v.spec_value() as i32),
            value is None ==> final(self).entries() == old(self).entries().push(
                attribute.spec_raw(),
            ).push(egl::DONT_CARE),
    {
        match value {
            Some(v) => self.list_builder.add(attribute.raw(), v.value()),
            None => self.list_builder.add(attribute.raw(), egl::DONT_CARE),
        }
    }

    /// Marks the attribute as explicitly unconstrained.
    pub fn ignore_attribute(&mut self, attribute: IgnoreAttribute)
        ensures
            final(self).spec_version() == old(self).spec_version(),
            final(self).spec_extension_support() == old(self).spec_extension_support(),
            final(self).entries() == old(self).entries().push(attribute.spec_raw()).push(0),
    {
        self.list_builder.add(attribute.raw(), 0);
    }

    /// Requires the given surface capabilities.
    pub fn surface_type(&mut self, surface_type: SurfaceType)
        ensures
            final(self).spec_version() == old(self).spec_version(),
            final(self).spec_extension_support() == old(self).spec_extension_support(),
            final(self).entries() == old(self).entries().push(egl::SURFACE_TYPE).push(
                surface_type.spec_bits() as i32,
            ),
    {
        self.list_builder.add(egl::SURFACE_TYPE, surface_type.bits() as i32);
    }

    /// Requires the given client APIs in the renderable-type bitmask. The
    /// extension-defined bit is silently stripped when the create-context
    /// extension is not supported, rather than erroring.
    pub fn client_api(&mut self, client_api: ConfigClientAPI)
        ensures
            final(self).spec_version() == old(self).spec_version(),
            final(self).spec_extension_support() == old(self).spec_extension_support(),
            old(self).spec_extension_support().create_context ==> final(self).entries() == old(
                self,
            ).entries().push(egl::RENDERABLE_TYPE).push(client_api.spec_bits() as i32),
            !old(self).spec_extension_support().create_context ==> final(self).entries() == old(
                self,
            ).entries().push(egl::RENDERABLE_TYPE).push(
                (ConfigClientAPI { opengl_es3_khr: false, ..client_api }).spec_bits() as i32,
            ),
    {
        let api = if !self.extension_support.create_context {
            client_api.remove_opengl_es3()
        } else {
            client_api
        };
        self.list_builder.add(egl::RENDERABLE_TYPE, api.bits() as i32);
    }

    /// Requires the given renderable-type bitmask, rejecting a value built
    /// for a version other than the display's.
    pub fn renderable_type(&mut self, renderable_type: RenderableType) -> (r: Result<
        (),
        EGLVersionError,
    >)
        ensures
            final(self).spec_version() == old(self).spec_version(),
            final(self).spec_extension_support() == old(self).spec_extension_support(),
            match spec_renderable_type_bits(renderable_type, old(self).spec_version()) {
                Some(bits) => r == Ok::<(), EGLVersionError>(()) && final(self).entries() == old(
                    self,
                ).entries().push(egl::RENDERABLE_TYPE).push(bits as i32),
                None => r == Err::<(), EGLVersionError>(EGLVersionError) && final(self).entries()
                    == old(self).entries(),
            },
    {
        match self.egl_version {
            EGLVersion::EGL_1_4 => match renderable_type {
                RenderableType::EGL14(value) => {
                    self.list_builder.add(egl::RENDERABLE_TYPE, value.bits() as i32);
                    Ok(())
                },
                _ => Err(EGLVersionError),
            },
            EGLVersion::EGL_1_5 => match renderable_type {
                RenderableType::EGL15(value) => {
                    self.list_builder.add(egl::RENDERABLE_TYPE, value.bits() as i32);
                    Ok(())
                },
                _ => Err(EGLVersionError),
            },
        }
    }

    /// Requires the given conformant bitmask, rejecting a value built for a
    /// version other than the display's.
    pub fn client_api_conformance(&mut self, client_api_conformance: ClientApiConformance) -> (r:
        Result<(), EGLVersionError>)
        ensures
            final(self).spec_version() == old(self).spec_version(),
            final(self).spec_extension_support() == old(self).spec_extension_support(),
            match spec_conformance_bits(client_api_conformance, old(self).spec_version()) {
                Some(bits) => r == Ok::<(), EGLVersionError>(()) && final(self).entries() == old(
                    self,
                ).entries().push(egl::CONFORMANT).push(bits as i32),
                None => r == Err::<(), EGLVersionError>(EGLVersionError) && final(self).entries()
                    == old(self).entries(),
            },
    {
        match self.egl_version {
            EGLVersion::EGL_1_4 => match client_api_conformance {
                ClientApiConformance::EGL14(value) => {
                    self.list_builder.add(egl::CONFORMANT, value.bits() as i32);
                    Ok(())
                },
                _ => Err(EGLVersionError),
            },
            EGLVersion::EGL_1_5 => match client_api_conformance {
                ClientApiConformance::EGL15(value) => {
                    self.list_builder.add(egl::CONFORMANT, value.bits() as i32);
                    Ok(())
                },
                _ => Err(EGLVersionError),
            },
        }
    }

    /// Matches one config by id; the native side then ignores every other
    /// filter.
    pub fn config_id(&mut self, config_id: PositiveInteger)
        ensures
            final(self).spec_version() == old(self).spec_version(),
            final(self).spec_extension_support() == old(self).spec_extension_support(),
            final(self).entries() == old(self).entries().push(egl::CONFIG_ID).push(
                config_id.spec_value() as i32,
            ),
    {
        self.list_builder.add(egl::CONFIG_ID, config_id.value());
    }

    /// Freezes the criteria into the terminated attribute list.
    pub fn build(self) -> (r: ConfigSearchOptions)
        ensures
            r.spec_version() == self.spec_version(),
            r.spec_attribute_list() == self.entries().push(egl::NONE),
    {
        ConfigSearchOptions {
            egl_version: self.egl_version,
            attribute_list: self.list_builder.build(),
        }
    }
}

/// Finished config selection options: the version they were built for and
/// the terminated attribute list for the native search call.
pub struct ConfigSearchOptions {
    egl_version: EGLVersion,
    attribute_list: AttributeList,
}

impl ConfigSearchOptions {
    pub closed spec fn spec_version(&self) -> EGLVersion {
        self.egl_version
    }

    /// The encoded criteria as they stand in the attribute list.
    pub closed spec fn spec_attribute_list(&self) -> Seq<i32> {
        self.attribute_list@
    }

    pub fn version(&self) -> (r: EGLVersion)
        ensures
            r == self.spec_version(),
    {
        self.egl_version
    }

    /// The encoded criteria, for handing to the native search call.
    pub fn attribute_list(&self) -> (r: &AttributeList)
        ensures
            r@ == self.spec_attribute_list(),
    {
        &self.attribute_list
    }
}

} // verus!
