//! Contexts for the embedded client API.

use vstd::prelude::*;

use crate::config::DisplayConfig;
use crate::config::client_api::ConfigOpenGLES;
use crate::context::Context;
use crate::context::attribute::ContextAPIType;
use crate::egl;
use crate::error::{spec_classify_error, EGLError};
use crate::utils::{AttributeList, AttributeListBuilder, NativeCallReply, UnsignedInteger};

verus! {

/// The context client versions the core version knows.
#[derive(Debug, Copy, Clone, PartialEq, Eq, Structural)]
pub enum EGL14OpenGLESVersion {
    Version1,
    Version2,
}

impl EGL14OpenGLESVersion {
    pub open spec fn spec_raw(self) -> i32 {
        match self {
            EGL14OpenGLESVersion::Version1 => 1,
            EGL14OpenGLESVersion::Version2 => 2,
        }
    }

    /// The version number as the attribute list carries it.
    pub fn raw(self) -> (r: i32)
        ensures
            r == self.spec_raw(),
    {
        match self {
            EGL14OpenGLESVersion::Version1 => 1,
            EGL14OpenGLESVersion::Version2 => 2,
        }
    }
}

/// The major versions the create-context extension accepts.
#[derive(Debug, Copy, Clone, PartialEq, Eq, Structural)]
pub enum OpenGLESMajorVersionEXT {
    Version1,
    Version2,
    Version3,
}

impl OpenGLESMajorVersionEXT {
    pub open spec fn spec_raw(self) -> i32 {
        match self {
            OpenGLESMajorVersionEXT::Version1 => 1,
            OpenGLESMajorVersionEXT::Version2 => 2,
            OpenGLESMajorVersionEXT::Version3 => 3,
        }
    }

    /// The version number as the attribute list carries it.
    pub fn raw(self) -> (r: i32)
        ensures
            r == self.spec_raw(),
    {
        match self {
            OpenGLESMajorVersionEXT::Version1 => 1,
            OpenGLESMajorVersionEXT::Version2 => 2,
            OpenGLESMajorVersionEXT::Version3 => 3,
        }
    }
}

/// A created context for the embedded client API.
#[derive(Debug)]
pub struct OpenGLESContext {
    config_opengl: ConfigOpenGLES,
    raw_context: usize,
}

impl OpenGLESContext {
    pub closed spec fn spec_config(&self) -> ConfigOpenGLES {
        self.config_opengl
    }

    pub fn config(&self) -> (r: &ConfigOpenGLES)
        ensures
            r == &self.spec_config(),
    {
        &self.config_opengl
    }
}

impl Context for OpenGLESContext {
    closed spec fn spec_raw_display(&self) -> usize {
        self.spec_config().spec_display_config().raw_display
    }

    closed spec fn spec_raw_context(&self) -> usize {
        self.raw_context
    }

    fn raw_display(&self) -> (r: usize)
        ensures
            r == self.spec_raw_display(),
    {
        self.config_opengl.display_config().raw_display()
    }

    fn raw_context(&self) -> (r: usize)
        ensures
            r == self.spec_raw_context(),
    {
        self.raw_context
    }
}

/// Accumulates creation attributes for a context of the embedded API.
pub struct OpenGLESContextBuilder {
    config_opengl: ConfigOpenGLES,
    attributes: AttributeListBuilder,
}

impl OpenGLESContextBuilder {
    pub closed spec fn spec_config(&self) -> ConfigOpenGLES {
        self.config_opengl
    }

    /// The creation attribute pairs set so far, flattened in order.
    pub closed spec fn entries(&self) -> Seq<i32> {
        self.attributes.entries()
    }

    pub(crate) fn new(config_opengl: ConfigOpenGLES) -> (r: OpenGLESContextBuilder)
        ensures
            r.spec_config() == config_opengl,
            r.entries() == Seq::<i32>::empty(),
    {
        OpenGLESContextBuilder { config_opengl, attributes: AttributeListBuilder::new() }
    }

    /// Default value: 1.
    pub(crate) fn set_context_client_version(&mut self, version: EGL14OpenGLESVersion)
        ensures
            final(self).spec_config() == old(self).spec_config(),
            final(self).entries() == old(self).entries().push(egl::CONTEXT_CLIENT_VERSION).push(
                version.spec_raw(),
            ),
    {
        self.attributes.add(egl::CONTEXT_CLIENT_VERSION, version.raw());
    }

    /// The client API the embedding program must bind, with success, before
    /// the create-context call.
    pub fn api_type(&self) -> (r: ContextAPIType)
        ensures
            r == ContextAPIType::OpenGLES,
    {
        ContextAPIType::OpenGLES
    }

    /// Decides on the raw reply of the native bind-api call. Only a
    /// successful bind yields the bound builder that can take the
    /// create-context reply: a failed bind ends the attempt with the
    /// classified error, before any create-context call.
    pub fn on_bind_api(self, reply: NativeCallReply) -> (r: Result<
        BoundOpenGLESContextBuilder,
        Option<EGLError>,
    >)
        ensures
            reply.ok ==> (r matches Ok(b) && b.spec_config() == self.spec_config()
                && b.spec_attribute_list() == self.entries().push(egl::NONE)),
            !reply.ok ==> r == Err::<BoundOpenGLESContextBuilder, Option<EGLError>>(
                spec_classify_error(reply.raw_error),
            ),
    {
        if reply.ok {
            Ok(
                BoundOpenGLESContextBuilder {
                    config_opengl: self.config_opengl,
                    attribute_list: self.attributes.build(),
                },
            )
        } else {
            Err(EGLError::check_errors(reply.raw_error))
        }
    }
}

/// A builder whose client API is bound: ready for the create-context call.
pub struct BoundOpenGLESContextBuilder {
    config_opengl: ConfigOpenGLES,
    attribute_list: AttributeList,
}

impl BoundOpenGLESContextBuilder {
    pub closed spec fn spec_config(&self) -> ConfigOpenGLES {
        self.config_opengl
    }

    pub closed spec fn spec_attribute_list(&self) -> Seq<i32> {
        self.attribute_list@
    }

    pub fn display_config(&self) -> (r: &DisplayConfig)
        ensures
            r == &self.spec_config().spec_display_config(),
    {
        self.config_opengl.display_config()
    }

    /// The terminated attribute list for the create-context call.
    pub fn attribute_list(&self) -> (r: &AttributeList)
        ensures
            r@ == self.spec_attribute_list(),
    {
        &self.attribute_list
    }

    /// Decides on the raw context the native create-context call returned:
    /// the null handle means failure, classified from the error query, and
    /// the handle is not retained; anything else is the created context.
    pub fn on_create_context(self, raw_context: usize, raw_error: i32) -> (r: Result<
        OpenGLESContext,
        Option<EGLError>,
    >)
        ensures
            raw_context == egl::NO_HANDLE ==> r == Err::<OpenGLESContext, Option<EGLError>>(
                spec_classify_error(raw_error),
            ),
            raw_context != egl::NO_HANDLE ==> (r matches Ok(c) && c.spec_config()
                == self.spec_config() && c.spec_raw_context() == raw_context),
    {
        if raw_context == egl::NO_HANDLE {
            Err(EGLError::check_errors(raw_error))
        } else {
            Ok(OpenGLESContext { config_opengl: self.config_opengl, raw_context })
        }
    }
}

/// Builder carrying the create-context extension's attributes.
pub struct OpenGLESContextBuilderEXT {
    builder: OpenGLESContextBuilder,
}

impl OpenGLESContextBuilderEXT {
    pub closed spec fn spec_config(&self) -> ConfigOpenGLES {
        self.builder.spec_config()
    }

    /// The creation attribute pairs set so far, flattened in order.
    pub closed spec fn entries(&self) -> Seq<i32> {
        self.builder.entries()
    }

    pub(crate) fn new(config_opengl: ConfigOpenGLES) -> (r: OpenGLESContextBuilderEXT)
        ensures
            r.spec_config() == config_opengl,
            r.entries() == Seq::<i32>::empty(),
    {
        OpenGLESContextBuilderEXT { builder: OpenGLESContextBuilder::new(config_opengl) }
    }

    /// Default value: `OpenGLESMajorVersionEXT::Version1`.
    pub(crate) fn set_major_version(&mut self, major: OpenGLESMajorVersionEXT)
        ensures
            final(self).spec_config() == old(self).spec_config(),
            final(self).entries() == old(self).entries().push(egl::CONTEXT_MAJOR_VERSION_KHR).push(
                major.spec_raw(),
            ),
    {
        self.builder.attributes.add(egl::CONTEXT_MAJOR_VERSION_KHR, major.raw());
    }

    /// Default value: 0.
    pub fn set_minor_version(&mut self, minor: UnsignedInteger)
        ensures
            final(self).spec_config() == old(self).spec_config(),
            final(self).entries() == old(self).entries().push(egl::CONTEXT_MINOR_VERSION_KHR).push(
                minor.spec_value() as i32,
            ),
    {
        self.builder.attributes.add(egl::CONTEXT_MINOR_VERSION_KHR, minor.value());
    }

    /// Default value: false.
    pub fn enable_debug_context(&mut self, debug: bool)
        ensures
            final(self).spec_config() == old(self).spec_config(),
            debug ==> final(self).entries() == old(self).entries().push(egl::CONTEXT_FLAGS_KHR)
                .push(egl::CONTEXT_OPENGL_DEBUG_BIT_KHR as i32),
            !debug ==> final(self).entries() == old(self).entries().push(egl::CONTEXT_FLAGS_KHR)
                .push(0),
    {
        let value: i32 = if debug {
            egl::CONTEXT_OPENGL_DEBUG_BIT_KHR as i32
        } else {
            0
        };
        self.builder.attributes.add(egl::CONTEXT_FLAGS_KHR, value);
    }

    /// The client API the embedding program must bind, with success, before
    /// the create-context call.
    pub fn api_type(&self) -> (r: ContextAPIType)
        ensures
            r == ContextAPIType::OpenGLES,
    {
        ContextAPIType::OpenGLES
    }

    /// Decides on the raw reply of the native bind-api call, exactly as the
    /// core builder does.
    pub fn on_bind_api(self, reply: NativeCallReply) -> (r: Result<
        BoundOpenGLESContextBuilder,
        Option<EGLError>,
    >)
        ensures
            reply.ok ==> (r matches Ok(b) && b.spec_config() == self.spec_config()
                && b.spec_attribute_list() == self.entries().push(egl::NONE)),
            !reply.ok ==> r == Err::<BoundOpenGLESContextBuilder, Option<EGLError>>(
                spec_classify_error(reply.raw_error),
            ),
    {
        self.builder.on_bind_api(reply)
    }
}

} // verus!
