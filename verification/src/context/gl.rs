//! Contexts for the desktop client API.

use vstd::prelude::*;

use crate::config::DisplayConfig;
use crate::config::client_api::ConfigOpenGL;
use crate::context::Context;
use crate::context::attribute::{
    ContextAPIType, OpenGLContextFlags, OpenGLContextProfile, ResetNotificationStrategy,
};
use crate::egl;
use crate::error::{spec_classify_error, EGLError};
use crate::utils::{
    AttributeList, AttributeListBuilder, NativeCallReply, PositiveInteger, UnsignedInteger,
};

verus! {

/// A created context for the desktop client API.
#[derive(Debug)]
pub struct OpenGLContext {
    config_opengl: ConfigOpenGL,
    raw_context: usize,
}

impl OpenGLContext {
    pub closed spec fn spec_config(&self) -> ConfigOpenGL {
        self.config_opengl
    }

    pub fn config(&self) -> (r: &ConfigOpenGL)
        ensures
            r == &self.spec_config(),
    {
        &self.config_opengl
    }
}

impl Context for OpenGLContext {
    closed spec fn spec_raw_display(&self) -> usize {
        self.spec_config().spec_display_config().raw_display
    }

    closed spec fn spec_raw_context(&self) -> usize {
        self.raw_context
    }

    fn raw_display(&self) -> (r: usize)
        ensures
            r == self.spec_raw_display(),
    {
        self.config_opengl.display_config().raw_display()
    }

    fn raw_context(&self) -> (r: usize)
        ensures
            r == self.spec_raw_context(),
    {
        self.raw_context
    }
}

/// Accumulates creation attributes for a context of the desktop API.
pub struct OpenGLContextBuilder {
    config_opengl: ConfigOpenGL,
    attributes: AttributeListBuilder,
}

impl OpenGLContextBuilder {
    pub closed spec fn spec_config(&self) -> ConfigOpenGL {
        self.config_opengl
    }

    /// The creation attribute pairs set so far, flattened in order.
    pub closed spec fn entries(&self) -> Seq<i32> {
        self.attributes.entries()
    }

    pub(crate) fn new(config_opengl: ConfigOpenGL) -> (r: OpenGLContextBuilder)
        ensures
            r.spec_config() == config_opengl,
            r.entries() == Seq::<i32>::empty(),
    {
        OpenGLContextBuilder { config_opengl, attributes: AttributeListBuilder::new() }
    }

    /// The client API the embedding program must bind, with success, before
    /// the create-context call.
    pub fn api_type(&self) -> (r: ContextAPIType)
        ensures
            r == ContextAPIType::OpenGL,
    {
        ContextAPIType::OpenGL
    }

    /// Decides on the raw reply of the native bind-api call. Only a
    /// successful bind yields the bound builder that can take the
    /// create-context reply: a failed bind ends the attempt with the
    /// classified error, before any create-context call.
    pub fn on_bind_api(self, reply: NativeCallReply) -> (r: Result<
        BoundOpenGLContextBuilder,
        Option<EGLError>,
    >)
        ensures
            reply.ok ==> (r matches Ok(b) && b.spec_config() == self.spec_config()
                && b.spec_attribute_list() == self.entries().push(egl::NONE)),
            !reply.ok ==> r == Err::<BoundOpenGLContextBuilder, Option<EGLError>>(
                spec_classify_error(reply.raw_error),
            ),
    {
        if reply.ok {
            Ok(
                BoundOpenGLContextBuilder {
                    config_opengl: self.config_opengl,
                    attribute_list: self.attributes.build(),
                },
            )
        } else {
            Err(EGLError::check_errors(reply.raw_error))
        }
    }
}

/// A builder whose client API is bound: ready for the create-context call.
pub struct BoundOpenGLContextBuilder {
    config_opengl: ConfigOpenGL,
    attribute_list: AttributeList,
}

impl BoundOpenGLContextBuilder {
    pub closed spec fn spec_config(&self) -> ConfigOpenGL {
        self.config_opengl
    }

    pub closed spec fn spec_attribute_list(&self) -> Seq<i32> {
        self.attribute_list@
    }

    pub fn display_config(&self) -> (r: &DisplayConfig)
        ensures
            r == &self.spec_config().spec_display_config(),
    {
        self.config_opengl.display_config()
    }

    /// The terminated attribute list for the create-context call.
    pub fn attribute_list(&self) -> (r: &AttributeList)
        ensures
            r@ == self.spec_attribute_list(),
    {
        &self.attribute_list
    }

    /// Decides on the raw context the native create-context call returned:
    /// the null handle means failure, classified from the error query, and
    /// the handle is not retained; anything else is the created context.
    pub fn on_create_context(self, raw_context: usize, raw_error: i32) -> (r: Result<
        OpenGLContext,
        Option<EGLError>,
    >)
        ensures
            raw_context == egl::NO_HANDLE ==> r == Err::<OpenGLContext, Option<EGLError>>(
                spec_classify_error(raw_error),
            ),
            raw_context != egl::NO_HANDLE ==> (r matches Ok(c) && c.spec_config()
                == self.spec_config() && c.spec_raw_context() == raw_context),
    {
        if raw_context == egl::NO_HANDLE {
            Err(EGLError::check_errors(raw_error))
        } else {
            Ok(OpenGLContext { config_opengl: self.config_opengl, raw_context })
        }
    }
}

/// Builder carrying the create-context extension's attributes for the
/// desktop API.
pub struct OpenGLContextBuilderEXT {
    builder: OpenGLContextBuilder,
}

impl OpenGLContextBuilderEXT {
    pub closed spec fn spec_config(&self) -> ConfigOpenGL {
        self.builder.spec_config()
    }

    /// The creation attribute pairs set so far, flattened in order.
    pub closed spec fn entries(&self) -> Seq<i32> {
        self.builder.entries()
    }

    pub(crate) fn new(config_opengl: ConfigOpenGL) -> (r: OpenGLContextBuilderEXT)
        ensures
            r.spec_config() == config_opengl,
            r.entries() == Seq::<i32>::empty(),
    {
        OpenGLContextBuilderEXT { builder: OpenGLContextBuilder::new(config_opengl) }
    }

    /// Default value: 1.
    pub fn set_major_version(&mut self, major: PositiveInteger)
        ensures
            final(self).spec_config() == old(self).spec_config(),
            final(self).entries() == old(self).entries().push(egl::CONTEXT_MAJOR_VERSION_KHR).push(
                major.spec_value() as i32,
            ),
    {
        self.builder.attributes.add(egl::CONTEXT_MAJOR_VERSION_KHR, major.value());
    }

    /// Default value: 0.
    pub fn set_minor_version(&mut self, minor: UnsignedInteger)
        ensures
            final(self).spec_config() == old(self).spec_config(),
            final(self).entries() == old(self).entries().push(egl::CONTEXT_MINOR_VERSION_KHR).push(
                minor.spec_value() as i32,
            ),
    {
        self.builder.attributes.add(egl::CONTEXT_MINOR_VERSION_KHR, minor.value());
    }

    /// Default value: `OpenGLContextProfile::Core`.
    pub fn set_profile(&mut self, value: OpenGLContextProfile)
        ensures
            final(self).spec_config() == old(self).spec_config(),
            final(self).entries() == old(self).entries().push(
                egl::CONTEXT_OPENGL_PROFILE_MASK_KHR,
            ).push(value.spec_raw()),
    {
        self.builder.attributes.add(egl::CONTEXT_OPENGL_PROFILE_MASK_KHR, value.raw());
    }

    /// Default value: no flags. The forward-compatible flag is supported only
    /// with major version 3 or later.
    pub fn set_context_flags(&mut self, value: OpenGLContextFlags)
        ensures
            final(self).spec_config() == old(self).spec_config(),
            final(self).entries() == old(self).entries().push(egl::CONTEXT_FLAGS_KHR).push(
                value.spec_bits() as i32,
            ),
    {
        self.builder.attributes.add(egl::CONTEXT_FLAGS_KHR, value.bits() as i32);
    }

    /// Default value: `ResetNotificationStrategy::NoResetNotification`.
    pub fn set_reset_notification_strategy(&mut self, strategy: ResetNotificationStrategy)
        ensures
            final(self).spec_config() == old(self).spec_config(),
            final(self).entries() == old(self).entries().push(
                egl::CONTEXT_OPENGL_RESET_NOTIFICATION_STRATEGY_KHR,
            ).push(strategy.spec_raw()),
    {
        self.builder.attributes.add(
            egl::CONTEXT_OPENGL_RESET_NOTIFICATION_STRATEGY_KHR,
            strategy.raw(),
        );
    }

    /// The client API the embedding program must bind, with success, before
    /// the create-context call.
    pub fn api_type(&self) -> (r: ContextAPIType)
        ensures
            r == ContextAPIType::OpenGL,
    {
        ContextAPIType::OpenGL
    }

    /// Decides on the raw reply of the native bind-api call, exactly as the
    /// core builder does.
    pub fn on_bind_api(self, reply: NativeCallReply) -> (r: Result<
        BoundOpenGLContextBuilder,
        Option<EGLError>,
    >)
        ensures
            reply.ok ==> (r matches Ok(b) && b.spec_config() == self.spec_config()
                && b.spec_attribute_list() == self.entries().push(egl::NONE)),
            !reply.ok ==> r == Err::<BoundOpenGLContextBuilder, Option<EGLError>>(
                spec_classify_error(reply.raw_error),
            ),
    {
        self.builder.on_bind_api(reply)
    }
}

} // verus!
