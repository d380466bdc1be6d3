//! Typed decoding of raw context attribute values, and the create-context
//! extension's option values.

use vstd::prelude::*;

use crate::egl;
use crate::utils::{query_attrib, QueryError, QueryReply, QueryResult};

verus! {

/// The attributes a context can be asked for.
#[derive(Debug, Copy, Clone, PartialEq, Eq, Structural)]
pub enum QueryableAttribute {
    ConfigID,
    ContextClientType,
    ContextClientVersion,
    RenderBuffer,
}

impl QueryableAttribute {
    pub open spec fn spec_raw(self) -> i32 {
        match self {
            QueryableAttribute::ConfigID => egl::CONFIG_ID,
            QueryableAttribute::ContextClientType => egl::CONTEXT_CLIENT_TYPE,
            QueryableAttribute::ContextClientVersion => egl::CONTEXT_CLIENT_VERSION,
            QueryableAttribute::RenderBuffer => egl::RENDER_BUFFER,
        }
    }

    /// The native attribute name, for making the query.
    pub fn raw(self) -> (r: i32)
        ensures
            r == self.spec_raw(),
    {
        match self {
            QueryableAttribute::ConfigID => egl::CONFIG_ID,
            QueryableAttribute::ContextClientType => egl::CONTEXT_CLIENT_TYPE,
            QueryableAttribute::ContextClientVersion => egl::CONTEXT_CLIENT_VERSION,
            QueryableAttribute::RenderBuffer => egl::RENDER_BUFFER,
        }
    }
}

/// The client API a context was created for.
#[derive(Debug, Copy, Clone, PartialEq, Eq, Structural)]
pub enum ContextAPIType {
    OpenGL,
    OpenGLES,
    OpenVG,
}

impl ContextAPIType {
    pub open spec fn spec_raw(self) -> i32 {
        match self {
            ContextAPIType::OpenGL => egl::OPENGL_API,
            ContextAPIType::OpenGLES => egl::OPENGL_ES_API,
            ContextAPIType::OpenVG => egl::OPENVG_API,
        }
    }

    /// The native enum value naming this API, as the bind-api call takes it.
    pub fn raw(self) -> (r: i32)
        ensures
            r == self.spec_raw(),
    {
        match self {
            ContextAPIType::OpenGL => egl::OPENGL_API,
            ContextAPIType::OpenGLES => egl::OPENGL_ES_API,
            ContextAPIType::OpenVG => egl::OPENVG_API,
        }
    }
}

/// Decodes the context-client-type query into the closed API set.
pub fn context_api_type(reply: QueryReply) -> (r: QueryResult<ContextAPIType>)
    ensures
        !reply.ok ==> r == Err::<ContextAPIType, QueryError>(QueryError::QueryError),
        reply.ok && reply.value == egl::OPENGL_API ==> r == Ok::<ContextAPIType, QueryError>(
            ContextAPIType::OpenGL,
        ),
        reply.ok && reply.value == egl::OPENGL_ES_API ==> r == Ok::<ContextAPIType, QueryError>(
            ContextAPIType::OpenGLES,
        ),
        reply.ok && reply.value == egl::OPENVG_API ==> r == Ok::<ContextAPIType, QueryError>(
            ContextAPIType::OpenVG,
        ),
        reply.ok && reply.value != egl::OPENGL_API && reply.value != egl::OPENGL_ES_API
            && reply.value != egl::OPENVG_API ==> r == Err::<ContextAPIType, QueryError>(
            QueryError::EnumError,
        ),
{
    let value = query_attrib(reply)?;
    if value == egl::OPENGL_API {
        Ok(ContextAPIType::OpenGL)
    } else if value == egl::OPENGL_ES_API {
        Ok(ContextAPIType::OpenGLES)
    } else if value == egl::OPENVG_API {
        Ok(ContextAPIType::OpenVG)
    } else {
        Err(QueryError::EnumError)
    }
}

/// Profile of a desktop context under the create-context extension.
#[derive(Debug, Copy, Clone, PartialEq, Eq, Structural)]
pub enum OpenGLContextProfile {
    Core,
    Compability,
}

impl OpenGLContextProfile {
    pub open spec fn spec_raw(self) -> i32 {
        match self {
            OpenGLContextProfile::Core => egl::CONTEXT_OPENGL_CORE_PROFILE_BIT_KHR as i32,
            OpenGLContextProfile::Compability => egl::CONTEXT_OPENGL_COMPATIBILITY_PROFILE_BIT_KHR
                as i32,
        }
    }

    /// The profile's bit in the native profile mask.
    pub fn raw(self) -> (r: i32)
        ensures
            r == self.spec_raw(),
    {
        match self {
            OpenGLContextProfile::Core => egl::CONTEXT_OPENGL_CORE_PROFILE_BIT_KHR as i32,
            OpenGLContextProfile::Compability => egl::CONTEXT_OPENGL_COMPATIBILITY_PROFILE_BIT_KHR
                as i32,
        }
    }
}

/// Context flags under the create-context extension.
#[derive(Debug, Copy, Clone, PartialEq, Eq, Structural)]
pub struct OpenGLContextFlags {
    pub debug: bool,
    /// Only for major version 3 or later of the desktop API.
    pub forward_compatible: bool,
    pub robust_access: bool,
}

impl OpenGLContextFlags {
    pub open spec fn spec_bits(self) -> int {
        (if self.debug {
            egl::CONTEXT_OPENGL_DEBUG_BIT_KHR
        } else {
            0
        }) + (if self.forward_compatible {
            egl::CONTEXT_OPENGL_FORWARD_COMPATIBLE_BIT_KHR
        } else {
            0
        }) + (if self.robust_access {
            egl::CONTEXT_OPENGL_ROBUST_ACCESS_BIT_KHR
        } else {
            0
        })
    }

    pub fn none() -> (r: OpenGLContextFlags)
        ensures
            r == (OpenGLContextFlags {
                debug: false,
                forward_compatible: false,
                robust_access: false,
            }),
    {
        OpenGLContextFlags { debug: false, forward_compatible: false, robust_access: false }
    }

    /// The bitmask naming exactly the set flags.
    pub fn bits(&self) -> (r: u32)
        ensures
            r == self.spec_bits(),
    {
        (if self.debug {
            egl::CONTEXT_OPENGL_DEBUG_BIT_KHR
        } else {
            0
        }) + (if self.forward_compatible {
            egl::CONTEXT_OPENGL_FORWARD_COMPATIBLE_BIT_KHR
        } else {
            0
        }) + (if self.robust_access {
            egl::CONTEXT_OPENGL_ROBUST_ACCESS_BIT_KHR
        } else {
            0
        })
    }
}

/// Reset notification strategy under the create-context extension.
#[derive(Debug, Copy, Clone, PartialEq, Eq, Structural)]
pub enum ResetNotificationStrategy {
    NoResetNotification,
    LoseContextOnReset,
}

impl ResetNotificationStrategy {
    pub open spec fn spec_raw(self) -> i32 {
        match self {
            ResetNotificationStrategy::NoResetNotification => egl::NO_RESET_NOTIFICATION_KHR,
            ResetNotificationStrategy::LoseContextOnReset => egl::LOSE_CONTEXT_ON_RESET_KHR,
        }
    }

    /// The native enum value naming this strategy.
    pub fn raw(self) -> (r: i32)
        ensures
            r == self.spec_raw(),
    {
        match self {
            ResetNotificationStrategy::NoResetNotification => egl::NO_RESET_NOTIFICATION_KHR,
            ResetNotificationStrategy::LoseContextOnReset => egl::LOSE_CONTEXT_ON_RESET_KHR,
        }
    }
}

} // verus!
