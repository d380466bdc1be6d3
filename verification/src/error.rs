//! The native error-code taxonomy and its classification.

use vstd::prelude::*;

use crate::egl;

verus! {

/// The closed set of native error codes, plus a catch-all for values outside
/// the set.
#[derive(Debug, Copy, Clone, PartialEq, Eq, Structural)]
pub enum EGLError {
    NotInitialized,
    BadAccess,
    BadAlloc,
    BadAttribute,
    BadContext,
    BadConfig,
    BadCurrentSurface,
    BadDisplay,
    BadSurface,
    BadMatch,
    BadParameter,
    BadNativePixmap,
    BadNativeWindow,
    ContextLost,
    UnknownError,
}

/// What classification a raw error-query value receives: the success sentinel
/// is no error, each known code is its variant, and everything else is the
/// unknown error rather than a panic.
pub open spec fn spec_classify_error(raw: i32) -> Option<EGLError> {
    if raw == egl::SUCCESS {
        None
    } else if raw == egl::CONTEXT_LOST {
        Some(EGLError::ContextLost)
    } else if raw == egl::NOT_INITIALIZED {
        Some(EGLError::NotInitialized)
    } else if raw == egl::BAD_ACCESS {
        Some(EGLError::BadAccess)
    } else if raw == egl::BAD_ALLOC {
        Some(EGLError::BadAlloc)
    } else if raw == egl::BAD_ATTRIBUTE {
        Some(EGLError::BadAttribute)
    } else if raw == egl::BAD_CONTEXT {
        Some(EGLError::BadContext)
    } else if raw == egl::BAD_CONFIG {
        Some(EGLError::BadConfig)
    } else if raw == egl::BAD_CURRENT_SURFACE {
        Some(EGLError::BadCurrentSurface)
    } else if raw == egl::BAD_DISPLAY {
        Some(EGLError::BadDisplay)
    } else if raw == egl::BAD_SURFACE {
        Some(EGLError::BadSurface)
    } else if raw == egl::BAD_MATCH {
        Some(EGLError::BadMatch)
    } else if raw == egl::BAD_PARAMETER {
        Some(EGLError::BadParameter)
    } else if raw == egl::BAD_NATIVE_PIXMAP {
        Some(EGLError::BadNativePixmap)
    } else if raw == egl::BAD_NATIVE_WINDOW {
        Some(EGLError::BadNativeWindow)
    } else {
        Some(EGLError::UnknownError)
    }
}

impl EGLError {
    /// Classifies the value the native error query returned after a fallible
    /// native call. Returns `Some(error)` if there is an error.
    pub fn check_errors(raw: i32) -> (r: Option<EGLError>)
        ensures
            r == spec_classify_error(raw),
    {
        if raw < 0 {
            return Some(EGLError::UnknownError);
        }
        if raw == egl::SUCCESS {
            None
        } else if raw == egl::CONTEXT_LOST {
            Some(EGLError::ContextLost)
        } else if raw == egl::NOT_INITIALIZED {
            Some(EGLError::NotInitialized)
        } else if raw == egl::BAD_ACCESS {
            Some(EGLError::BadAccess)
        } else if raw == egl::BAD_ALLOC {
            Some(EGLError::BadAlloc)
        } else if raw == egl::BAD_ATTRIBUTE {
            Some(EGLError::BadAttribute)
        } else if raw == egl::BAD_CONTEXT {
            Some(EGLError::BadContext)
        } else if raw == egl::BAD_CONFIG {
            Some(EGLError::BadConfig)
        } else if raw == egl::BAD_CURRENT_SURFACE {
            Some(EGLError::BadCurrentSurface)
        } else if raw == egl::BAD_DISPLAY {
            Some(EGLError::BadDisplay)
        } else if raw == egl::BAD_SURFACE {
            Some(EGLError::BadSurface)
        } else if raw == egl::BAD_MATCH {
            Some(EGLError::BadMatch)
        } else if raw == egl::BAD_PARAMETER {
            Some(EGLError::BadParameter)
        } else if raw == egl::BAD_NATIVE_PIXMAP {
            Some(EGLError::BadNativePixmap)
        } else if raw == egl::BAD_NATIVE_WINDOW {
            Some(EGLError::BadNativeWindow)
        } else {
            Some(EGLError::UnknownError)
        }
    }
}

} // verus!
