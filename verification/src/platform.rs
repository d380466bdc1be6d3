//! Platform variants through which a native display connection is obtained.
//!
//! The native calls themselves (get-display, create-window-surface) live with
//! the embedding program; the functions here take each call's raw reply and
//! make every decision the protocol requires of it.

use vstd::prelude::*;

use crate::EGLHandle;
use crate::config::client_api::ConfigWindow;
use crate::display::{DisplayCreationError, DisplayHandle};
use crate::egl;
use crate::error::{spec_classify_error, EGLError};
use crate::surface::Surface;
use crate::surface::window::WindowSurface;
use crate::utils::{AttributeList, AttributeListBuilder};

verus! {

/// A platform carries the shared native function-table handle.
pub trait Platform: Sized {
    fn egl_handle(&self) -> &EGLHandle;
}

/// The implementation-default platform: displays come from the core
/// get-display entry point.
#[derive(Debug)]
pub struct DefaultPlatform<T> {
    pub optional_native_display_handle: T,
    pub egl_handle: EGLHandle,
}

impl<T> DefaultPlatform<T> {
    /// Decides on the raw reply of the native get-display call: the null
    /// handle means no matching display; anything else is the obtained
    /// display handle, whose teardown the returned owner tracks.
    pub fn get_display(
        egl_handle: EGLHandle,
        raw_display_reply: usize,
        optional_native_display_handle: T,
    ) -> (r: Result<DisplayHandle<DefaultPlatform<T>>, DisplayCreationError>)
        ensures
            raw_display_reply == egl::NO_HANDLE ==> (r matches Err(e)
                && e == DisplayCreationError::NoMatchingDisplay),
            raw_display_reply != egl::NO_HANDLE ==> (r matches Ok(h)
                && h.raw_display == raw_display_reply
                && h.platform.egl_handle == egl_handle),
    {
        if raw_display_reply == egl::NO_HANDLE {
            return Err(DisplayCreationError::NoMatchingDisplay);
        }
        let platform = DefaultPlatform { optional_native_display_handle, egl_handle };
        Ok(DisplayHandle::from_raw(raw_display_reply, platform))
    }

    /// Decides on the raw reply of the native create-window-surface call:
    /// the null handle means failure, classified from the error query;
    /// anything else is the created surface, carrying the caller's window
    /// ownership token.
    pub fn get_platform_window_surface<W>(
        &self,
        optional_native_window_handle: W,
        config_window: ConfigWindow,
        raw_surface_reply: usize,
        raw_error: i32,
    ) -> (r: Result<WindowSurface<W>, WindowCreationError>)
        ensures
            raw_surface_reply == egl::NO_HANDLE ==> (r matches Err(e) && e
                == WindowCreationError::EGLError(spec_classify_error(raw_error))),
            raw_surface_reply != egl::NO_HANDLE ==> (r matches Ok(s) && s.spec_window_config()
                == config_window && s.spec_raw_surface() == raw_surface_reply),
    {
        if raw_surface_reply == egl::NO_HANDLE {
            return Err(WindowCreationError::EGLError(EGLError::check_errors(raw_error)));
        }
        Ok(WindowSurface::new(optional_native_window_handle, config_window, raw_surface_reply))
    }

    pub fn optional_native_display(&self) -> (r: &T)
        ensures
            r == &self.optional_native_display_handle,
    {
        &self.optional_native_display_handle
    }

    pub fn optional_native_display_mut(&mut self) -> (r: &mut T)
        ensures
            *r == old(self).optional_native_display_handle,
            *final(self) == (DefaultPlatform {
                optional_native_display_handle: *final(r),
                egl_handle: old(self).egl_handle,
            }),
    {
        &mut self.optional_native_display_handle
    }
}

impl<T> Platform for DefaultPlatform<T> {
    fn egl_handle(&self) -> &EGLHandle {
        &self.egl_handle
    }
}

/// Which platform-display extension a display is asked from.
#[derive(Debug, Copy, Clone, PartialEq, Eq, Structural)]
pub enum EXTPlatformType {
    X11,
    Wayland,
}

impl EXTPlatformType {
    pub open spec fn spec_raw(self) -> u32 {
        match self {
            EXTPlatformType::X11 => egl::PLATFORM_X11_EXT,
            EXTPlatformType::Wayland => egl::PLATFORM_WAYLAND_EXT,
        }
    }

    /// The native enum value naming this platform.
    pub fn raw(self) -> (r: u32)
        ensures
            r == self.spec_raw(),
    {
        match self {
            EXTPlatformType::X11 => egl::PLATFORM_X11_EXT,
            EXTPlatformType::Wayland => egl::PLATFORM_WAYLAND_EXT,
        }
    }
}

/// Platform obtained through the platform-base extension.
#[derive(Debug)]
pub struct EXTPlatform<T> {
    pub optional_native_display_handle: T,
    pub egl_handle: EGLHandle,
}

impl<T> EXTPlatform<T> {
    /// Decides on the raw reply of the extension get-platform-display call,
    /// exactly as `DefaultPlatform::get_display` does for the core call.
    pub fn get_display(
        raw_display_reply: usize,
        optional_native_display_handle: T,
        egl_handle: EGLHandle,
    ) -> (r: Result<DisplayHandle<EXTPlatform<T>>, DisplayCreationError>)
        ensures
            raw_display_reply == egl::NO_HANDLE ==> (r matches Err(e)
                && e == DisplayCreationError::NoMatchingDisplay),
            raw_display_reply != egl::NO_HANDLE ==> (r matches Ok(h)
                && h.raw_display == raw_display_reply
                && h.platform.egl_handle == egl_handle),
    {
        if raw_display_reply == egl::NO_HANDLE {
            return Err(DisplayCreationError::NoMatchingDisplay);
        }
        let platform = EXTPlatform { optional_native_display_handle, egl_handle };
        Ok(DisplayHandle::from_raw(raw_display_reply, platform))
    }

    /// Decides on the raw reply of the native create-window-surface call:
    /// the null handle means failure, classified from the error query;
    /// anything else is the created surface, carrying the caller's window
    /// ownership token.
    pub fn get_platform_window_surface<W>(
        &self,
        optional_native_window_handle: W,
        config_window: ConfigWindow,
        raw_surface_reply: usize,
        raw_error: i32,
    ) -> (r: Result<WindowSurface<W>, WindowCreationError>)
        ensures
            raw_surface_reply == egl::NO_HANDLE ==> (r matches Err(e) && e
                == WindowCreationError::EGLError(spec_classify_error(raw_error))),
            raw_surface_reply != egl::NO_HANDLE ==> (r matches Ok(s) && s.spec_window_config()
                == config_window && s.spec_raw_surface() == raw_surface_reply),
    {
        if raw_surface_reply == egl::NO_HANDLE {
            return Err(WindowCreationError::EGLError(EGLError::check_errors(raw_error)));
        }
        Ok(WindowSurface::new(optional_native_window_handle, config_window, raw_surface_reply))
    }

    pub fn optional_native_display(&self) -> (r: &T)
        ensures
            r == &self.optional_native_display_handle,
    {
        &self.optional_native_display_handle
    }

    pub fn optional_native_display_mut(&mut self) -> (r: &mut T)
        ensures
            *r == old(self).optional_native_display_handle,
            *final(self) == (EXTPlatform {
                optional_native_display_handle: *final(r),
                egl_handle: old(self).egl_handle,
            }),
    {
        &mut self.optional_native_display_handle
    }
}

impl<T> Platform for EXTPlatform<T> {
    fn egl_handle(&self) -> &EGLHandle {
        &self.egl_handle
    }
}

/// Attribute list for the extension get-platform-display call.
pub struct EXTPlatformAttributeList(pub AttributeList);

impl EXTPlatformAttributeList {
    pub open spec fn view(&self) -> Seq<i32> {
        self.0@
    }

    /// The encoded list, for handing to the native call.
    pub fn entries(&self) -> (r: &Vec<i32>)
        ensures
            r@ == self.view(),
    {
        self.0.entries()
    }
}

impl Default for EXTPlatformAttributeList {
    /// A list holding only the terminating sentinel.
    fn default() -> (r: Self)
        ensures
            r.view() == seq![egl::NONE],
    {
        EXTPlatformAttributeList(AttributeList::empty())
    }
}

pub struct EXTPlatformAttributeListBuilder(pub AttributeListBuilder);

impl EXTPlatformAttributeListBuilder {
    pub fn new() -> (r: Self)
        ensures
            r.0.entries() == Seq::<i32>::empty(),
    {
        EXTPlatformAttributeListBuilder(AttributeListBuilder::new())
    }

    pub fn build(self) -> (r: EXTPlatformAttributeList)
        ensures
            r.view() == self.0.entries().push(egl::NONE),
    {
        EXTPlatformAttributeList(self.0.build())
    }
}

/// Why a window surface could not be created.
#[derive(Debug)]
pub enum WindowCreationError {
    NativeWindowNotFound,
    EGLError(Option<EGLError>),
}

} // verus!
