//! Window-backed surfaces.

use vstd::prelude::*;

use crate::config::client_api::ConfigWindow;
use crate::egl;
use crate::surface::Surface;
use crate::surface::attribute::RenderBuffer;
use crate::utils::{AttributeList, AttributeListBuilder};

verus! {

/// A window-backed surface. It carries the caller-supplied token standing
/// for native window ownership; this layer never inspects that token — it
/// must only outlive the surface.
#[derive(Debug)]
pub struct WindowSurface<T> {
    optional_native_window_handle: T,
    window_config: ConfigWindow,
    raw_surface: usize,
}

impl<T> WindowSurface<T> {
    pub closed spec fn spec_window_config(&self) -> ConfigWindow {
        self.window_config
    }

    pub closed spec fn spec_native_window_handle(&self) -> &T {
        &self.optional_native_window_handle
    }

    pub(crate) fn new(
        optional_native_window_handle: T,
        window_config: ConfigWindow,
        raw_surface: usize,
    ) -> (r: WindowSurface<T>)
        ensures
            r.spec_window_config() == window_config,
            r.spec_raw_surface() == raw_surface,
            r.spec_native_window_handle() == &optional_native_window_handle,
    {
        WindowSurface { optional_native_window_handle, window_config, raw_surface }
    }

    pub fn window_config(&self) -> (r: &ConfigWindow)
        ensures
            r == &self.spec_window_config(),
    {
        &self.window_config
    }

    pub fn native_window_handle(&self) -> (r: &T)
        ensures
            r == self.spec_native_window_handle(),
    {
        &self.optional_native_window_handle
    }
}

impl<T> Surface for WindowSurface<T> {
    closed spec fn spec_raw_surface(&self) -> usize {
        self.raw_surface
    }

    closed spec fn spec_raw_display(&self) -> usize {
        self.spec_window_config().spec_display_config().raw_display
    }

    fn raw_surface(&self) -> (r: usize)
        ensures
            r == self.spec_raw_surface(),
    {
        self.raw_surface
    }

    fn raw_display(&self) -> (r: usize)
        ensures
            r == self.spec_raw_display(),
    {
        self.window_config.display_config().raw_display()
    }
}

/// Accumulates creation attributes for a window surface.
pub struct WindowSurfaceAttributeListBuilder {
    attributes: AttributeListBuilder,
}

impl WindowSurfaceAttributeListBuilder {
    /// The (attribute, value) pairs set so far, flattened in order.
    pub closed spec fn entries(&self) -> Seq<i32> {
        self.attributes.entries()
    }

    pub fn new() -> (r: WindowSurfaceAttributeListBuilder)
        ensures
            r.entries() == Seq::<i32>::empty(),
    {
        WindowSurfaceAttributeListBuilder { attributes: AttributeListBuilder::new() }
    }

    /// Sets the preferred rendering buffer.
    ///
    /// Default value: `RenderBuffer::BackBuffer`.
    pub fn render_buffer(&mut self, render_buffer: RenderBuffer)
        ensures
            final(self).entries() == old(self).entries().push(egl::RENDER_BUFFER).push(
                render_buffer.spec_raw(),
            ),
    {
        self.attributes.add(egl::RENDER_BUFFER, render_buffer.raw());
    }

    pub fn build(self) -> (r: WindowSurfaceAttributeList)
        ensures
            r.view() == self.entries().push(egl::NONE),
    {
        WindowSurfaceAttributeList(self.attributes.build())
    }
}

/// A finished window-surface attribute list.
pub struct WindowSurfaceAttributeList(AttributeList);

impl WindowSurfaceAttributeList {
    pub closed spec fn view(&self) -> Seq<i32> {
        self.0@
    }

    /// The encoded list, for handing to the native call.
    pub fn entries(&self) -> (r: &Vec<i32>)
        ensures
            r@ == self.view(),
    {
        self.0.entries()
    }
}

impl Default for WindowSurfaceAttributeList {
    /// A list holding only the terminating sentinel.
    fn default() -> (r: Self)
        ensures
            r.view() == seq![egl::NONE],
    {
        WindowSurfaceAttributeList(AttributeList::empty())
    }
}

} // verus!
