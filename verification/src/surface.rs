//! Drawable surfaces: window-, pixmap- and off-screen-buffer-backed.

pub mod attribute;
pub mod pbuffer;
pub mod pixmap;
pub mod window;

use vstd::prelude::*;

verus! {

/// A drawable target holding a native surface handle.
pub trait Surface: Sized {
    spec fn spec_raw_surface(&self) -> usize;

    spec fn spec_raw_display(&self) -> usize;

    fn raw_surface(&self) -> (r: usize)
        ensures
            r == self.spec_raw_surface(),
    ;

    fn raw_display(&self) -> (r: usize)
        ensures
            r == self.spec_raw_display(),
    ;
}

/// A surface whose native side must now be destroyed: the holder owes the
/// native destroy-surface call, exactly once. A destroy failure is logged by
/// the embedding program, never escalated.
#[derive(Debug)]
pub struct SurfaceDestroy<S: Surface> {
    pub surface: S,
}

impl<S: Surface> SurfaceDestroy<S> {
    pub fn raw_surface(&self) -> (r: usize)
        ensures
            r == self.surface.spec_raw_surface(),
    {
        self.surface.raw_surface()
    }

    pub fn raw_display(&self) -> (r: usize)
        ensures
            r == self.surface.spec_raw_display(),
    {
        self.surface.raw_display()
    }
}

} // verus!
