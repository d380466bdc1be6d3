//! Rendering contexts and the current-context state machine.
//!
//! A context is built from a capability-gated config in two native steps
//! (bind the client API, then create the context); the types only let the
//! second step happen after the first succeeded. A built context pairs with a
//! surface through `make_current`, which consumes both — so no two live
//! current pairs can share a context — and every failure returns each
//! consumed resource exactly once: live, or as an explicit destroy
//! obligation, as the tri-way classification below decides.

pub mod attribute;
pub mod gl;
pub mod gles;

use vstd::prelude::*;

use crate::error::{spec_classify_error, EGLError};
use crate::surface::{Surface, SurfaceDestroy};
use crate::utils::{NativeCallReply, QueryError, QueryResult, UnsignedInteger};
use crate::egl;
use crate::surface::attribute::RenderBuffer;

verus! {

/// A rendering context holding a native context handle.
pub trait Context: Sized {
    spec fn spec_raw_display(&self) -> usize;

    spec fn spec_raw_context(&self) -> usize;

    fn raw_display(&self) -> (r: usize)
        ensures
            r == self.spec_raw_display(),
    ;

    fn raw_context(&self) -> (r: usize)
        ensures
            r == self.spec_raw_context(),
    ;
}

/// A context whose native side must now be destroyed: the holder owes the
/// native destroy-context call, exactly once. A destroy failure is logged by
/// the embedding program, never escalated.
#[derive(Debug)]
pub struct ContextDestroy<C: Context> {
    pub context: C,
}

impl<C: Context> ContextDestroy<C> {
    pub fn raw_context(&self) -> (r: usize)
        ensures
            r == self.context.spec_raw_context(),
    {
        self.context.raw_context()
    }

    pub fn raw_display(&self) -> (r: usize)
        ensures
            r == self.context.spec_raw_display(),
    {
        self.context.raw_display()
    }
}

/// A context beside the display it was built on. Create only one per
/// display: the native side keeps at most one pair current per thread.
#[derive(Debug)]
pub struct SingleContext<C: Context, D> {
    pub display: D,
    pub context: C,
}

/// What a failed current-pair operation leaves the caller, by native error
/// class:
///
/// * context lost — the display can no longer host a context: the display
///   and the surface come back live, the context must be destroyed;
/// * bad native window — the surface is presumed invalid and must be
///   destroyed; context and display come back live, ready for a new window;
/// * anything else — the display comes back live beside the classified
///   error; context and surface must be destroyed.
#[derive(Debug)]
pub enum ContextOrSurfaceError<S: Surface, C: Context, D> {
    ContextLost(D, S, ContextDestroy<C>),
    BadNativeWindow(SingleContext<C, D>, SurfaceDestroy<S>),
    OtherError(D, Option<EGLError>, ContextDestroy<C>, SurfaceDestroy<S>),
}

/// The classification above, as a function of the consumed resources and the
/// raw error-query value.
pub open spec fn spec_classify_current_failure<S: Surface, C: Context, D>(
    context: SingleContext<C, D>,
    surface: S,
    raw_error: i32,
) -> ContextOrSurfaceError<S, C, D> {
    match spec_classify_error(raw_error) {
        Some(EGLError::ContextLost) => ContextOrSurfaceError::ContextLost(
            context.display,
            surface,
            ContextDestroy { context: context.context },
        ),
        Some(EGLError::BadNativeWindow) => ContextOrSurfaceError::BadNativeWindow(
            context,
            SurfaceDestroy { surface },
        ),
        error => ContextOrSurfaceError::OtherError(
            context.display,
            error,
            ContextDestroy { context: context.context },
            SurfaceDestroy { surface },
        ),
    }
}

/// What `make_current` returns for every injected reply.
pub open spec fn spec_make_current<S: Surface, C: Context, D>(
    context: SingleContext<C, D>,
    surface: S,
    reply: NativeCallReply,
) -> Result<CurrentSurfaceAndContext<S, C, D>, ContextOrSurfaceError<S, C, D>> {
    if reply.ok {
        Ok(CurrentSurfaceAndContext { surface, context })
    } else {
        Err(spec_classify_current_failure(context, surface, reply.raw_error))
    }
}

/// What `swap_buffers` returns for every injected reply.
pub open spec fn spec_swap_buffers<S: Surface, C: Context, D>(
    current: CurrentSurfaceAndContext<S, C, D>,
    reply: NativeCallReply,
) -> Result<CurrentSurfaceAndContext<S, C, D>, ContextOrSurfaceError<S, C, D>> {
    if reply.ok {
        Ok(current)
    } else {
        Err(spec_classify_current_failure(current.context, current.surface, reply.raw_error))
    }
}

impl<C: Context, D> SingleContext<C, D> {
    pub(crate) fn new(context: C, display: D) -> (r: SingleContext<C, D>)
        ensures
            r == (SingleContext { display, context }),
    {
        SingleContext { display, context }
    }

    pub fn context(&self) -> (r: &C)
        ensures
            r == &self.context,
    {
        &self.context
    }

    pub fn display(&self) -> (r: &D)
        ensures
            r == &self.display,
    {
        &self.display
    }

    /// Ends the context's life: the display comes back beside the destroy
    /// obligation.
    pub fn destroy(self) -> (r: (D, ContextDestroy<C>))
        ensures
            r.0 == self.display,
            r.1 == (ContextDestroy { context: self.context }),
    {
        (self.display, ContextDestroy { context: self.context })
    }

    /// Decides on the raw reply of the native make-current call, which the
    /// embedding program makes with the surface as both draw and read target.
    /// Consumes the context and the surface: on success both live inside the
    /// returned current pair — so no two live pairs can share a context — and
    /// on failure each comes back exactly once, as the classification says.
    pub fn make_current<S: Surface>(self, surface: S, reply: NativeCallReply) -> (r: Result<
        CurrentSurfaceAndContext<S, C, D>,
        ContextOrSurfaceError<S, C, D>,
    >)
        ensures
            r == spec_make_current(self, surface, reply),
    {
        if reply.ok {
            Ok(CurrentSurfaceAndContext { surface, context: self })
        } else {
            match EGLError::check_errors(reply.raw_error) {
                Some(EGLError::ContextLost) => Err(
                    ContextOrSurfaceError::ContextLost(
                        self.display,
                        surface,
                        ContextDestroy { context: self.context },
                    ),
                ),
                Some(EGLError::BadNativeWindow) => Err(
                    ContextOrSurfaceError::BadNativeWindow(self, SurfaceDestroy { surface }),
                ),
                error => Err(
                    ContextOrSurfaceError::OtherError(
                        self.display,
                        error,
                        ContextDestroy { context: self.context },
                        SurfaceDestroy { surface },
                    ),
                ),
            }
        }
    }
}

/// The bound pair the make-current operation produced: the only value
/// through which buffer swaps and render-buffer queries are valid.
#[derive(Debug)]
pub struct CurrentSurfaceAndContext<S: Surface, C: Context, D> {
    pub surface: S,
    pub context: SingleContext<C, D>,
}

impl<S: Surface, C: Context, D> CurrentSurfaceAndContext<S, C, D> {
    /// Decides on the raw reply of the native swap-buffers call: the pair
    /// continues on success, and a failure classifies exactly as at
    /// make-current time.
    pub fn swap_buffers(self, reply: NativeCallReply) -> (r: Result<
        Self,
        ContextOrSurfaceError<S, C, D>,
    >)
        ensures
            r == spec_swap_buffers(self, reply),
    {
        if reply.ok {
            Ok(self)
        } else {
            match EGLError::check_errors(reply.raw_error) {
                Some(EGLError::ContextLost) => Err(
                    ContextOrSurfaceError::ContextLost(
                        self.context.display,
                        self.surface,
                        ContextDestroy { context: self.context.context },
                    ),
                ),
                Some(EGLError::BadNativeWindow) => Err(
                    ContextOrSurfaceError::BadNativeWindow(
                        self.context,
                        SurfaceDestroy { surface: self.surface },
                    ),
                ),
                error => Err(
                    ContextOrSurfaceError::OtherError(
                        self.context.display,
                        error,
                        ContextDestroy { context: self.context.context },
                        SurfaceDestroy { surface: self.surface },
                    ),
                ),
            }
        }
    }

    /// Decides on the raw reply of the native swap-interval call. The value
    /// the embedding program passed is clamped by the native implementation
    /// to the config's advertised bounds; this layer does no clamping of its
    /// own. Default interval: 1.
    pub fn swap_interval(&self, _interval: UnsignedInteger, reply: NativeCallReply) -> (r: Result<
        (),
        Option<EGLError>,
    >)
        ensures
            reply.ok ==> r == Ok::<(), Option<EGLError>>(()),
            !reply.ok ==> r == Err::<(), Option<EGLError>>(spec_classify_error(reply.raw_error)),
    {
        if reply.ok {
            Ok(())
        } else {
            Err(EGLError::check_errors(reply.raw_error))
        }
    }

    pub fn context(&self) -> (r: &SingleContext<C, D>)
        ensures
            r == &self.context,
    {
        &self.context
    }

    pub fn surface(&self) -> (r: &S)
        ensures
            r == &self.surface,
    {
        &self.surface
    }

    pub fn surface_mut(&mut self) -> (r: &mut S)
        ensures
            *r == old(self).surface,
            *final(self) == (CurrentSurfaceAndContext {
                surface: *final(r),
                context: old(self).context,
            }),
    {
        &mut self.surface
    }

    /// Decodes the render-buffer query made on the current pair.
    pub fn render_buffer(&self, reply: crate::utils::QueryReply) -> (r: QueryResult<RenderBuffer>)
        ensures
            !reply.ok ==> r == Err::<RenderBuffer, QueryError>(QueryError::QueryError),
            reply.ok && reply.value == egl::BACK_BUFFER ==> r == Ok::<RenderBuffer, QueryError>(
                RenderBuffer::BackBuffer,
            ),
            reply.ok && reply.value == egl::SINGLE_BUFFER ==> r == Ok::<RenderBuffer, QueryError>(
                RenderBuffer::SingleBuffer,
            ),
            reply.ok && reply.value != egl::BACK_BUFFER && reply.value != egl::SINGLE_BUFFER ==> r
                == Err::<RenderBuffer, QueryError>(QueryError::EnumError),
    {
        let value = crate::utils::query_attrib(reply)?;
        if value == egl::BACK_BUFFER {
            Ok(RenderBuffer::BackBuffer)
        } else if value == egl::SINGLE_BUFFER {
            Ok(RenderBuffer::SingleBuffer)
        } else {
            Err(QueryError::EnumError)
        }
    }
}

/// Law (failure ownership classification): for every consumed pair and every
/// injected reply, the make-current outcome carries the display, the context
/// and the surface each exactly once, and the class of the native error
/// decides the shape — context-lost returns display and surface live and
/// hands the context to destruction; bad-native-window returns context and
/// display live and hands the surface to destruction; every other error
/// returns the display live and hands both to destruction. Success carries
/// exactly the consumed pair, live.
pub proof fn lemma_make_current_classification<S: Surface, C: Context, D>(
    context: SingleContext<C, D>,
    surface: S,
    reply: NativeCallReply,
)
    ensures
        reply.ok ==> spec_make_current(context, surface, reply) == Ok::<
            CurrentSurfaceAndContext<S, C, D>,
            ContextOrSurfaceError<S, C, D>,
        >(CurrentSurfaceAndContext { surface, context }),
        !reply.ok && spec_classify_error(reply.raw_error) == Some(EGLError::ContextLost)
            ==> spec_make_current(context, surface, reply) == Err::<
            CurrentSurfaceAndContext<S, C, D>,
            ContextOrSurfaceError<S, C, D>,
        >(
            ContextOrSurfaceError::ContextLost(
                context.display,
                surface,
                ContextDestroy { context: context.context },
            ),
        ),
        !reply.ok && spec_classify_error(reply.raw_error) == Some(EGLError::BadNativeWindow)
            ==> spec_make_current(context, surface, reply) == Err::<
            CurrentSurfaceAndContext<S, C, D>,
            ContextOrSurfaceError<S, C, D>,
        >(ContextOrSurfaceError::BadNativeWindow(context, SurfaceDestroy { surface })),
        !reply.ok && spec_classify_error(reply.raw_error) != Some(EGLError::ContextLost)
            && spec_classify_error(reply.raw_error) != Some(EGLError::BadNativeWindow)
            ==> spec_make_current(context, surface, reply) == Err::<
            CurrentSurfaceAndContext<S, C, D>,
            ContextOrSurfaceError<S, C, D>,
        >(
            ContextOrSurfaceError::OtherError(
                context.display,
                spec_classify_error(reply.raw_error),
                ContextDestroy { context: context.context },
                SurfaceDestroy { surface },
            ),
        ),
{
}

/// Law (swap-buffers classifies as make-current does): a failed buffer swap
/// dismantles the pair it was called on by exactly the make-current
/// classification, and a successful one returns the pair unchanged.
pub proof fn lemma_swap_buffers_classification<S: Surface, C: Context, D>(
    current: CurrentSurfaceAndContext<S, C, D>,
    reply: NativeCallReply,
)
    ensures
        reply.ok ==> spec_swap_buffers(current, reply) == Ok::<
            CurrentSurfaceAndContext<S, C, D>,
            ContextOrSurfaceError<S, C, D>,
        >(current),
        !reply.ok ==> spec_swap_buffers(current, reply) == Err::<
            CurrentSurfaceAndContext<S, C, D>,
            ContextOrSurfaceError<S, C, D>,
        >(spec_classify_current_failure(current.context, current.surface, reply.raw_error)),
        !reply.ok ==> spec_swap_buffers(current, reply) == spec_make_current(
            current.context,
            current.surface,
            reply,
        ),
{
}

} // verus!
