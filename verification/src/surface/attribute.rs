//! Typed decoding of raw surface attribute values, and attribute setting.

use vstd::prelude::*;

use crate::egl;
use crate::error::{spec_classify_error, EGLError};
use crate::utils::{query_attrib, NativeCallReply, QueryError, QueryReply, QueryResult};

verus! {

/// Which buffer of a window surface rendering targets.
#[derive(Debug, Copy, Clone, PartialEq, Eq, Structural)]
pub enum RenderBuffer {
    BackBuffer,
    SingleBuffer,
}

impl RenderBuffer {
    pub open spec fn spec_raw(self) -> i32 {
        match self {
            RenderBuffer::BackBuffer => egl::BACK_BUFFER,
            RenderBuffer::SingleBuffer => egl::SINGLE_BUFFER,
        }
    }

    /// The native enum value naming this buffer.
    pub fn raw(self) -> (r: i32)
        ensures
            r == self.spec_raw(),
    {
        match self {
            RenderBuffer::BackBuffer => egl::BACK_BUFFER,
            RenderBuffer::SingleBuffer => egl::SINGLE_BUFFER,
        }
    }
}

/// Texture format of an off-screen buffer, for the embedded client API.
#[derive(Debug, Copy, Clone, PartialEq, Eq, Structural)]
pub enum TextureFormat {
    RGB,
    RGBA,
    NoTexture,
}

impl TextureFormat {
    pub open spec fn spec_raw(self) -> i32 {
        match self {
            TextureFormat::RGB => egl::TEXTURE_RGB,
            TextureFormat::RGBA => egl::TEXTURE_RGBA,
            TextureFormat::NoTexture => egl::NO_TEXTURE,
        }
    }

    /// The native enum value naming this format.
    pub fn raw(self) -> (r: i32)
        ensures
            r == self.spec_raw(),
    {
        match self {
            TextureFormat::RGB => egl::TEXTURE_RGB,
            TextureFormat::RGBA => egl::TEXTURE_RGBA,
            TextureFormat::NoTexture => egl::NO_TEXTURE,
        }
    }
}

/// Texture target of an off-screen buffer, for the embedded client API.
#[derive(Debug, Copy, Clone, PartialEq, Eq, Structural)]
pub enum TextureTarget {
    Texture2D,
    NoTexture,
}

impl TextureTarget {
    pub open spec fn spec_raw(self) -> i32 {
        match self {
            TextureTarget::Texture2D => egl::TEXTURE_2D,
            TextureTarget::NoTexture => egl::NO_TEXTURE,
        }
    }

    /// The native enum value naming this target.
    pub fn raw(self) -> (r: i32)
        ensures
            r == self.spec_raw(),
    {
        match self {
            TextureTarget::Texture2D => egl::TEXTURE_2D,
            TextureTarget::NoTexture => egl::NO_TEXTURE,
        }
    }
}

/// The surface attributes that can be set after creation.
#[derive(Debug, Copy, Clone, PartialEq, Eq, Structural)]
pub enum SetSurfaceAttribute {
    /// For the embedded client API only.
    MipmapLevel,
    MultisampleResolve,
    SwapBehavior,
}

impl SetSurfaceAttribute {
    pub open spec fn spec_raw(self) -> i32 {
        match self {
            SetSurfaceAttribute::MipmapLevel => egl::MIPMAP_LEVEL,
            SetSurfaceAttribute::MultisampleResolve => egl::MULTISAMPLE_RESOLVE,
            SetSurfaceAttribute::SwapBehavior => egl::SWAP_BEHAVIOR,
        }
    }

    /// The native attribute name.
    pub fn raw(self) -> (r: i32)
        ensures
            r == self.spec_raw(),
    {
        match self {
            SetSurfaceAttribute::MipmapLevel => egl::MIPMAP_LEVEL,
            SetSurfaceAttribute::MultisampleResolve => egl::MULTISAMPLE_RESOLVE,
            SetSurfaceAttribute::SwapBehavior => egl::SWAP_BEHAVIOR,
        }
    }
}

/// How a multisample buffer is resolved at swap time.
#[derive(Debug, Copy, Clone, PartialEq, Eq, Structural)]
pub enum MultisampleResolveValue {
    ResolveDefault,
    ResolveBox,
}

impl MultisampleResolveValue {
    pub open spec fn spec_raw(self) -> i32 {
        match self {
            MultisampleResolveValue::ResolveDefault => egl::MULTISAMPLE_RESOLVE_DEFAULT,
            MultisampleResolveValue::ResolveBox => egl::MULTISAMPLE_RESOLVE_BOX,
        }
    }

    /// The native enum value naming this resolve mode.
    pub fn raw(self) -> (r: i32)
        ensures
            r == self.spec_raw(),
    {
        match self {
            MultisampleResolveValue::ResolveDefault => egl::MULTISAMPLE_RESOLVE_DEFAULT,
            MultisampleResolveValue::ResolveBox => egl::MULTISAMPLE_RESOLVE_BOX,
        }
    }
}

/// What happens to the color buffer at swap time.
#[derive(Debug, Copy, Clone, PartialEq, Eq, Structural)]
pub enum SwapBehaviorValue {
    BufferPreserved,
    BufferDestroyed,
}

impl SwapBehaviorValue {
    pub open spec fn spec_raw(self) -> i32 {
        match self {
            SwapBehaviorValue::BufferPreserved => egl::BUFFER_PRESERVED,
            SwapBehaviorValue::BufferDestroyed => egl::BUFFER_DESTROYED,
        }
    }

    /// The native enum value naming this behavior.
    pub fn raw(self) -> (r: i32)
        ensures
            r == self.spec_raw(),
    {
        match self {
            SwapBehaviorValue::BufferPreserved => egl::BUFFER_PRESERVED,
            SwapBehaviorValue::BufferDestroyed => egl::BUFFER_DESTROYED,
        }
    }
}

/// The attributes a surface can be asked for.
#[derive(Debug, Copy, Clone, PartialEq, Eq, Structural)]
pub enum QueryableAttribute {
    VgAlphaFormat,
    VgColorSpace,
    ConfigID,
    Height,
    HorizontalResolution,
    LargestPbuffer,
    MipmapTexture,
    MipmapLevel,
    MultisampleResolve,
    PixelAspectRatio,
    RenderBuffer,
    SwapBehavior,
    TextureFormat,
    TextureTarget,
    VerticalResolution,
    Width,
}

impl QueryableAttribute {
    pub open spec fn spec_raw(self) -> i32 {
        match self {
            QueryableAttribute::VgAlphaFormat => egl::VG_ALPHA_FORMAT,
            QueryableAttribute::VgColorSpace => egl::VG_COLORSPACE,
            QueryableAttribute::ConfigID => egl::CONFIG_ID,
            QueryableAttribute::Height => egl::HEIGHT,
            QueryableAttribute::HorizontalResolution => egl::HORIZONTAL_RESOLUTION,
            QueryableAttribute::LargestPbuffer => egl::LARGEST_PBUFFER,
            QueryableAttribute::MipmapTexture => egl::MIPMAP_TEXTURE,
            QueryableAttribute::MipmapLevel => egl::MIPMAP_LEVEL,
            QueryableAttribute::MultisampleResolve => egl::MULTISAMPLE_RESOLVE,
            QueryableAttribute::PixelAspectRatio => egl::PIXEL_ASPECT_RATIO,
            QueryableAttribute::RenderBuffer => egl::RENDER_BUFFER,
            QueryableAttribute::SwapBehavior => egl::SWAP_BEHAVIOR,
            QueryableAttribute::TextureFormat => egl::TEXTURE_FORMAT,
            QueryableAttribute::TextureTarget => egl::TEXTURE_TARGET,
            QueryableAttribute::VerticalResolution => egl::VERTICAL_RESOLUTION,
            QueryableAttribute::Width => egl::WIDTH,
        }
    }

    /// The native attribute name, for making the query.
    pub fn raw(self) -> (r: i32)
        ensures
            r == self.spec_raw(),
    {
        match self {
            QueryableAttribute::VgAlphaFormat => egl::VG_ALPHA_FORMAT,
            QueryableAttribute::VgColorSpace => egl::VG_COLORSPACE,
            QueryableAttribute::ConfigID => egl::CONFIG_ID,
            QueryableAttribute::Height => egl::HEIGHT,
            QueryableAttribute::HorizontalResolution => egl::HORIZONTAL_RESOLUTION,
            QueryableAttribute::LargestPbuffer => egl::LARGEST_PBUFFER,
            QueryableAttribute::MipmapTexture => egl::MIPMAP_TEXTURE,
            QueryableAttribute::MipmapLevel => egl::MIPMAP_LEVEL,
            QueryableAttribute::MultisampleResolve => egl::MULTISAMPLE_RESOLVE,
            QueryableAttribute::PixelAspectRatio => egl::PIXEL_ASPECT_RATIO,
            QueryableAttribute::RenderBuffer => egl::RENDER_BUFFER,
            QueryableAttribute::SwapBehavior => egl::SWAP_BEHAVIOR,
            QueryableAttribute::TextureFormat => egl::TEXTURE_FORMAT,
            QueryableAttribute::TextureTarget => egl::TEXTURE_TARGET,
            QueryableAttribute::VerticalResolution => egl::VERTICAL_RESOLUTION,
            QueryableAttribute::Width => egl::WIDTH,
        }
    }
}

/// Decides on the raw reply of the native surface-attribute set call.
pub fn on_set_surface_attribute(reply: NativeCallReply) -> (r: Result<(), Option<EGLError>>)
    ensures
        reply.ok ==> r == Ok::<(), Option<EGLError>>(()),
        !reply.ok ==> r == Err::<(), Option<EGLError>>(spec_classify_error(reply.raw_error)),
{
    if reply.ok {
        Ok(())
    } else {
        Err(EGLError::check_errors(reply.raw_error))
    }
}

/// Decodes the texture-format query.
pub fn texture_format(reply: QueryReply) -> (r: QueryResult<TextureFormat>)
    ensures
        !reply.ok ==> r == Err::<TextureFormat, QueryError>(QueryError::QueryError),
        reply.ok && reply.value == egl::TEXTURE_RGB ==> r == Ok::<TextureFormat, QueryError>(
            TextureFormat::RGB,
        ),
        reply.ok && reply.value == egl::TEXTURE_RGBA ==> r == Ok::<TextureFormat, QueryError>(
            TextureFormat::RGBA,
        ),
        reply.ok && reply.value == egl::NO_TEXTURE ==> r == Ok::<TextureFormat, QueryError>(
            TextureFormat::NoTexture,
        ),
        reply.ok && reply.value != egl::TEXTURE_RGB && reply.value != egl::TEXTURE_RGBA
            && reply.value != egl::NO_TEXTURE ==> r == Err::<TextureFormat, QueryError>(
            QueryError::EnumError,
        ),
{
    let value = query_attrib(reply)?;
    if value == egl::TEXTURE_RGB {
        Ok(TextureFormat::RGB)
    } else if value == egl::TEXTURE_RGBA {
        Ok(TextureFormat::RGBA)
    } else if value == egl::NO_TEXTURE {
        Ok(TextureFormat::NoTexture)
    } else {
        Err(QueryError::EnumError)
    }
}

/// Decodes the texture-target query.
pub fn texture_target(reply: QueryReply) -> (r: QueryResult<TextureTarget>)
    ensures
        !reply.ok ==> r == Err::<TextureTarget, QueryError>(QueryError::QueryError),
        reply.ok && reply.value == egl::TEXTURE_2D ==> r == Ok::<TextureTarget, QueryError>(
            TextureTarget::Texture2D,
        ),
        reply.ok && reply.value == egl::NO_TEXTURE ==> r == Ok::<TextureTarget, QueryError>(
            TextureTarget::NoTexture,
        ),
        reply.ok && reply.value != egl::TEXTURE_2D && reply.value != egl::NO_TEXTURE ==> r
            == Err::<TextureTarget, QueryError>(QueryError::EnumError),
{
    let value = query_attrib(reply)?;
    if value == egl::TEXTURE_2D {
        Ok(TextureTarget::Texture2D)
    } else if value == egl::NO_TEXTURE {
        Ok(TextureTarget::NoTexture)
    } else {
        Err(QueryError::EnumError)
    }
}

/// Decodes the multisample-resolve query.
pub fn multisample_resolve(reply: QueryReply) -> (r: QueryResult<MultisampleResolveValue>)
    ensures
        !reply.ok ==> r == Err::<MultisampleResolveValue, QueryError>(QueryError::QueryError),
        reply.ok && reply.value == egl::MULTISAMPLE_RESOLVE_DEFAULT ==> r == Ok::<
            MultisampleResolveValue,
            QueryError,
        >(MultisampleResolveValue::ResolveDefault),
        reply.ok && reply.value == egl::MULTISAMPLE_RESOLVE_BOX ==> r == Ok::<
            MultisampleResolveValue,
            QueryError,
        >(MultisampleResolveValue::ResolveBox),
        reply.ok && reply.value != egl::MULTISAMPLE_RESOLVE_DEFAULT && reply.value
            != egl::MULTISAMPLE_RESOLVE_BOX ==> r == Err::<MultisampleResolveValue, QueryError>(
            QueryError::EnumError,
        ),
{
    let value = query_attrib(reply)?;
    if value == egl::MULTISAMPLE_RESOLVE_DEFAULT {
        Ok(MultisampleResolveValue::ResolveDefault)
    } else if value == egl::MULTISAMPLE_RESOLVE_BOX {
        Ok(MultisampleResolveValue::ResolveBox)
    } else {
        Err(QueryError::EnumError)
    }
}

/// Decodes the swap-behavior query.
pub fn swap_behavior(reply: QueryReply) -> (r: QueryResult<SwapBehaviorValue>)
    ensures
        !reply.ok ==> r == Err::<SwapBehaviorValue, QueryError>(QueryError::QueryError),
        reply.ok && reply.value == egl::BUFFER_PRESERVED ==> r == Ok::<
            SwapBehaviorValue,
            QueryError,
        >(SwapBehaviorValue::BufferPreserved),
        reply.ok && reply.value == egl::BUFFER_DESTROYED ==> r == Ok::<
            SwapBehaviorValue,
            QueryError,
        >(SwapBehaviorValue::BufferDestroyed),
        reply.ok && reply.value != egl::BUFFER_PRESERVED && reply.value != egl::BUFFER_DESTROYED
            ==> r == Err::<SwapBehaviorValue, QueryError>(QueryError::EnumError),
{
    let value = query_attrib(reply)?;
    if value == egl::BUFFER_PRESERVED {
        Ok(SwapBehaviorValue::BufferPreserved)
    } else if value == egl::BUFFER_DESTROYED {
        Ok(SwapBehaviorValue::BufferDestroyed)
    } else {
        Err(QueryError::EnumError)
    }
}

/// Decodes the render-buffer query.
pub fn render_buffer(reply: QueryReply) -> (r: QueryResult<RenderBuffer>)
    ensures
        !reply.ok ==> r == Err::<RenderBuffer, QueryError>(QueryError::QueryError),
        reply.ok && reply.value == egl::BACK_BUFFER ==> r == Ok::<RenderBuffer, QueryError>(
            RenderBuffer::BackBuffer,
        ),
        reply.ok && reply.value == egl::SINGLE_BUFFER ==> r == Ok::<RenderBuffer, QueryError>(
            RenderBuffer::SingleBuffer,
        ),
        reply.ok && reply.value != egl::BACK_BUFFER && reply.value != egl::SINGLE_BUFFER ==> r
            == Err::<RenderBuffer, QueryError>(QueryError::EnumError),
{
    let value = query_attrib(reply)?;
    if value == egl::BACK_BUFFER {
        Ok(RenderBuffer::BackBuffer)
    } else if value == egl::SINGLE_BUFFER {
        Ok(RenderBuffer::SingleBuffer)
    } else {
        Err(QueryError::EnumError)
    }
}

} // verus!
