//! Typed decoding of raw config attribute values.
//!
//! Every accessor takes the raw reply of the matching native attribute query
//! and interprets it; nothing is cached. The one non-trivial rule is the
//! color-buffer inference: the buffer type picks the family, and the alpha
//! size picks the variant within it — zero alpha means "no alpha buffer",
//! never an error, while a negative alpha is an integer-range error.

use vstd::prelude::*;

use crate::config::{Config, ConfigError, ConfigResult, spec_query_attrib, spec_query_positive, spec_query_positive_or_zero, spec_query_unsigned};
use crate::display::{DisplayExtensionSupport, EGLVersion};
use crate::egl;
use crate::utils::{IntegerError, PositiveInteger, QueryReply, UnsignedInteger};

verus! {

/// Color buffer type and bit counts of colors.
#[derive(Debug, Copy, Clone)]
pub enum ColorBuffer {
    RGB(PositiveInteger, PositiveInteger, PositiveInteger),
    RGBA(PositiveInteger, PositiveInteger, PositiveInteger, PositiveInteger),
    Luminance(PositiveInteger),
    LuminanceAndAlpha(PositiveInteger, PositiveInteger),
}

/// The attributes a config can be asked for.
#[derive(Debug, Copy, Clone, PartialEq, Eq, Structural)]
pub enum ConfigAttribute {
    BufferSize,
    RedSize,
    GreenSize,
    BlueSize,
    LuminanceSize,
    AlphaSize,
    AlphaMaskSize,
    ColorBufferType,
    ConfigCaveat,
    ConfigID,
    Conformant,
    DepthSize,
    Level,
    MaxPbufferWidth,
    MaxPbufferHeight,
    MaxPbufferPixels,
    MaxSwapInterval,
    MinSwapInterval,
    NativeRenderable,
    NativeVisualID,
    NativeVisualType,
    RenderableType,
    Samples,
    StencilSize,
    SurfaceType,
    TransparentType,
    TransparentRedValue,
    TransparentGreenValue,
    TransparentBlueValue,
}

impl ConfigAttribute {
    pub open spec fn spec_raw(self) -> i32 {
        match self {
            ConfigAttribute::BufferSize => egl::BUFFER_SIZE,
            ConfigAttribute::RedSize => egl::RED_SIZE,
            ConfigAttribute::GreenSize => egl::GREEN_SIZE,
            ConfigAttribute::BlueSize => egl::BLUE_SIZE,
            ConfigAttribute::LuminanceSize => egl::LUMINANCE_SIZE,
            ConfigAttribute::AlphaSize => egl::ALPHA_SIZE,
            ConfigAttribute::AlphaMaskSize => egl::ALPHA_MASK_SIZE,
            ConfigAttribute::ColorBufferType => egl::COLOR_BUFFER_TYPE,
            ConfigAttribute::ConfigCaveat => egl::CONFIG_CAVEAT,
            ConfigAttribute::ConfigID => egl::CONFIG_ID,
            ConfigAttribute::Conformant => egl::CONFORMANT,
            ConfigAttribute::DepthSize => egl::DEPTH_SIZE,
            ConfigAttribute::Level => egl::LEVEL,
            ConfigAttribute::MaxPbufferWidth => egl::MAX_PBUFFER_WIDTH,
            ConfigAttribute::MaxPbufferHeight => egl::MAX_PBUFFER_HEIGHT,
            ConfigAttribute::MaxPbufferPixels => egl::MAX_PBUFFER_PIXELS,
            ConfigAttribute::MaxSwapInterval => egl::MAX_SWAP_INTERVAL,
            ConfigAttribute::MinSwapInterval => egl::MIN_SWAP_INTERVAL,
            ConfigAttribute::NativeRenderable => egl::NATIVE_RENDERABLE,
            ConfigAttribute::NativeVisualID => egl::NATIVE_VISUAL_ID,
            ConfigAttribute::NativeVisualType => egl::NATIVE_VISUAL_TYPE,
            ConfigAttribute::RenderableType => egl::RENDERABLE_TYPE,
            ConfigAttribute::Samples => egl::SAMPLES,
            ConfigAttribute::StencilSize => egl::STENCIL_SIZE,
            ConfigAttribute::SurfaceType => egl::SURFACE_TYPE,
            ConfigAttribute::TransparentType => egl::TRANSPARENT_TYPE,
            ConfigAttribute::TransparentRedValue => egl::TRANSPARENT_RED_VALUE,
            ConfigAttribute::TransparentGreenValue => egl::TRANSPARENT_GREEN_VALUE,
            ConfigAttribute::TransparentBlueValue => egl::TRANSPARENT_BLUE_VALUE,
        }
    }

    /// The native attribute name, for making the query.
    pub fn raw(self) -> (r: i32)
        ensures
            r == self.spec_raw(),
    {
        match self {
            ConfigAttribute::BufferSize => egl::BUFFER_SIZE,
            ConfigAttribute::RedSize => egl::RED_SIZE,
            ConfigAttribute::GreenSize => egl::GREEN_SIZE,
            ConfigAttribute::BlueSize => egl::BLUE_SIZE,
            ConfigAttribute::LuminanceSize => egl::LUMINANCE_SIZE,
            ConfigAttribute::AlphaSize => egl::ALPHA_SIZE,
            ConfigAttribute::AlphaMaskSize => egl::ALPHA_MASK_SIZE,
            ConfigAttribute::ColorBufferType => egl::COLOR_BUFFER_TYPE,
            ConfigAttribute::ConfigCaveat => egl::CONFIG_CAVEAT,
            ConfigAttribute::ConfigID => egl::CONFIG_ID,
            ConfigAttribute::Conformant => egl::CONFORMANT,
            ConfigAttribute::DepthSize => egl::DEPTH_SIZE,
            ConfigAttribute::Level => egl::LEVEL,
            ConfigAttribute::MaxPbufferWidth => egl::MAX_PBUFFER_WIDTH,
            ConfigAttribute::MaxPbufferHeight => egl::MAX_PBUFFER_HEIGHT,
            ConfigAttribute::MaxPbufferPixels => egl::MAX_PBUFFER_PIXELS,
            ConfigAttribute::MaxSwapInterval => egl::MAX_SWAP_INTERVAL,
            ConfigAttribute::MinSwapInterval => egl::MIN_SWAP_INTERVAL,
            ConfigAttribute::NativeRenderable => egl::NATIVE_RENDERABLE,
            ConfigAttribute::NativeVisualID => egl::NATIVE_VISUAL_ID,
            ConfigAttribute::NativeVisualType => egl::NATIVE_VISUAL_TYPE,
            ConfigAttribute::RenderableType => egl::RENDERABLE_TYPE,
            ConfigAttribute::Samples => egl::SAMPLES,
            ConfigAttribute::StencilSize => egl::STENCIL_SIZE,
            ConfigAttribute::SurfaceType => egl::SURFACE_TYPE,
            ConfigAttribute::TransparentType => egl::TRANSPARENT_TYPE,
            ConfigAttribute::TransparentRedValue => egl::TRANSPARENT_RED_VALUE,
            ConfigAttribute::TransparentGreenValue => egl::TRANSPARENT_GREEN_VALUE,
            ConfigAttribute::TransparentBlueValue => egl::TRANSPARENT_BLUE_VALUE,
        }
    }
}

/// Surface capabilities, decoded from the surface-type bitmask.
#[derive(Debug, Copy, Clone, PartialEq, Eq, Structural)]
pub struct SurfaceType {
    pub window: bool,
    pub pixmap: bool,
    pub pbuffer: bool,
    pub multisample_resolve_box: bool,
    pub swap_behavior_preserved: bool,
    pub vg_colorspace_linear: bool,
    pub vg_alpha_format_pre: bool,
}

impl SurfaceType {
    /// Each capability is its bit of the mask; unknown bits are dropped.
    pub open spec fn spec_from_bits(bits: u32) -> SurfaceType {
        SurfaceType {
            window: bits & egl::WINDOW_BIT != 0,
            pixmap: bits & egl::PIXMAP_BIT != 0,
            pbuffer: bits & egl::PBUFFER_BIT != 0,
            multisample_resolve_box: bits & egl::MULTISAMPLE_RESOLVE_BOX_BIT != 0,
            swap_behavior_preserved: bits & egl::SWAP_BEHAVIOR_PRESERVED_BIT != 0,
            vg_colorspace_linear: bits & egl::VG_COLORSPACE_LINEAR_BIT != 0,
            vg_alpha_format_pre: bits & egl::VG_ALPHA_FORMAT_PRE_BIT != 0,
        }
    }

    pub open spec fn spec_bits(self) -> int {
        (if self.window {
            egl::WINDOW_BIT
        } else {
            0
        }) + (if self.pixmap {
            egl::PIXMAP_BIT
        } else {
            0
        }) + (if self.pbuffer {
            egl::PBUFFER_BIT
        } else {
            0
        }) + (if self.multisample_resolve_box {
            egl::MULTISAMPLE_RESOLVE_BOX_BIT
        } else {
            0
        }) + (if self.swap_behavior_preserved {
            egl::SWAP_BEHAVIOR_PRESERVED_BIT
        } else {
            0
        }) + (if self.vg_colorspace_linear {
            egl::VG_COLORSPACE_LINEAR_BIT
        } else {
            0
        }) + (if self.vg_alpha_format_pre {
            egl::VG_ALPHA_FORMAT_PRE_BIT
        } else {
            0
        })
    }

    pub fn none() -> (r: SurfaceType)
        ensures
            r == (SurfaceType {
                window: false,
                pixmap: false,
                pbuffer: false,
                multisample_resolve_box: false,
                swap_behavior_preserved: false,
                vg_colorspace_linear: false,
                vg_alpha_format_pre: false,
            }),
    {
        SurfaceType {
            window: false,
            pixmap: false,
            pbuffer: false,
            multisample_resolve_box: false,
            swap_behavior_preserved: false,
            vg_colorspace_linear: false,
            vg_alpha_format_pre: false,
        }
    }

    pub fn window() -> (r: SurfaceType)
        ensures
            r == (SurfaceType {
                window: true,
                pixmap: false,
                pbuffer: false,
                multisample_resolve_box: false,
                swap_behavior_preserved: false,
                vg_colorspace_linear: false,
                vg_alpha_format_pre: false,
            }),
    {
        SurfaceType { window: true, ..SurfaceType::none() }
    }

    pub fn from_bits_truncate(bits: u32) -> (r: SurfaceType)
        ensures
            r == SurfaceType::spec_from_bits(bits),
    {
        SurfaceType {
            window: bits & egl::WINDOW_BIT != 0,
            pixmap: bits & egl::PIXMAP_BIT != 0,
            pbuffer: bits & egl::PBUFFER_BIT != 0,
            multisample_resolve_box: bits & egl::MULTISAMPLE_RESOLVE_BOX_BIT != 0,
            swap_behavior_preserved: bits & egl::SWAP_BEHAVIOR_PRESERVED_BIT != 0,
            vg_colorspace_linear: bits & egl::VG_COLORSPACE_LINEAR_BIT != 0,
            vg_alpha_format_pre: bits & egl::VG_ALPHA_FORMAT_PRE_BIT != 0,
        }
    }

    /// The bitmask naming exactly the set capabilities.
    pub fn bits(&self) -> (r: u32)
        ensures
            r == self.spec_bits(),
    {
        (if self.window {
            egl::WINDOW_BIT
        } else {
            0
        }) + (if self.pixmap {
            egl::PIXMAP_BIT
        } else {
            0
        }) + (if self.pbuffer {
            egl::PBUFFER_BIT
        } else {
            0
        }) + (if self.multisample_resolve_box {
            egl::MULTISAMPLE_RESOLVE_BOX_BIT
        } else {
            0
        }) + (if self.swap_behavior_preserved {
            egl::SWAP_BEHAVIOR_PRESERVED_BIT
        } else {
            0
        }) + (if self.vg_colorspace_linear {
            egl::VG_COLORSPACE_LINEAR_BIT
        } else {
            0
        }) + (if self.vg_alpha_format_pre {
            egl::VG_ALPHA_FORMAT_PRE_BIT
        } else {
            0
        })
    }

    /// Whether every capability of `other` is present in `self`.
    pub fn contains(&self, other: SurfaceType) -> (r: bool)
        ensures
            r == ((other.window ==> self.window) && (other.pixmap ==> self.pixmap)
                && (other.pbuffer ==> self.pbuffer) && (other.multisample_resolve_box
                ==> self.multisample_resolve_box) && (other.swap_behavior_preserved
                ==> self.swap_behavior_preserved) && (other.vg_colorspace_linear
                ==> self.vg_colorspace_linear) && (other.vg_alpha_format_pre
                ==> self.vg_alpha_format_pre)),
    {
        (self.window || !other.window) && (self.pixmap || !other.pixmap) && (self.pbuffer
            || !other.pbuffer) && (self.multisample_resolve_box || !other.multisample_resolve_box)
            && (self.swap_behavior_preserved || !other.swap_behavior_preserved)
            && (self.vg_colorspace_linear || !other.vg_colorspace_linear)
            && (self.vg_alpha_format_pre || !other.vg_alpha_format_pre)
    }
}

/// Client APIs a config can host, decoded from the renderable-type or
/// conformant bitmask.
#[derive(Debug, Copy, Clone, PartialEq, Eq, Structural)]
pub struct ConfigClientAPI {
    pub opengl: bool,
    pub opengl_es: bool,
    pub opengl_es2: bool,
    /// Defined only by the create-context extension.
    pub opengl_es3_khr: bool,
    pub openvg: bool,
}

impl ConfigClientAPI {
    pub open spec fn spec_from_bits(bits: u32) -> ConfigClientAPI {
        ConfigClientAPI {
            opengl: bits & egl::OPENGL_BIT != 0,
            opengl_es: bits & egl::OPENGL_ES_BIT != 0,
            opengl_es2: bits & egl::OPENGL_ES2_BIT != 0,
            opengl_es3_khr: bits & egl::OPENGL_ES3_BIT != 0,
            openvg: bits & egl::OPENVG_BIT != 0,
        }
    }

    pub open spec fn spec_bits(self) -> int {
        (if self.opengl {
            egl::OPENGL_BIT
        } else {
            0
        }) + (if self.opengl_es {
            egl::OPENGL_ES_BIT
        } else {
            0
        }) + (if self.opengl_es2 {
            egl::OPENGL_ES2_BIT
        } else {
            0
        }) + (if self.opengl_es3_khr {
            egl::OPENGL_ES3_BIT
        } else {
            0
        }) + (if self.openvg {
            egl::OPENVG_BIT
        } else {
            0
        })
    }

    pub fn none() -> (r: ConfigClientAPI)
        ensures
            r == (ConfigClientAPI {
                opengl: false,
                opengl_es: false,
                opengl_es2: false,
                opengl_es3_khr: false,
                openvg: false,
            }),
    {
        ConfigClientAPI {
            opengl: false,
            opengl_es: false,
            opengl_es2: false,
            opengl_es3_khr: false,
            openvg: false,
        }
    }

    pub fn from_bits_truncate(bits: u32) -> (r: ConfigClientAPI)
        ensures
            r == ConfigClientAPI::spec_from_bits(bits),
    {
        ConfigClientAPI {
            opengl: bits & egl::OPENGL_BIT != 0,
            opengl_es: bits & egl::OPENGL_ES_BIT != 0,
            opengl_es2: bits & egl::OPENGL_ES2_BIT != 0,
            opengl_es3_khr: bits & egl::OPENGL_ES3_BIT != 0,
            openvg: bits & egl::OPENVG_BIT != 0,
        }
    }

    /// The bitmask naming exactly the set APIs.
    pub fn bits(&self) -> (r: u32)
        ensures
            r == self.spec_bits(),
    {
        (if self.opengl {
            egl::OPENGL_BIT
        } else {
            0
        }) + (if self.opengl_es {
            egl::OPENGL_ES_BIT
        } else {
            0
        }) + (if self.opengl_es2 {
            egl::OPENGL_ES2_BIT
        } else {
            0
        }) + (if self.opengl_es3_khr {
            egl::OPENGL_ES3_BIT
        } else {
            0
        }) + (if self.openvg {
            egl::OPENVG_BIT
        } else {
            0
        })
    }

    /// The same APIs with the extension-defined bit cleared.
    pub fn remove_opengl_es3(self) -> (r: ConfigClientAPI)
        ensures
            r == (ConfigClientAPI { opengl_es3_khr: false, ..self }),
    {
        ConfigClientAPI { opengl_es3_khr: false, ..self }
    }

    /// Whether every API of `other` is present in `self`.
    pub fn contains(&self, other: ConfigClientAPI) -> (r: bool)
        ensures
            r == ((other.opengl ==> self.opengl) && (other.opengl_es ==> self.opengl_es)
                && (other.opengl_es2 ==> self.opengl_es2) && (other.opengl_es3_khr
                ==> self.opengl_es3_khr) && (other.openvg ==> self.openvg)),
    {
        (self.opengl || !other.opengl) && (self.opengl_es || !other.opengl_es) && (self.opengl_es2
            || !other.opengl_es2) && (self.opengl_es3_khr || !other.opengl_es3_khr) && (self.openvg
            || !other.openvg)
    }
}

/// Client-API bits as the first supported version defines them.
#[derive(Debug, Copy, Clone, PartialEq, Eq, Structural)]
pub struct EGL14ConfigClientAPI {
    pub opengl: bool,
    pub opengl_es: bool,
    pub opengl_es2: bool,
    pub openvg: bool,
}

impl EGL14ConfigClientAPI {
    pub open spec fn spec_from_bits(bits: u32) -> EGL14ConfigClientAPI {
        EGL14ConfigClientAPI {
            opengl: bits & egl::OPENGL_BIT != 0,
            opengl_es: bits & egl::OPENGL_ES_BIT != 0,
            opengl_es2: bits & egl::OPENGL_ES2_BIT != 0,
            openvg: bits & egl::OPENVG_BIT != 0,
        }
    }

    pub open spec fn spec_bits(self) -> int {
        (if self.opengl {
            egl::OPENGL_BIT
        } else {
            0
        }) + (if self.opengl_es {
            egl::OPENGL_ES_BIT
        } else {
            0
        }) + (if self.opengl_es2 {
            egl::OPENGL_ES2_BIT
        } else {
            0
        }) + (if self.openvg {
            egl::OPENVG_BIT
        } else {
            0
        })
    }

    pub fn from_bits_truncate(bits: u32) -> (r: EGL14ConfigClientAPI)
        ensures
            r == EGL14ConfigClientAPI::spec_from_bits(bits),
    {
        EGL14ConfigClientAPI {
            opengl: bits & egl::OPENGL_BIT != 0,
            opengl_es: bits & egl::OPENGL_ES_BIT != 0,
            opengl_es2: bits & egl::OPENGL_ES2_BIT != 0,
            openvg: bits & egl::OPENVG_BIT != 0,
        }
    }

    pub fn bits(&self) -> (r: u32)
        ensures
            r == self.spec_bits(),
    {
        (if self.opengl {
            egl::OPENGL_BIT
        } else {
            0
        }) + (if self.opengl_es {
            egl::OPENGL_ES_BIT
        } else {
            0
        }) + (if self.opengl_es2 {
            egl::OPENGL_ES2_BIT
        } else {
            0
        }) + (if self.openvg {
            egl::OPENVG_BIT
        } else {
            0
        })
    }
}

/// Client-API bits as the second supported version defines them, where the
/// third major version's bit is core.
#[derive(Debug, Copy, Clone, PartialEq, Eq, Structural)]
pub struct EGL15ConfigClientAPI {
    pub opengl: bool,
    pub opengl_es: bool,
    pub opengl_es2: bool,
    pub opengl_es3: bool,
    pub openvg: bool,
}

impl EGL15ConfigClientAPI {
    pub open spec fn spec_from_bits(bits: u32) -> EGL15ConfigClientAPI {
        EGL15ConfigClientAPI {
            opengl: bits & egl::OPENGL_BIT != 0,
            opengl_es: bits & egl::OPENGL_ES_BIT != 0,
            opengl_es2: bits & egl::OPENGL_ES2_BIT != 0,
            opengl_es3: bits & egl::OPENGL_ES3_BIT != 0,
            openvg: bits & egl::OPENVG_BIT != 0,
        }
    }

    pub open spec fn spec_bits(self) -> int {
        (if self.opengl {
            egl::OPENGL_BIT
        } else {
            0
        }) + (if self.opengl_es {
            egl::OPENGL_ES_BIT
        } else {
            0
        }) + (if self.opengl_es2 {
            egl::OPENGL_ES2_BIT
        } else {
            0
        }) + (if self.opengl_es3 {
            egl::OPENGL_ES3_BIT
        } else {
            0
        }) + (if self.openvg {
            egl::OPENVG_BIT
        } else {
            0
        })
    }

    pub fn from_bits_truncate(bits: u32) -> (r: EGL15ConfigClientAPI)
        ensures
            r == EGL15ConfigClientAPI::spec_from_bits(bits),
    {
        EGL15ConfigClientAPI {
            opengl: bits & egl::OPENGL_BIT != 0,
            opengl_es: bits & egl::OPENGL_ES_BIT != 0,
            opengl_es2: bits & egl::OPENGL_ES2_BIT != 0,
            opengl_es3: bits & egl::OPENGL_ES3_BIT != 0,
            openvg: bits & egl::OPENVG_BIT != 0,
        }
    }

    pub fn bits(&self) -> (r: u32)
        ensures
            r == self.spec_bits(),
    {
        (if self.opengl {
            egl::OPENGL_BIT
        } else {
            0
        }) + (if self.opengl_es {
            egl::OPENGL_ES_BIT
        } else {
            0
        }) + (if self.opengl_es2 {
            egl::OPENGL_ES2_BIT
        } else {
            0
        }) + (if self.opengl_es3 {
            egl::OPENGL_ES3_BIT
        } else {
            0
        }) + (if self.openvg {
            egl::OPENVG_BIT
        } else {
            0
        })
    }
}

/// A renderable-type bitmask read under the version that defines it.
#[derive(Debug, Copy, Clone, PartialEq, Eq, Structural)]
pub enum RenderableType {
    EGL14(EGL14ConfigClientAPI),
    EGL15(EGL15ConfigClientAPI),
}

/// A conformant bitmask read under the version that defines it.
#[derive(Debug, Copy, Clone, PartialEq, Eq, Structural)]
pub enum ClientApiConformance {
    EGL14(EGL14ConfigClientAPI),
    EGL15(EGL15ConfigClientAPI),
}

/// Raw replies of the attribute queries the color-buffer inference reads.
#[derive(Debug, Copy, Clone, PartialEq, Eq, Structural)]
pub struct ColorBufferReplies {
    pub color_buffer_type: QueryReply,
    pub red_size: QueryReply,
    pub green_size: QueryReply,
    pub blue_size: QueryReply,
    pub luminance_size: QueryReply,
    pub alpha_size: QueryReply,
}

/// Raw replies of the queries the transparent-color decode reads.
#[derive(Debug, Copy, Clone, PartialEq, Eq, Structural)]
pub struct TransparentColorReplies {
    pub transparent_type: QueryReply,
    pub red_value: QueryReply,
    pub green_value: QueryReply,
    pub blue_value: QueryReply,
}

/// Raw replies of every attribute query `Config::all` reads.
#[derive(Debug, Copy, Clone, PartialEq, Eq, Structural)]
pub struct AllAttributesReplies {
    pub config_id: QueryReply,
    pub color_buffer: ColorBufferReplies,
    pub buffer_size: QueryReply,
    pub alpha_mask_size: QueryReply,
    pub depth_size: QueryReply,
    pub stencil_size: QueryReply,
    pub samples: QueryReply,
    pub surface_type: QueryReply,
    pub renderable_type: QueryReply,
    pub native_renderable: QueryReply,
    pub native_visual_id: QueryReply,
    pub native_visual_type: QueryReply,
    pub config_caveat: QueryReply,
    pub conformant: QueryReply,
    pub level: QueryReply,
    pub transparent_color: TransparentColorReplies,
    pub max_pbuffer_width: QueryReply,
    pub max_pbuffer_height: QueryReply,
    pub max_pbuffer_pixels: QueryReply,
    pub max_swap_interval: QueryReply,
    pub min_swap_interval: QueryReply,
}

/// Every typed attribute of one config.
#[derive(Debug, Copy, Clone)]
pub struct ConfigInfo {
    pub config_id: PositiveInteger,
    pub color_buffer: ColorBuffer,
    pub color_buffer_size: PositiveInteger,
    pub alpha_mask_buffer: Option<PositiveInteger>,
    pub depth_buffer: Option<PositiveInteger>,
    pub stencil_buffer: Option<PositiveInteger>,
    pub multisample_buffer_samples: Option<PositiveInteger>,
    pub surface_type: SurfaceType,
    pub client_api: ConfigClientAPI,
    pub native_renderable: bool,
    pub native_visual_id: Option<i32>,
    pub native_visual_type: Option<i32>,
    pub slow_config: bool,
    pub client_api_conformance: ConfigClientAPI,
    pub level: i32,
    pub transparent_rgb: Option<(UnsignedInteger, UnsignedInteger, UnsignedInteger)>,
    pub max_pbuffer_width_height: (UnsignedInteger, UnsignedInteger),
    pub max_pbuffer_pixels: UnsignedInteger,
    pub max_swap_interval: UnsignedInteger,
    pub min_swap_interval: UnsignedInteger,
}

/// The color-buffer inference, whole: the buffer-type value picks the family
/// (anything outside the two known families is an enum error); within a
/// family the size queries decode as positive integers in query order; the
/// alpha size then picks the variant — zero alpha the variant without an
/// alpha buffer, positive alpha the variant carrying it, negative alpha an
/// integer-range error.
pub open spec fn spec_color_buffer(replies: ColorBufferReplies) -> Result<ColorBuffer, ConfigError> {
    match spec_query_attrib(replies.color_buffer_type) {
        Err(e) => Err(e),
        Ok(family) => if family == egl::RGB_BUFFER {
            match spec_query_positive(replies.red_size) {
                Err(e) => Err(e),
                Ok(red) => match spec_query_positive(replies.green_size) {
                    Err(e) => Err(e),
                    Ok(green) => match spec_query_positive(replies.blue_size) {
                        Err(e) => Err(e),
                        Ok(blue) => match spec_query_attrib(replies.alpha_size) {
                            Err(e) => Err(e),
                            Ok(alpha) => if alpha > 0 {
                                Ok(
                                    ColorBuffer::RGBA(
                                        red,
                                        green,
                                        blue,
                                        PositiveInteger::spec_new(alpha as int),
                                    ),
                                )
                            } else if alpha == 0 {
                                Ok(ColorBuffer::RGB(red, green, blue))
                            } else {
                                Err(ConfigError::IntegerError(IntegerError::Negative))
                            },
                        },
                    },
                },
            }
        } else if family == egl::LUMINANCE_BUFFER {
            match spec_query_positive(replies.luminance_size) {
                Err(e) => Err(e),
                Ok(luminance) => match spec_query_attrib(replies.alpha_size) {
                    Err(e) => Err(e),
                    Ok(alpha) => if alpha > 0 {
                        Ok(
                            ColorBuffer::LuminanceAndAlpha(
                                luminance,
                                PositiveInteger::spec_new(alpha as int),
                            ),
                        )
                    } else if alpha == 0 {
                        Ok(ColorBuffer::Luminance(luminance))
                    } else {
                        Err(ConfigError::IntegerError(IntegerError::Negative))
                    },
                },
            }
        } else {
            Err(ConfigError::EnumError)
        },
    }
}

/// What the surface-type bitmask decodes to.
pub open spec fn spec_surface_type(reply: QueryReply) -> Result<SurfaceType, ConfigError> {
    match spec_query_attrib(reply) {
        Err(e) => Err(e),
        Ok(value) => Ok(SurfaceType::spec_from_bits(value as u32)),
    }
}

/// What a client-API bitmask (renderable-type or conformant) decodes to:
/// its bits, with the extension-defined bit cleared when the create-context
/// extension is not supported.
pub open spec fn spec_client_api(reply: QueryReply, extensions: DisplayExtensionSupport) -> Result<
    ConfigClientAPI,
    ConfigError,
> {
    match spec_query_attrib(reply) {
        Err(e) => Err(e),
        Ok(value) => {
            let api = ConfigClientAPI::spec_from_bits(value as u32);
            if extensions.create_context {
                Ok(api)
            } else {
                Ok(ConfigClientAPI { opengl_es3_khr: false, ..api })
            }
        },
    }
}

/// What the renderable-type bitmask decodes to under a display version.
pub open spec fn spec_renderable_type(reply: QueryReply, version: EGLVersion) -> Result<
    RenderableType,
    ConfigError,
> {
    match spec_query_attrib(reply) {
        Err(e) => Err(e),
        Ok(value) => match version {
            EGLVersion::EGL_1_4 => Ok(
                RenderableType::EGL14(EGL14ConfigClientAPI::spec_from_bits(value as u32)),
            ),
            EGLVersion::EGL_1_5 => Ok(
                RenderableType::EGL15(EGL15ConfigClientAPI::spec_from_bits(value as u32)),
            ),
        },
    }
}

/// What the native-renderable boolean decodes to: only the two boolean
/// sentinels decode, anything else is a boolean error.
pub open spec fn spec_native_renderable(reply: QueryReply) -> Result<bool, ConfigError> {
    match spec_query_attrib(reply) {
        Err(e) => Err(e),
        Ok(value) => if value == egl::TRUE {
            Ok(true)
        } else if value == egl::FALSE {
            Ok(false)
        } else {
            Err(ConfigError::BooleanError)
        },
    }
}

/// What the native-visual-id value decodes to: exactly zero is "no native
/// visual", any other non-negative value is the id, a negative value is an
/// integer-range error.
pub open spec fn spec_native_visual_id(reply: QueryReply) -> Result<Option<i32>, ConfigError> {
    match spec_query_attrib(reply) {
        Err(e) => Err(e),
        Ok(id) => if id == 0 {
            Ok(None)
        } else if id > 0 {
            Ok(Some(id))
        } else {
            Err(ConfigError::IntegerError(IntegerError::Negative))
        },
    }
}

/// What the native-visual-type value decodes to: the none sentinel means
/// there is none.
pub open spec fn spec_native_visual_type(reply: QueryReply) -> Result<Option<i32>, ConfigError> {
    match spec_query_attrib(reply) {
        Err(e) => Err(e),
        Ok(value) => if value == egl::NONE {
            Ok(None)
        } else {
            Ok(Some(value))
        },
    }
}

/// What the caveat value decodes to: the slow-config caveat is true, the
/// none and non-conformant caveats are false, anything else fails closed as
/// an enum error — never a guessed default.
pub open spec fn spec_slow_config(reply: QueryReply) -> Result<bool, ConfigError> {
    match spec_query_attrib(reply) {
        Err(e) => Err(e),
        Ok(caveat) => if caveat == egl::SLOW_CONFIG {
            Ok(true)
        } else if caveat == egl::NONE || caveat == egl::NON_CONFORMANT_CONFIG {
            Ok(false)
        } else {
            Err(ConfigError::EnumError)
        },
    }
}

/// What the transparency queries decode to: the type picks between "no
/// transparent color", the color (its components decoded as non-negative
/// integers in query order), and an enum error for unknown types.
pub open spec fn spec_transparent_rgb(replies: TransparentColorReplies) -> Result<
    Option<(UnsignedInteger, UnsignedInteger, UnsignedInteger)>,
    ConfigError,
> {
    match spec_query_attrib(replies.transparent_type) {
        Err(e) => Err(e),
        Ok(transparent_type) => if transparent_type == egl::TRANSPARENT_RGB {
            match spec_query_unsigned(replies.red_value) {
                Err(e) => Err(e),
                Ok(red) => match spec_query_unsigned(replies.green_value) {
                    Err(e) => Err(e),
                    Ok(green) => match spec_query_unsigned(replies.blue_value) {
                        Err(e) => Err(e),
                        Ok(blue) => Ok(Some((red, green, blue))),
                    },
                },
            }
        } else if transparent_type == egl::NONE {
            Ok(None)
        } else {
            Err(ConfigError::EnumError)
        },
    }
}

/// What the two off-screen-buffer size queries decode to, width first.
pub open spec fn spec_max_pbuffer_width_height(
    width_reply: QueryReply,
    height_reply: QueryReply,
) -> Result<(UnsignedInteger, UnsignedInteger), ConfigError> {
    match spec_query_unsigned(width_reply) {
        Err(e) => Err(e),
        Ok(width) => match spec_query_unsigned(height_reply) {
            Err(e) => Err(e),
            Ok(height) => Ok((width, height)),
        },
    }
}

/// What `Config::all` returns: every attribute decoded, or the first failing
/// decode in query order.
pub open spec fn spec_all_attributes(
    replies: AllAttributesReplies,
    extensions: DisplayExtensionSupport,
) -> Result<ConfigInfo, ConfigError> {
    match spec_query_positive(replies.config_id) {
        Err(e) => Err(e),
        Ok(config_id) => match spec_color_buffer(replies.color_buffer) {
            Err(e) => Err(e),
            Ok(color_buffer) => match spec_query_positive(replies.buffer_size) {
                Err(e) => Err(e),
                Ok(color_buffer_size) => match spec_query_positive_or_zero(
                    replies.alpha_mask_size,
                ) {
                    Err(e) => Err(e),
                    Ok(alpha_mask_buffer) => match spec_query_positive_or_zero(
                        replies.depth_size,
                    ) {
                        Err(e) => Err(e),
                        Ok(depth_buffer) => match spec_query_positive_or_zero(
                            replies.stencil_size,
                        ) {
                            Err(e) => Err(e),
                            Ok(stencil_buffer) => match spec_query_positive_or_zero(
                                replies.samples,
                            ) {
                                Err(e) => Err(e),
                                Ok(multisample_buffer_samples) => match spec_surface_type(
                                    replies.surface_type,
                                ) {
                                    Err(e) => Err(e),
                                    Ok(surface_type) => match spec_client_api(
                                        replies.renderable_type,
                                        extensions,
                                    ) {
                                        Err(e) => Err(e),
                                        Ok(client_api) => match spec_native_renderable(
                                            replies.native_renderable,
                                        ) {
                                            Err(e) => Err(e),
                                            Ok(native_renderable) => match spec_native_visual_id(
                                                replies.native_visual_id,
                                            ) {
                                                Err(e) => Err(e),
                                                Ok(native_visual_id) => match spec_native_visual_type(
                                                    replies.native_visual_type,
                                                ) {
                                                    Err(e) => Err(e),
                                                    Ok(native_visual_type) => match spec_slow_config(
                                                        replies.config_caveat,
                                                    ) {
                                                        Err(e) => Err(e),
                                                        Ok(slow_config) => match spec_client_api(
                                                            replies.conformant,
                                                            extensions,
                                                        ) {
                                                            Err(e) => Err(e),
                                                            Ok(client_api_conformance) => match spec_query_attrib(
                                                                replies.level,
                                                            ) {
                                                                Err(e) => Err(e),
                                                                Ok(level) => match spec_transparent_rgb(
                                                                    replies.transparent_color,
                                                                ) {
                                                                    Err(e) => Err(e),
                                                                    Ok(transparent_rgb) => match spec_max_pbuffer_width_height(
                                                                        replies.max_pbuffer_width,
                                                                        replies.max_pbuffer_height,
                                                                    ) {
                                                                        Err(e) => Err(e),
                                                                        Ok(
                                                                            max_pbuffer_width_height,
                                                                        ) => match spec_query_unsigned(
                                                                            replies.max_pbuffer_pixels,
                                                                        ) {
                                                                            Err(e) => Err(e),
                                                                            Ok(max_pbuffer_pixels)
                                                                                => match spec_query_unsigned(
                                                                                replies.max_swap_interval,
                                                                            ) {
                                                                                Err(e) => Err(e),
                                                                                Ok(
                                                                                    max_swap_interval,
                                                                                ) => match spec_query_unsigned(
                                                                                    replies.min_swap_interval,
                                                                                ) {
                                                                                    Err(e) => Err(
                                                                                        e,
                                                                                    ),
                                                                                    Ok(
                                                                                        min_swap_interval,
                                                                                    ) => Ok(
                                                                                        ConfigInfo {
                                                                                            config_id,
                                                                                            color_buffer,
                                                                                            color_buffer_size,
                                                                                            alpha_mask_buffer,
                                                                                            depth_buffer,
                                                                                            stencil_buffer,
                                                                                            multisample_buffer_samples,
                                                                                            surface_type,
                                                                                            client_api,
                                                                                            native_renderable,
                                                                                            native_visual_id,
                                                                                            native_visual_type,
                                                                                            slow_config,
                                                                                            client_api_conformance,
                                                                                            level,
                                                                                            transparent_rgb,
                                                                                            max_pbuffer_width_height,
                                                                                            max_pbuffer_pixels,
                                                                                            max_swap_interval,
                                                                                            min_swap_interval,
                                                                                        },
                                                                                    ),
                                                                                },
                                                                            },
                                                                        },
                                                                    },
                                                                },
                                                            },
                                                        },
                                                    },
                                                },
                                            },
                                        },
                                    },
                                },
                            },
                        },
                    },
                },
            },
        },
    }
}

impl Config {
    /// The color-buffer inference; see [`spec_color_buffer`] for the rule.
    pub fn color_buffer(&self, replies: &ColorBufferReplies) -> (r: ConfigResult<ColorBuffer>)
        ensures
            r == spec_color_buffer(*replies),
    {
        let color_buffer_type = self.query_attrib(replies.color_buffer_type)?;
        if color_buffer_type == egl::RGB_BUFFER {
            let red = self.query_positive_integer(replies.red_size)?;
            let green = self.query_positive_integer(replies.green_size)?;
            let blue = self.query_positive_integer(replies.blue_size)?;
            let alpha_value = self.query_attrib(replies.alpha_size)?;
            match PositiveInteger::try_convert(alpha_value) {
                Ok(alpha) => Ok(ColorBuffer::RGBA(red, green, blue, alpha)),
                Err(IntegerError::Zero) => Ok(ColorBuffer::RGB(red, green, blue)),
                Err(e) => Err(ConfigError::IntegerError(e)),
            }
        } else if color_buffer_type == egl::LUMINANCE_BUFFER {
            let luminance = self.query_positive_integer(replies.luminance_size)?;
            let alpha_value = self.query_attrib(replies.alpha_size)?;
            match PositiveInteger::try_convert(alpha_value) {
                Ok(alpha) => Ok(ColorBuffer::LuminanceAndAlpha(luminance, alpha)),
                Err(IntegerError::Zero) => Ok(ColorBuffer::Luminance(luminance)),
                Err(e) => Err(ConfigError::IntegerError(e)),
            }
        } else {
            Err(ConfigError::EnumError)
        }
    }

    /// Sum of color component bit counts.
    pub fn color_buffer_size(&self, reply: QueryReply) -> (r: ConfigResult<PositiveInteger>)
        ensures
            r == spec_query_positive(reply),
    {
        self.query_positive_integer(reply)
    }

    /// Alpha mask buffer bit count, `None` when the buffer is absent.
    pub fn alpha_mask_buffer(&self, reply: QueryReply) -> (r: ConfigResult<
        Option<PositiveInteger>,
    >)
        ensures
            r == spec_query_positive_or_zero(reply),
    {
        self.query_positive_integer_or_zero(reply)
    }

    /// Depth buffer bit count, `None` when the buffer is absent.
    pub fn depth_buffer(&self, reply: QueryReply) -> (r: ConfigResult<Option<PositiveInteger>>)
        ensures
            r == spec_query_positive_or_zero(reply),
    {
        self.query_positive_integer_or_zero(reply)
    }

    /// Stencil buffer bit count, `None` when the buffer is absent.
    pub fn stencil_buffer(&self, reply: QueryReply) -> (r: ConfigResult<Option<PositiveInteger>>)
        ensures
            r == spec_query_positive_or_zero(reply),
    {
        self.query_positive_integer_or_zero(reply)
    }

    /// Sample count of the multisample buffer, `None` when it is absent.
    pub fn multisample_buffer_samples(&self, reply: QueryReply) -> (r: ConfigResult<
        Option<PositiveInteger>,
    >)
        ensures
            r == spec_query_positive_or_zero(reply),
    {
        self.query_positive_integer_or_zero(reply)
    }

    /// The surface-type capability bitmask, decoded.
    pub fn surface_type(&self, reply: QueryReply) -> (r: ConfigResult<SurfaceType>)
        ensures
            r == spec_surface_type(reply),
    {
        let value = self.query_attrib(reply)?;
        Ok(SurfaceType::from_bits_truncate(value as u32))
    }

    /// The renderable-type bitmask, with the extension-defined bit removed
    /// when the create-context extension is not supported.
    pub fn client_api(&self, reply: QueryReply, extensions: &DisplayExtensionSupport) -> (r:
        ConfigResult<ConfigClientAPI>)
        ensures
            r == spec_client_api(reply, *extensions),
    {
        let value = self.query_attrib(reply)?;
        let client_api = ConfigClientAPI::from_bits_truncate(value as u32);
        if !extensions.create_context {
            Ok(client_api.remove_opengl_es3())
        } else {
            Ok(client_api)
        }
    }

    /// The conformant bitmask, decoded exactly as the renderable-type one.
    pub fn client_api_conformance(
        &self,
        reply: QueryReply,
        extensions: &DisplayExtensionSupport,
    ) -> (r: ConfigResult<ConfigClientAPI>)
        ensures
            r == spec_client_api(reply, *extensions),
    {
        let value = self.query_attrib(reply)?;
        let client_api = ConfigClientAPI::from_bits_truncate(value as u32);
        if !extensions.create_context {
            Ok(client_api.remove_opengl_es3())
        } else {
            Ok(client_api)
        }
    }

    /// The renderable-type bitmask, read under the display's version.
    pub fn renderable_type(&self, reply: QueryReply, version: EGLVersion) -> (r: ConfigResult<
        RenderableType,
    >)
        ensures
            r == spec_renderable_type(reply, version),
    {
        let value = self.query_attrib(reply)?;
        match version {
            EGLVersion::EGL_1_4 => Ok(
                RenderableType::EGL14(EGL14ConfigClientAPI::from_bits_truncate(value as u32)),
            ),
            EGLVersion::EGL_1_5 => Ok(
                RenderableType::EGL15(EGL15ConfigClientAPI::from_bits_truncate(value as u32)),
            ),
        }
    }

    /// Whether native rendering can target surfaces of this config.
    pub fn native_renderable(&self, reply: QueryReply) -> (r: ConfigResult<bool>)
        ensures
            r == spec_native_renderable(reply),
    {
        let value = self.query_attrib(reply)?;
        if value == egl::TRUE {
            Ok(true)
        } else if value == egl::FALSE {
            Ok(false)
        } else {
            Err(ConfigError::BooleanError)
        }
    }

    /// The native visual id; see [`spec_native_visual_id`] for the rule.
    pub fn native_visual_id(&self, reply: QueryReply) -> (r: ConfigResult<Option<i32>>)
        ensures
            r == spec_native_visual_id(reply),
    {
        let id = self.query_attrib(reply)?;
        if id == 0 {
            Ok(None)
        } else if id > 0 {
            Ok(Some(id))
        } else {
            Err(ConfigError::IntegerError(IntegerError::Negative))
        }
    }

    /// The native visual type; the none sentinel means there is none.
    pub fn native_visual_type(&self, reply: QueryReply) -> (r: ConfigResult<Option<i32>>)
        ensures
            r == spec_native_visual_type(reply),
    {
        let value = self.query_attrib(reply)?;
        if value == egl::NONE {
            Ok(None)
        } else {
            Ok(Some(value))
        }
    }

    /// Whether the config is marked slow; see [`spec_slow_config`].
    pub fn slow_config(&self, reply: QueryReply) -> (r: ConfigResult<bool>)
        ensures
            r == spec_slow_config(reply),
    {
        let caveat = self.query_attrib(reply)?;
        if caveat == egl::SLOW_CONFIG {
            Ok(true)
        } else if caveat == egl::NONE || caveat == egl::NON_CONFORMANT_CONFIG {
            Ok(false)
        } else {
            Err(ConfigError::EnumError)
        }
    }

    /// Framebuffer overlay or underlay level. Zero is the default level.
    pub fn level(&self, reply: QueryReply) -> (r: ConfigResult<i32>)
        ensures
            r == spec_query_attrib(reply),
    {
        self.query_attrib(reply)
    }

    /// The transparent color, when the transparency type declares one.
    pub fn transparent_rgb(&self, replies: &TransparentColorReplies) -> (r: ConfigResult<
        Option<(UnsignedInteger, UnsignedInteger, UnsignedInteger)>,
    >)
        ensures
            r == spec_transparent_rgb(*replies),
    {
        let transparent_type = self.query_attrib(replies.transparent_type)?;
        if transparent_type == egl::TRANSPARENT_RGB {
            let red = self.query_unsigned_integer(replies.red_value)?;
            let green = self.query_unsigned_integer(replies.green_value)?;
            let blue = self.query_unsigned_integer(replies.blue_value)?;
            Ok(Some((red, green, blue)))
        } else if transparent_type == egl::NONE {
            Ok(None)
        } else {
            Err(ConfigError::EnumError)
        }
    }

    /// The largest off-screen buffer the config supports, width and height.
    pub fn max_pbuffer_width_height(&self, width_reply: QueryReply, height_reply: QueryReply) -> (r:
        ConfigResult<(UnsignedInteger, UnsignedInteger)>)
        ensures
            r == spec_max_pbuffer_width_height(width_reply, height_reply),
    {
        let width = self.query_unsigned_integer(width_reply)?;
        let height = self.query_unsigned_integer(height_reply)?;
        Ok((width, height))
    }

    /// The largest off-screen buffer the config supports, in pixels.
    pub fn max_pbuffer_pixels(&self, reply: QueryReply) -> (r: ConfigResult<UnsignedInteger>)
        ensures
            r == spec_query_unsigned(reply),
    {
        self.query_unsigned_integer(reply)
    }

    pub fn max_swap_interval(&self, reply: QueryReply) -> (r: ConfigResult<UnsignedInteger>)
        ensures
            r == spec_query_unsigned(reply),
    {
        self.query_unsigned_integer(reply)
    }

    pub fn min_swap_interval(&self, reply: QueryReply) -> (r: ConfigResult<UnsignedInteger>)
        ensures
            r == spec_query_unsigned(reply),
    {
        self.query_unsigned_integer(reply)
    }

    /// EGL config ID attribute.
    pub fn config_id(&self, reply: QueryReply) -> (r: ConfigResult<PositiveInteger>)
        ensures
            r == spec_query_positive(reply),
    {
        self.query_positive_integer(reply)
    }

    /// Every typed attribute at once, from the raw replies of all the
    /// queries; the first failing decode, in query order, is the error.
    pub fn all(&self, replies: &AllAttributesReplies, extensions: &DisplayExtensionSupport) -> (r:
        ConfigResult<ConfigInfo>)
        ensures
            r == spec_all_attributes(*replies, *extensions),
    {
        Ok(
            ConfigInfo {
                config_id: self.config_id(replies.config_id)?,
                color_buffer: self.color_buffer(&replies.color_buffer)?,
                color_buffer_size: self.color_buffer_size(replies.buffer_size)?,
                alpha_mask_buffer: self.alpha_mask_buffer(replies.alpha_mask_size)?,
                depth_buffer: self.depth_buffer(replies.depth_size)?,
                stencil_buffer: self.stencil_buffer(replies.stencil_size)?,
                multisample_buffer_samples: self.multisample_buffer_samples(replies.samples)?,
                surface_type: self.surface_type(replies.surface_type)?,
                client_api: self.client_api(replies.renderable_type, extensions)?,
                native_renderable: self.native_renderable(replies.native_renderable)?,
                native_visual_id: self.native_visual_id(replies.native_visual_id)?,
                native_visual_type: self.native_visual_type(replies.native_visual_type)?,
                slow_config: self.slow_config(replies.config_caveat)?,
                client_api_conformance: self.client_api_conformance(
                    replies.conformant,
                    extensions,
                )?,
                level: self.level(replies.level)?,
                transparent_rgb: self.transparent_rgb(&replies.transparent_color)?,
                max_pbuffer_width_height: self.max_pbuffer_width_height(
                    replies.max_pbuffer_width,
                    replies.max_pbuffer_height,
                )?,
                max_pbuffer_pixels: self.max_pbuffer_pixels(replies.max_pbuffer_pixels)?,
                max_swap_interval: self.max_swap_interval(replies.max_swap_interval)?,
                min_swap_interval: self.min_swap_interval(replies.min_swap_interval)?,
            },
        )
    }
}

/// Law (color-buffer inference): for every set of replies whose buffer type
/// names the three-component family and whose size queries decode, a zero
/// alpha size yields the variant without an alpha buffer, a positive alpha
/// size the variant carrying exactly that alpha size, and a negative alpha
/// size an integer-range error — never a silent default. The one-component
/// family follows the same rule.
pub proof fn lemma_color_buffer_alpha_rule(replies: ColorBufferReplies)
    requires
        replies.color_buffer_type.ok,
        replies.red_size.ok && replies.red_size.value > 0,
        replies.green_size.ok && replies.green_size.value > 0,
        replies.blue_size.ok && replies.blue_size.value > 0,
        replies.luminance_size.ok && replies.luminance_size.value > 0,
        replies.alpha_size.ok,
    ensures
        replies.color_buffer_type.value == egl::RGB_BUFFER && replies.alpha_size.value == 0
            ==> (spec_color_buffer(replies) matches Ok(b) && b is RGB),
        replies.color_buffer_type.value == egl::RGB_BUFFER && replies.alpha_size.value > 0
            ==> (spec_color_buffer(replies) matches Ok(b) && (b matches ColorBuffer::RGBA(
            _,
            _,
            _,
            alpha,
        ) && alpha.spec_value() == replies.alpha_size.value)),
        replies.color_buffer_type.value == egl::LUMINANCE_BUFFER && replies.alpha_size.value == 0
            ==> (spec_color_buffer(replies) matches Ok(b) && b is Luminance),
        replies.color_buffer_type.value == egl::LUMINANCE_BUFFER && replies.alpha_size.value > 0
            ==> (spec_color_buffer(replies) matches Ok(b) && (b matches
            ColorBuffer::LuminanceAndAlpha(_, alpha) && alpha.spec_value()
            == replies.alpha_size.value)),
        (replies.color_buffer_type.value == egl::RGB_BUFFER || replies.color_buffer_type.value
            == egl::LUMINANCE_BUFFER) && replies.alpha_size.value < 0 ==> spec_color_buffer(
            replies,
        ) == Err::<ColorBuffer, ConfigError>(
            ConfigError::IntegerError(IntegerError::Negative),
        ),
{
    if replies.alpha_size.value > 0 {
        PositiveInteger::lemma_spec_new_value(replies.alpha_size.value as int);
    }
}

/// Law (native-visual-id zero-is-none): when the query succeeds, the decode
/// is `None` exactly on the raw value zero, `Some` of the value exactly on
/// positive values, and an error exactly on negative values.
pub proof fn lemma_native_visual_id_zero_is_none(reply: QueryReply)
    requires
        reply.ok,
    ensures
        spec_native_visual_id(reply) == Ok::<Option<i32>, ConfigError>(None::<i32>) <==> reply.value
            == 0,
        spec_native_visual_id(reply) == Ok::<Option<i32>, ConfigError>(Some(reply.value)) <==> reply.value
            > 0,
        spec_native_visual_id(reply) is Err <==> reply.value < 0,
{
}

} // verus!
