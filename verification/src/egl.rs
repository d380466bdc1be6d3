//! Constant values of the native API (EGL 1.4/1.5 plus the extensions this
//! crate understands), as the native headers define them.
//!
//! Handles (`EGLDisplay`, `EGLConfig`, `EGLContext`, `EGLSurface`) cross the
//! native boundary as pointer-sized tokens; the null token stands for
//! `EGL_NO_DISPLAY`, `EGL_NO_CONTEXT` and `EGL_NO_SURFACE`.

use vstd::prelude::*;

verus! {

// Boolean results of native calls.
pub const FALSE: i32 = 0;
pub const TRUE: i32 = 1;

// The null handle: EGL_NO_DISPLAY, EGL_NO_CONTEXT, EGL_NO_SURFACE.
pub const NO_HANDLE: usize = 0;

// Error codes returned by the error query.
pub const SUCCESS: i32 = 0x3000;
pub const NOT_INITIALIZED: i32 = 0x3001;
pub const BAD_ACCESS: i32 = 0x3002;
pub const BAD_ALLOC: i32 = 0x3003;
pub const BAD_ATTRIBUTE: i32 = 0x3004;
pub const BAD_CONFIG: i32 = 0x3005;
pub const BAD_CONTEXT: i32 = 0x3006;
pub const BAD_CURRENT_SURFACE: i32 = 0x3007;
pub const BAD_DISPLAY: i32 = 0x3008;
pub const BAD_MATCH: i32 = 0x3009;
pub const BAD_NATIVE_PIXMAP: i32 = 0x300A;
pub const BAD_NATIVE_WINDOW: i32 = 0x300B;
pub const BAD_PARAMETER: i32 = 0x300C;
pub const BAD_SURFACE: i32 = 0x300D;
pub const CONTEXT_LOST: i32 = 0x300E;

// Config attributes.
pub const BUFFER_SIZE: i32 = 0x3020;
pub const ALPHA_SIZE: i32 = 0x3021;
pub const BLUE_SIZE: i32 = 0x3022;
pub const GREEN_SIZE: i32 = 0x3023;
pub const RED_SIZE: i32 = 0x3024;
pub const DEPTH_SIZE: i32 = 0x3025;
pub const STENCIL_SIZE: i32 = 0x3026;
pub const CONFIG_CAVEAT: i32 = 0x3027;
pub const CONFIG_ID: i32 = 0x3028;
pub const LEVEL: i32 = 0x3029;
pub const MAX_PBUFFER_HEIGHT: i32 = 0x302A;
pub const MAX_PBUFFER_PIXELS: i32 = 0x302B;
pub const MAX_PBUFFER_WIDTH: i32 = 0x302C;
pub const NATIVE_RENDERABLE: i32 = 0x302D;
pub const NATIVE_VISUAL_ID: i32 = 0x302E;
pub const NATIVE_VISUAL_TYPE: i32 = 0x302F;
pub const SAMPLES: i32 = 0x3031;
pub const SAMPLE_BUFFERS: i32 = 0x3032;
pub const SURFACE_TYPE: i32 = 0x3033;
pub const TRANSPARENT_TYPE: i32 = 0x3034;
pub const TRANSPARENT_BLUE_VALUE: i32 = 0x3035;
pub const TRANSPARENT_GREEN_VALUE: i32 = 0x3036;
pub const TRANSPARENT_RED_VALUE: i32 = 0x3037;
pub const NONE: i32 = 0x3038;
pub const MIN_SWAP_INTERVAL: i32 = 0x303B;
pub const MAX_SWAP_INTERVAL: i32 = 0x303C;
pub const LUMINANCE_SIZE: i32 = 0x303D;
pub const ALPHA_MASK_SIZE: i32 = 0x303E;
pub const COLOR_BUFFER_TYPE: i32 = 0x303F;
pub const RENDERABLE_TYPE: i32 = 0x3040;
pub const MATCH_NATIVE_PIXMAP: i32 = 0x3041;
pub const CONFORMANT: i32 = 0x3042;

// The wildcard search value: all bits of an EGLint set.
pub const DONT_CARE: i32 = -1;

// Config caveat values.
pub const SLOW_CONFIG: i32 = 0x3050;
pub const NON_CONFORMANT_CONFIG: i32 = 0x3051;
pub const TRANSPARENT_RGB: i32 = 0x3052;

// String names for the display string query.
pub const VENDOR: i32 = 0x3053;
pub const VERSION: i32 = 0x3054;
pub const EXTENSIONS: i32 = 0x3055;
pub const CLIENT_APIS: i32 = 0x308D;

// Color buffer types.
pub const RGB_BUFFER: i32 = 0x308E;
pub const LUMINANCE_BUFFER: i32 = 0x308F;

// Surface attributes.
pub const HEIGHT: i32 = 0x3056;
pub const WIDTH: i32 = 0x3057;
pub const LARGEST_PBUFFER: i32 = 0x3058;
pub const NO_TEXTURE: i32 = 0x305C;
pub const TEXTURE_RGB: i32 = 0x305D;
pub const TEXTURE_RGBA: i32 = 0x305E;
pub const TEXTURE_2D: i32 = 0x305F;
pub const TEXTURE_FORMAT: i32 = 0x3080;
pub const TEXTURE_TARGET: i32 = 0x3081;
pub const MIPMAP_TEXTURE: i32 = 0x3082;
pub const MIPMAP_LEVEL: i32 = 0x3083;
pub const BACK_BUFFER: i32 = 0x3084;
pub const SINGLE_BUFFER: i32 = 0x3085;
pub const RENDER_BUFFER: i32 = 0x3086;
pub const VG_COLORSPACE: i32 = 0x3087;
pub const VG_ALPHA_FORMAT: i32 = 0x3088;
pub const HORIZONTAL_RESOLUTION: i32 = 0x3090;
pub const VERTICAL_RESOLUTION: i32 = 0x3091;
pub const PIXEL_ASPECT_RATIO: i32 = 0x3092;
pub const SWAP_BEHAVIOR: i32 = 0x3093;
pub const BUFFER_PRESERVED: i32 = 0x3094;
pub const BUFFER_DESTROYED: i32 = 0x3095;
pub const MULTISAMPLE_RESOLVE: i32 = 0x3099;
pub const MULTISAMPLE_RESOLVE_DEFAULT: i32 = 0x309A;
pub const MULTISAMPLE_RESOLVE_BOX: i32 = 0x309B;

// Context attributes and client API names.
pub const CONTEXT_CLIENT_TYPE: i32 = 0x3097;
pub const CONTEXT_CLIENT_VERSION: i32 = 0x3098;
pub const OPENGL_ES_API: i32 = 0x30A0;
pub const OPENVG_API: i32 = 0x30A1;
pub const OPENGL_API: i32 = 0x30A2;

// Surface type bits.
pub const PBUFFER_BIT: u32 = 0x0001;
pub const PIXMAP_BIT: u32 = 0x0002;
pub const WINDOW_BIT: u32 = 0x0004;
pub const VG_COLORSPACE_LINEAR_BIT: u32 = 0x0020;
pub const VG_ALPHA_FORMAT_PRE_BIT: u32 = 0x0040;
pub const MULTISAMPLE_RESOLVE_BOX_BIT: u32 = 0x0200;
pub const SWAP_BEHAVIOR_PRESERVED_BIT: u32 = 0x0400;

// Renderable type and conformance bits.
pub const OPENGL_ES_BIT: u32 = 0x0001;
pub const OPENVG_BIT: u32 = 0x0002;
pub const OPENGL_ES2_BIT: u32 = 0x0004;
pub const OPENGL_BIT: u32 = 0x0008;
/// Defined by the create-context extension (and by the 1.5 core).
pub const OPENGL_ES3_BIT: u32 = 0x0040;

// Values of the create-context extension.
pub const CONTEXT_MAJOR_VERSION_KHR: i32 = 0x3098;
pub const CONTEXT_MINOR_VERSION_KHR: i32 = 0x30FB;
pub const CONTEXT_FLAGS_KHR: i32 = 0x30FC;
pub const CONTEXT_OPENGL_PROFILE_MASK_KHR: i32 = 0x30FD;
pub const CONTEXT_OPENGL_RESET_NOTIFICATION_STRATEGY_KHR: i32 = 0x31BD;
pub const NO_RESET_NOTIFICATION_KHR: i32 = 0x31BE;
pub const LOSE_CONTEXT_ON_RESET_KHR: i32 = 0x31BF;
pub const CONTEXT_OPENGL_DEBUG_BIT_KHR: u32 = 0x0001;
pub const CONTEXT_OPENGL_FORWARD_COMPATIBLE_BIT_KHR: u32 = 0x0002;
pub const CONTEXT_OPENGL_ROBUST_ACCESS_BIT_KHR: u32 = 0x0004;
pub const CONTEXT_OPENGL_CORE_PROFILE_BIT_KHR: u32 = 0x0001;
pub const CONTEXT_OPENGL_COMPATIBILITY_PROFILE_BIT_KHR: u32 = 0x0002;

// Values of the platform-display extensions.
pub const PLATFORM_X11_EXT: u32 = 0x31D5;
pub const PLATFORM_WAYLAND_EXT: u32 = 0x31D8;

} // verus!
