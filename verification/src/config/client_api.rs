//! Client-API-specific config wrappers, obtained only through the
//! capability-gated conversions on a display.

use vstd::prelude::*;

use crate::config::DisplayConfig;

verus! {

/// A config whose renderable-type bitmask showed the desktop client API.
#[derive(Debug, Copy, Clone)]
pub struct ConfigOpenGL {
    display_config: DisplayConfig,
}

impl ConfigOpenGL {
    pub closed spec fn spec_display_config(&self) -> DisplayConfig {
        self.display_config
    }

    pub(crate) fn new(display_config: DisplayConfig) -> (r: ConfigOpenGL)
        ensures
            r.spec_display_config() == display_config,
    {
        ConfigOpenGL { display_config }
    }

    pub fn display_config(&self) -> (r: &DisplayConfig)
        ensures
            r == &self.spec_display_config(),
    {
        &self.display_config
    }
}

/// A config whose renderable-type bitmask showed the embedded client API.
#[derive(Debug, Copy, Clone)]
pub struct ConfigOpenGLES {
    display_config: DisplayConfig,
}

impl ConfigOpenGLES {
    pub closed spec fn spec_display_config(&self) -> DisplayConfig {
        self.display_config
    }

    pub(crate) fn new(display_config: DisplayConfig) -> (r: ConfigOpenGLES)
        ensures
            r.spec_display_config() == display_config,
    {
        ConfigOpenGLES { display_config }
    }

    pub fn display_config(&self) -> (r: &DisplayConfig)
        ensures
            r == &self.spec_display_config(),
    {
        &self.display_config
    }
}

/// A config whose surface-type bitmask showed the window capability.
#[derive(Debug, Copy, Clone)]
pub struct ConfigWindow {
    display_config: DisplayConfig,
}

impl ConfigWindow {
    pub closed spec fn spec_display_config(&self) -> DisplayConfig {
        self.display_config
    }

    pub(crate) fn new(display_config: DisplayConfig) -> (r: ConfigWindow)
        ensures
            r.spec_display_config() == display_config,
    {
        ConfigWindow { display_config }
    }

    pub fn display_config(&self) -> (r: &DisplayConfig)
        ensures
            r == &self.spec_display_config(),
    {
        &self.display_config
    }
}

} // verus!
