//! Native configurations: handles, query decoding, and the capability checks
//! that gate every context- and surface-builder conversion.

pub mod attribute;
pub mod client_api;
pub mod search;

use vstd::prelude::*;

use crate::config::attribute::{ConfigClientAPI, SurfaceType};
use crate::display::DisplayExtensionSupport;
use crate::utils::{IntegerError, PositiveInteger, QueryReply, UnsignedInteger};

verus! {

/// Why a typed config query failed.
#[derive(Debug, Copy, Clone, PartialEq, Eq, Structural)]
pub enum ConfigError {
    QueryError,
    BooleanError,
    EnumError,
    IntegerError(IntegerError),
}

impl From<IntegerError> for ConfigError {
    fn from(error: IntegerError) -> (r: Self) {
        ConfigError::IntegerError(error)
    }
}

impl vstd::std_specs::convert::FromSpecImpl<IntegerError> for ConfigError {
    open spec fn obeys_from_spec() -> bool {
        true
    }

    open spec fn from_spec(error: IntegerError) -> Self {
        ConfigError::IntegerError(error)
    }
}

pub type ConfigResult<T> = Result<T, ConfigError>;

/// What a raw attribute reply decodes to: the value when the native call
/// succeeded, the query error otherwise.
pub open spec fn spec_query_attrib(reply: QueryReply) -> ConfigResult<i32> {
    if reply.ok {
        Ok(reply.value)
    } else {
        Err(ConfigError::QueryError)
    }
}

/// What a raw reply decodes to as a strictly positive integer.
pub open spec fn spec_query_positive(reply: QueryReply) -> ConfigResult<PositiveInteger> {
    if !reply.ok {
        Err(ConfigError::QueryError)
    } else if reply.value > 0 {
        Ok(PositiveInteger::spec_new(reply.value as int))
    } else if reply.value == 0 {
        Err(ConfigError::IntegerError(IntegerError::Zero))
    } else {
        Err(ConfigError::IntegerError(IntegerError::Negative))
    }
}

/// What a raw reply decodes to as a non-negative integer.
pub open spec fn spec_query_unsigned(reply: QueryReply) -> ConfigResult<UnsignedInteger> {
    if !reply.ok {
        Err(ConfigError::QueryError)
    } else if reply.value >= 0 {
        Ok(UnsignedInteger::spec_new(reply.value as int))
    } else {
        Err(ConfigError::IntegerError(IntegerError::Negative))
    }
}

/// What a raw reply decodes to where zero means "absent", not an error.
pub open spec fn spec_query_positive_or_zero(reply: QueryReply) -> ConfigResult<
    Option<PositiveInteger>,
> {
    if !reply.ok {
        Err(ConfigError::QueryError)
    } else if reply.value > 0 {
        Ok(Some(PositiveInteger::spec_new(reply.value as int)))
    } else if reply.value == 0 {
        Ok(None)
    } else {
        Err(ConfigError::IntegerError(IntegerError::Negative))
    }
}

/// One opaque native configuration handle out of a query result.
#[derive(Debug, Copy, Clone)]
pub struct Config {
    pub raw_config: usize,
}

impl Config {
    pub fn raw(&self) -> (r: usize)
        ensures
            r == self.raw_config,
    {
        self.raw_config
    }

    /// A raw attribute reply passes through unchanged; a failed native call
    /// is the query error.
    pub fn query_attrib(&self, reply: QueryReply) -> (r: ConfigResult<i32>)
        ensures
            r == spec_query_attrib(reply),
    {
        if reply.ok {
            Ok(reply.value)
        } else {
            Err(ConfigError::QueryError)
        }
    }

    pub fn query_positive_integer(&self, reply: QueryReply) -> (r: ConfigResult<PositiveInteger>)
        ensures
            r == spec_query_positive(reply),
            reply.ok && reply.value > 0 ==> (r matches Ok(p) && p.spec_value() == reply.value),
    {
        let value = self.query_attrib(reply)?;
        match PositiveInteger::try_convert(value) {
            Ok(p) => Ok(p),
            Err(e) => Err(ConfigError::IntegerError(e)),
        }
    }

    pub fn query_unsigned_integer(&self, reply: QueryReply) -> (r: ConfigResult<UnsignedInteger>)
        ensures
            r == spec_query_unsigned(reply),
            reply.ok && reply.value >= 0 ==> (r matches Ok(u) && u.spec_value() == reply.value),
    {
        let value = self.query_attrib(reply)?;
        match UnsignedInteger::try_convert(value) {
            Ok(u) => Ok(u),
            Err(e) => Err(ConfigError::IntegerError(e)),
        }
    }

    /// A zero value means "buffer absent", not an error.
    pub fn query_positive_integer_or_zero(&self, reply: QueryReply) -> (r: ConfigResult<
        Option<PositiveInteger>,
    >)
        ensures
            r == spec_query_positive_or_zero(reply),
            reply.ok && reply.value > 0 ==> (r matches Ok(o) && o matches Some(p)
                && p.spec_value() == reply.value),
    {
        let value = self.query_attrib(reply)?;
        match PositiveInteger::try_convert(value) {
            Ok(p) => Ok(Some(p)),
            Err(IntegerError::Zero) => Ok(None),
            Err(e) => Err(ConfigError::IntegerError(e)),
        }
    }

    /// Whether the config can host a window surface: the window bit of the
    /// queried surface-type bitmask.
    pub fn window_config(&self, surface_type_reply: QueryReply) -> (r: ConfigResult<bool>)
        ensures
            !surface_type_reply.ok ==> r == Err::<bool, ConfigError>(ConfigError::QueryError),
            surface_type_reply.ok ==> r == Ok::<bool, ConfigError>(
                SurfaceType::spec_from_bits(surface_type_reply.value as u32).window,
            ),
    {
        let flags = self.surface_type(surface_type_reply)?;
        Ok(flags.window)
    }

    /// Whether the config supports the desktop client API: the matching bit
    /// of the queried renderable-type bitmask.
    pub fn opengl_config(
        &self,
        renderable_type_reply: QueryReply,
        extensions: &DisplayExtensionSupport,
    ) -> (r: ConfigResult<bool>)
        ensures
            !renderable_type_reply.ok ==> r == Err::<bool, ConfigError>(ConfigError::QueryError),
            renderable_type_reply.ok ==> r == Ok::<bool, ConfigError>(
                ConfigClientAPI::spec_from_bits(renderable_type_reply.value as u32).opengl,
            ),
    {
        let flags = self.client_api(renderable_type_reply, extensions)?;
        Ok(flags.opengl)
    }

    pub fn opengl_es_1_config(
        &self,
        renderable_type_reply: QueryReply,
        extensions: &DisplayExtensionSupport,
    ) -> (r: ConfigResult<bool>)
        ensures
            !renderable_type_reply.ok ==> r == Err::<bool, ConfigError>(ConfigError::QueryError),
            renderable_type_reply.ok ==> r == Ok::<bool, ConfigError>(
                ConfigClientAPI::spec_from_bits(renderable_type_reply.value as u32).opengl_es,
            ),
    {
        let flags = self.client_api(renderable_type_reply, extensions)?;
        Ok(flags.opengl_es)
    }

    pub fn opengl_es_2_config(
        &self,
        renderable_type_reply: QueryReply,
        extensions: &DisplayExtensionSupport,
    ) -> (r: ConfigResult<bool>)
        ensures
            !renderable_type_reply.ok ==> r == Err::<bool, ConfigError>(ConfigError::QueryError),
            renderable_type_reply.ok ==> r == Ok::<bool, ConfigError>(
                ConfigClientAPI::spec_from_bits(renderable_type_reply.value as u32).opengl_es2,
            ),
    {
        let flags = self.client_api(renderable_type_reply, extensions)?;
        Ok(flags.opengl_es2)
    }

    /// The third major version's bit is defined by the create-context
    /// extension, so without that extension this is false whatever the
    /// bitmask holds.
    pub fn opengl_es_3_config(
        &self,
        renderable_type_reply: QueryReply,
        extensions: &DisplayExtensionSupport,
    ) -> (r: ConfigResult<bool>)
        ensures
            !renderable_type_reply.ok ==> r == Err::<bool, ConfigError>(ConfigError::QueryError),
            renderable_type_reply.ok ==> r == Ok::<bool, ConfigError>(
                ConfigClientAPI::spec_from_bits(renderable_type_reply.value as u32).opengl_es3_khr
                    && extensions.create_context,
            ),
    {
        let flags = self.client_api(renderable_type_reply, extensions)?;
        Ok(flags.opengl_es3_khr)
    }
}

/// A config bound to its display, held by every context and surface derived
/// from it.
#[derive(Debug, Copy, Clone)]
pub struct DisplayConfig {
    pub raw_display: usize,
    pub raw_config: usize,
}

impl DisplayConfig {
    pub(crate) fn new(raw_display: usize, raw_config: usize) -> (r: DisplayConfig)
        ensures
            r == (DisplayConfig { raw_display, raw_config }),
    {
        DisplayConfig { raw_display, raw_config }
    }

    pub fn raw_display(&self) -> (r: usize)
        ensures
            r == self.raw_display,
    {
        self.raw_display
    }

    pub fn raw_config(&self) -> (r: usize)
        ensures
            r == self.raw_config,
    {
        self.raw_config
    }
}

/// The configs a native enumeration or search returned.
#[derive(Debug)]
pub struct Configs {
    raw_configs: Vec<usize>,
}

impl Configs {
    /// The raw config handles, in the order the native side returned them.
    pub closed spec fn view(&self) -> Seq<usize> {
        self.raw_configs@
    }

    pub(crate) fn new(raw_configs: Vec<usize>) -> (r: Configs)
        ensures
            r.view() == raw_configs@,
    {
        Configs { raw_configs }
    }

    /// Query result count.
    pub fn count(&self) -> (r: usize)
        ensures
            r == self.view().len(),
    {
        self.raw_configs.len()
    }

    pub fn get(&self, index: usize) -> (r: Option<Config>)
        ensures
            index < self.view().len() ==> r == Some(Config { raw_config: self.view()[index as int] }),
            index >= self.view().len() ==> r is None,
    {
        if index < self.raw_configs.len() {
            Some(Config { raw_config: self.raw_configs[index] })
        } else {
            None
        }
    }
}

} // verus!
