//! Static configuration of the model, fixed at startup.

use vstd::prelude::*;
use crate::params::DecodingParams;

verus! {

/// Where the model runs.
#[derive(Clone, Copy, Debug, PartialEq, Eq, Structural)]
pub enum Device {
    Cpu,
    /// The GPU with this index.
    Cuda(usize),
}

/// One pretrained resource: the name it is cached under and where it is fetched from.
#[derive(Debug)]
pub struct ResourceId {
    pub name: String,
    pub url: String,
}

impl ResourceId {
    pub open spec fn wf(&self) -> bool {
        self.name@.len() > 0 && self.url@.len() > 0
    }

    pub fn is_wf(&self) -> (r: bool)
        ensures
            r == self.wf(),
    {
        self.name.as_str().unicode_len() > 0 && self.url.as_str().unicode_len() > 0
    }
}

/// Why a configuration was refused at startup.
#[derive(Clone, Copy, Debug, PartialEq, Eq, Structural)]
pub enum ConfigError {
    /// A resource has an empty name or location.
    MissingResource,
    /// The default decoding parameters are not valid.
    InvalidDefaults,
}

/// The four resources of the model, its default decoding parameters and
/// its device.
#[derive(Debug)]
pub struct ModelConfig {
    pub config_resource: ResourceId,
    pub vocab_resource: ResourceId,
    pub merges_resource: ResourceId,
    pub model_resource: ResourceId,
    pub defaults: DecodingParams,
    pub device: Device,
}

impl ModelConfig {
    pub open spec fn resources_wf(&self) -> bool {
        &&& self.config_resource.wf()
        &&& self.vocab_resource.wf()
        &&& self.merges_resource.wf()
        &&& self.model_resource.wf()
    }

    pub open spec fn wf(&self) -> bool {
        self.resources_wf() && self.defaults.valid()
    }

    /// Builds a configuration, refusing one with a missing resource first and
    /// then one whose defaults are not valid.
    pub fn new(
        config_resource: ResourceId,
        vocab_resource: ResourceId,
        merges_resource: ResourceId,
        model_resource: ResourceId,
        defaults: DecodingParams,
        device: Device,
    ) -> (r: Result<ModelConfig, ConfigError>)
        ensures
            match r {
                Ok(c) => {
                    &&& c.wf()
                    &&& c.config_resource == config_resource
                    &&& c.vocab_resource == vocab_resource
                    &&& c.merges_resource == merges_resource
                    &&& c.model_resource == model_resource
                    &&& c.defaults == defaults
                    &&& c.device == device
                },
                Err(e) => e == if !(config_resource.wf() && vocab_resource.wf() && merges_resource.wf()
                    && model_resource.wf()) {
                    ConfigError::MissingResource
                } else {
                    ConfigError::InvalidDefaults
                },
            },
            r is Ok <==> (config_resource.wf() && vocab_resource.wf() && merges_resource.wf()
                && model_resource.wf() && defaults.valid()),
    {
        if !(config_resource.is_wf() && vocab_resource.is_wf() && merges_resource.is_wf()
            && model_resource.is_wf()) {
            return Err(ConfigError::MissingResource);
        }
        if !defaults.is_valid() {
            return Err(ConfigError::InvalidDefaults);
        }
        Ok(ModelConfig { config_resource, vocab_resource, merges_resource, model_resource, defaults, device })
    }
}

} // verus!
