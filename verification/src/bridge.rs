//! The bridge: its configuration and that of its cache. Running it (the
//! broker connections, the tasks and their channels) is done by the
//! program around the library.

use vstd::prelude::*;

use crate::config::{BridgeConfig, CacheConfig};
use crate::error::Result;

verus! {

/// A bridge between a local and a remote broker.
#[derive(Debug)]
pub struct Bridge {
    config: BridgeConfig,
    cache_config: CacheConfig,
}

impl Bridge {
    /// The bridge's configuration.
    pub closed spec fn spec_config(&self) -> BridgeConfig {
        self.config
    }

    /// The configuration of the bridge's cache.
    pub closed spec fn spec_cache_config(&self) -> CacheConfig {
        self.cache_config
    }

    /// A bridge with the given configurations; this always succeeds.
    pub fn new(config: BridgeConfig, cache_config: CacheConfig) -> (r: Result<Self>)
        ensures
            r matches Ok(b) && b.spec_config() == config && b.spec_cache_config() == cache_config,
    {
        Ok(Bridge { config, cache_config })
    }

    /// The bridge's configuration.
    pub fn config(&self) -> (r: &BridgeConfig)
        ensures
            *r == self.spec_config(),
    {
        &self.config
    }

    /// The configuration of the bridge's cache.
    pub fn cache_config(&self) -> (r: &CacheConfig)
        ensures
            *r == self.spec_cache_config(),
    {
        &self.cache_config
    }
}

} // verus!
