//! Convoy: an MQTT bridge between a local and a remote broker, with a
//! cache for local-to-remote messages while the remote side is away.

pub mod bridge;
pub mod cache;
pub mod config;
pub mod error;
pub mod messages;
pub mod mqtt_utils;
pub mod replay;
pub mod tasks;
pub mod text;
pub mod topic;
pub mod util;

pub use bridge::Bridge;
pub use cache::CachedMessage;
pub use config::{
    BridgeConfig, BrokerConfig, CacheConfig, Config, EvictionPolicy, ForwardRule, SubscribeRule,
    SynchronousMode, TlsConfig,
};
pub use error::{BridgeError, Result};
pub use topic::{apply_forward_mapping, apply_subscribe_mapping, topic_matches_filter};
