//! Configuration of the bridge and of its message cache.
//!
//! These are the plain values that the rest of the library reads. File
//! paths are held as strings; reading them from a TOML file is done by the
//! program around the library.

use vstd::prelude::*;

verus! {

/// Top-level configuration: the bridge connections and the cache.
#[derive(Debug, Clone, PartialEq, Eq)]
pub struct Config {
    /// Bridge connection settings
    pub bridge: BridgeConfig,
    /// Cache configuration
    pub cache: CacheConfig,
}

/// Connections to both brokers, the topic rules, and the bridge state topic
/// with its online and offline payloads.
#[derive(Debug, Clone, PartialEq, Eq)]
pub struct BridgeConfig {
    /// Local broker configuration
    pub local: BrokerConfig,
    /// Remote broker configuration
    pub remote: BrokerConfig,
    /// Topic (on the remote broker) that carries the bridge state
    pub state_topic: String,
    /// Payload published when the bridge comes online
    pub state_online_payload: String,
    /// Payload of the last will, published when the bridge goes offline
    pub state_offline_payload: String,
    /// Rules for forwarding topics from the local to the remote broker
    pub forward: Vec<ForwardRule>,
    /// Rules for subscribing to remote topics and forwarding them locally
    pub subscribe: Vec<SubscribeRule>,
}

/// Settings of one broker connection.
#[derive(Debug, Clone, PartialEq, Eq)]
pub struct BrokerConfig {
    /// Broker address, `host:port` or just `host`
    pub addr: String,
    /// Client ID for this connection
    pub client_id: String,
    /// Keep-alive interval in seconds
    pub keep_alive_secs: u16,
    /// Whether to use a clean session
    pub clean_session: bool,
    /// Maximum number of in-flight messages
    pub max_inflight: u16,
    /// Username for broker authentication
    pub username: Option<String>,
    /// Password for broker authentication
    pub password: Option<String>,
    /// TLS configuration
    pub tls: Option<TlsConfig>,
}

/// TLS settings of a broker connection.
#[derive(Debug, Clone, PartialEq, Eq)]
pub struct TlsConfig {
    /// Path of a CA certificate file (PEM) for server verification
    pub ca_file: Option<String>,
    /// Path of a PKCS12 client certificate for mutual TLS
    pub client_cert: Option<String>,
    /// Password of the PKCS12 client certificate
    pub client_password: Option<String>,
    /// Skip certificate verification (insecure, for testing only)
    pub danger_accept_invalid_certs: bool,
}

/// Local-to-remote rule: local topics matching `local_filter` are forwarded
/// with `remote_prefix` put in front of them.
#[derive(Debug, Clone, PartialEq, Eq, Hash)]
pub struct ForwardRule {
    /// Topic filter with wildcards (`+`, `#`) over local topics
    pub local_filter: String,
    /// Prefix put in front of matched topics on the remote broker
    pub remote_prefix: String,
    /// QoS level of forwarded messages (0, 1 or 2)
    pub qos: u8,
}

/// Remote-to-local rule: remote topics matching `remote_filter` are
/// forwarded locally with `remote_prefix` taken off.
#[derive(Debug, Clone, PartialEq, Eq, Hash)]
pub struct SubscribeRule {
    /// Topic filter with wildcards (`+`, `#`) to subscribe to on the remote
    pub remote_filter: String,
    /// Prefix taken off remote topics before forwarding them locally
    pub remote_prefix: String,
    /// QoS level of the subscription (0, 1 or 2)
    pub qos: u8,
}

/// Settings of the message cache.
#[derive(Debug, Clone, PartialEq, Eq)]
pub struct CacheConfig {
    /// Path of the SQLite database file
    pub sqlite_path: String,
    /// Whether QoS 0 messages are cached
    pub cache_qos0: bool,
    /// Maximum number of cached messages (0: no limit)
    pub max_rows: usize,
    /// What happens when the cache holds `max_rows` messages
    pub eviction: EvictionPolicy,
    /// Number of messages replayed per batch
    pub flush_batch: usize,
    /// Milliseconds between replay batches
    pub flush_interval_ms: u64,
    /// SQLite busy timeout in milliseconds
    pub busy_timeout_ms: u64,
    /// SQLite synchronous mode
    pub synchronous: SynchronousMode,
}

/// What to do with a new message when the cache is full.
#[derive(Debug, Clone, Copy, PartialEq, Eq, Hash)]
pub enum EvictionPolicy {
    /// Delete the oldest messages to make room for the new one
    DropOldest,
    /// Refuse the new message
    RejectNew,
}

/// SQLite synchronous mode (durability against speed).
#[derive(Debug, Clone, Copy, PartialEq, Eq, Hash)]
pub enum SynchronousMode {
    /// Maximum durability
    Full,
    /// Balanced durability and speed
    Normal,
    /// Minimal durability
    Off,
}

/// Default keep-alive interval, in seconds.
pub fn default_keep_alive_secs() -> (r: u16)
    ensures
        r == 30,
{
    30
}

/// Default maximum number of in-flight messages.
pub fn default_max_inflight() -> (r: u16)
    ensures
        r == 100,
{
    100
}

/// Default maximum number of cached messages.
pub fn default_max_rows() -> (r: usize)
    ensures
        r == 500_000,
{
    500_000
}

/// Default eviction policy: drop the oldest messages.
pub fn default_eviction() -> (r: EvictionPolicy)
    ensures
        r == EvictionPolicy::DropOldest,
{
    EvictionPolicy::DropOldest
}

/// Default number of messages per replay batch.
pub fn default_flush_batch() -> (r: usize)
    ensures
        r == 1000,
{
    1000
}

/// Default pause between replay batches, in milliseconds.
pub fn default_flush_interval_ms() -> (r: u64)
    ensures
        r == 100,
{
    100
}

/// Default SQLite busy timeout, in milliseconds.
pub fn default_busy_timeout_ms() -> (r: u64)
    ensures
        r == 5000,
{
    5000
}

/// Default SQLite synchronous mode: full durability.
pub fn default_synchronous() -> (r: SynchronousMode)
    ensures
        r == SynchronousMode::Full,
{
    SynchronousMode::Full
}

impl Config {
    /// A configuration made of the given bridge and cache settings.
    pub fn new(bridge: BridgeConfig, cache: CacheConfig) -> (r: Self)
        ensures
            r.bridge == bridge,
            r.cache == cache,
    {
        Config { bridge, cache }
    }
}

impl Default for CacheConfig {
    /// The cache at `cache.sqlite` with every other setting at its default.
    fn default() -> (r: Self)
        ensures
            r.sqlite_path@ == "cache.sqlite"@,
            r.cache_qos0 == false,
            r.max_rows == 500_000,
            r.eviction == EvictionPolicy::DropOldest,
            r.flush_batch == 1000,
            r.flush_interval_ms == 100,
            r.busy_timeout_ms == 5000,
            r.synchronous == SynchronousMode::Full,
    {
        CacheConfig {
            sqlite_path: "cache.sqlite".to_owned(),
            cache_qos0: false,
            max_rows: default_max_rows(),
            eviction: default_eviction(),
            flush_batch: default_flush_batch(),
            flush_interval_ms: default_flush_interval_ms(),
            busy_timeout_ms: default_busy_timeout_ms(),
            synchronous: default_synchronous(),
        }
    }
}

} // verus!
