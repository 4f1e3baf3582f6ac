//! Commands and events exchanged between the bridge's tasks. Where a
//! command expects an answer, the channel for it is attached by the task
//! that sends the command; the command itself holds only plain values.

use vstd::prelude::*;

use crate::mqtt_utils::qos::QoS;

verus! {

/// A command for the local broker connection.
#[derive(Debug, Clone, PartialEq, Eq)]
pub enum LocalCommand {
    /// Subscribe to a topic filter.
    Subscribe { topic: String, qos: QoS },
    /// Publish a message.
    Publish { topic: String, payload: Vec<u8>, qos: QoS, retain: bool },
}

/// An event of the local broker connection.
#[derive(Debug, Clone, PartialEq, Eq)]
pub enum LocalEvent {
    /// The broker accepted the connection.
    Connected,
    /// The broker closed the connection.
    Disconnected,
    /// A message arrived on a subscribed topic.
    MessageReceived { topic: String, payload: Vec<u8>, qos: u8, retain: bool },
    /// The connection failed.
    Error(String),
}

/// A command for the remote broker connection.
#[derive(Debug, Clone, PartialEq, Eq)]
pub enum RemoteCommand {
    /// Subscribe to a topic filter.
    Subscribe { topic: String, qos: QoS },
    /// Publish a message; `acknowledge` asks for the outcome to be reported
    /// back to the sender once the broker acknowledged the publish.
    Publish { topic: String, payload: Vec<u8>, qos: QoS, retain: bool, acknowledge: bool },
    /// Recreate the client and its event loop (fresh DNS resolution).
    RecreateEventloop,
}

/// An event of the remote broker connection.
#[derive(Debug, Clone, PartialEq, Eq)]
pub enum RemoteEvent {
    /// The broker accepted the connection.
    Connected,
    /// The broker closed the connection.
    Disconnected,
    /// A message arrived on a subscribed topic.
    MessageReceived { topic: String, payload: Vec<u8>, qos: u8, retain: bool },
    /// The connection failed.
    Error(String),
}

/// A command for the cache task; each is answered with its result.
#[derive(Debug, Clone, PartialEq, Eq)]
pub enum CacheCommand {
    /// Offer a message to the cache.
    Enqueue { topic: Vec<u8>, payload: Vec<u8>, qos: u8, retain: bool },
    /// Read up to `limit` of the oldest messages.
    DequeueBatch { limit: usize },
    /// Delete the messages with these ids.
    DeleteBatch { ids: Vec<i64> },
    /// Count the cached messages.
    Count,
}

/// A command for the replay task.
#[derive(Debug, Clone, Copy, PartialEq, Eq)]
pub enum ReplayCommand {
    /// Start or resume replaying
    Trigger,
    /// The remote broker is connected
    RemoteConnected,
    /// The remote broker is disconnected
    RemoteDisconnected,
}

} // verus!
