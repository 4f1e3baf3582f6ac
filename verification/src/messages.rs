//! Commands and events of a broker connection run on its own thread.

use vstd::prelude::*;

use crate::mqtt_utils::message::MqttMessage;
use crate::mqtt_utils::qos::QoS;

pub use crate::tasks::messages::{CacheCommand, ReplayCommand};

verus! {

/// A command for a broker connection thread.
#[derive(Debug, Clone, PartialEq, Eq)]
pub enum MqttCommand {
    /// Publish a message; `acknowledge` asks for the outcome to be
    /// reported back to the sender.
    Publish { topic: String, payload: Vec<u8>, qos: QoS, retain: bool, acknowledge: bool },
}

/// An event of a broker connection thread.
#[derive(Debug, Clone, PartialEq, Eq)]
pub enum MqttEvent {
    /// The broker accepted the connection.
    Connected,
    /// The broker closed the connection.
    Disconnected,
    /// A message arrived.
    Message(MqttMessage),
    /// The connection failed.
    Error(String),
}

} // verus!
