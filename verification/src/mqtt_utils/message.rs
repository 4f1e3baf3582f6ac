//! An MQTT message as the bridge handles it.

use vstd::prelude::*;

use crate::mqtt_utils::qos::QoS;

verus! {

/// An MQTT message: topic, payload, QoS level and retain flag.
#[derive(Debug, Clone, PartialEq, Eq)]
pub struct MqttMessage {
    /// Topic
    pub topic: String,
    /// Payload
    pub payload: Vec<u8>,
    /// QoS level
    pub qos: QoS,
    /// Whether the broker retains the message
    pub retain: bool,
}

/// The last will of a connection: the message the broker publishes when
/// the connection is lost.
#[derive(Debug, Clone, PartialEq, Eq)]
pub struct LastWill {
    /// Topic
    pub topic: String,
    /// Payload
    pub message: Vec<u8>,
    /// QoS level
    pub qos: QoS,
    /// Whether the broker retains the message
    pub retain: bool,
}

} // verus!
