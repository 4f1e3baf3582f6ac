//! The bridge state messages: the retained online message published when
//! the remote connection comes up, and the retained offline last will.

use vstd::prelude::*;

use crate::mqtt_utils::message::{LastWill, MqttMessage};
use crate::mqtt_utils::qos::QoS;

verus! {

/// The online state message: `state_online_payload` (as UTF-8) on
/// `state_topic`, QoS 1, retained.
pub fn connected_msg(state_topic: &str, state_online_payload: &str) -> (m: MqttMessage)
    ensures
        m.topic@ == state_topic@,
        m.payload@ == vstd::utf8::encode_utf8(state_online_payload@),
        m.qos == QoS::AtLeastOnce,
        m.retain,
{
    MqttMessage {
        topic: state_topic.to_owned(),
        payload: state_online_payload.as_bytes_vec(),
        qos: QoS::AtLeastOnce,
        retain: true,
    }
}

/// The offline last will: `state_offline_payload` (as UTF-8) on
/// `state_topic`, QoS 1, retained.
pub fn disconnected_lwt(state_topic: &str, state_offline_payload: &str) -> (w: LastWill)
    ensures
        w.topic@ == state_topic@,
        w.message@ == vstd::utf8::encode_utf8(state_offline_payload@),
        w.qos == QoS::AtLeastOnce,
        w.retain,
{
    LastWill {
        topic: state_topic.to_owned(),
        message: state_offline_payload.as_bytes_vec(),
        qos: QoS::AtLeastOnce,
        retain: true,
    }
}

} // verus!
