//! The offline last will of the bridge state topic.

use vstd::prelude::*;

use crate::mqtt_utils::message::LastWill;
use crate::mqtt_utils::qos::QoS;
use crate::mqtt_utils::state::disconnected_lwt;

verus! {

/// The offline last will: `state_offline_payload` (as UTF-8) on
/// `state_topic`, QoS 1, retained.
pub fn state_lwt(state_topic: &str, state_offline_payload: &str) -> (w: LastWill)
    ensures
        w.topic@ == state_topic@,
        w.message@ == vstd::utf8::encode_utf8(state_offline_payload@),
        w.qos == QoS::AtLeastOnce,
        w.retain,
{
    disconnected_lwt(state_topic, state_offline_payload)
}

} // verus!
