//! MQTT quality-of-service levels.

use vstd::prelude::*;

verus! {

/// MQTT quality-of-service level.
#[derive(Debug, Clone, Copy, PartialEq, Eq, Hash)]
pub enum QoS {
    /// At most once (0)
    AtMostOnce,
    /// At least once (1)
    AtLeastOnce,
    /// Exactly once (2)
    ExactlyOnce,
}

/// The QoS level of a configured number: 0, 1 and 2 name their level and
/// any other number falls back to at-least-once.
pub open spec fn spec_qos_from_u8(qos: u8) -> QoS {
    if qos == 0 {
        QoS::AtMostOnce
    } else if qos == 2 {
        QoS::ExactlyOnce
    } else {
        QoS::AtLeastOnce
    }
}

/// The number of a QoS level.
pub open spec fn spec_qos_to_u8(qos: QoS) -> u8 {
    match qos {
        QoS::AtMostOnce => 0,
        QoS::AtLeastOnce => 1,
        QoS::ExactlyOnce => 2,
    }
}

/// The QoS level of a configured number (unknown numbers give
/// at-least-once).
pub fn qos_from_u8(qos: u8) -> (r: QoS)
    ensures
        r == spec_qos_from_u8(qos),
{
    match qos {
        0 => QoS::AtMostOnce,
        1 => QoS::AtLeastOnce,
        2 => QoS::ExactlyOnce,
        _ => QoS::AtLeastOnce,
    }
}

/// The number of a QoS level.
pub fn qos_to_u8(qos: QoS) -> (r: u8)
    ensures
        r == spec_qos_to_u8(qos),
{
    match qos {
        QoS::AtMostOnce => 0,
        QoS::AtLeastOnce => 1,
        QoS::ExactlyOnce => 2,
    }
}

/// Reading back the number of a level gives the level: the numbering is
/// the inverse of the level's number.
pub proof fn lemma_qos_round_trip(qos: QoS)
    ensures
        spec_qos_from_u8(spec_qos_to_u8(qos)) == qos,
{
}

} // verus!
