//! The decision of a broker connection thread when its broker accepts the
//! connection.

use vstd::prelude::*;

use crate::messages::MqttEvent;
use crate::mqtt_utils::message::MqttMessage;
use crate::mqtt_utils::topic::MqttSubscription;

verus! {

/// What a broker connection thread does next.
#[derive(Debug, Clone, PartialEq, Eq)]
pub enum ActorAction {
    /// Publish this message.
    Publish(MqttMessage),
    /// Subscribe to this topic filter.
    Subscribe(MqttSubscription),
    /// Send this event to the thread's listener.
    Emit(MqttEvent),
}

/// `a` and `b` are the same message.
pub open spec fn same_message(a: MqttMessage, b: MqttMessage) -> bool {
    a.topic@ == b.topic@ && a.payload@ == b.payload@ && a.qos == b.qos && a.retain == b.retain
}

/// `a` subscribes to the topic of `sub` at its QoS level.
pub open spec fn is_subscribe_to(a: ActorAction, sub: MqttSubscription) -> bool {
    a matches ActorAction::Subscribe(s) && s.topic@ == sub.topic@ && s.qos == sub.qos
}

/// The actions on a connection: the connection message first, if there is
/// one, then a subscription to each topic in order, then the connected
/// event.
pub open spec fn connack_actions_spec(
    connected_msg: Option<MqttMessage>,
    subscriptions: Seq<MqttSubscription>,
    actions: Seq<ActorAction>,
) -> bool {
    let k: int = if connected_msg is Some {
        1
    } else {
        0
    };
    &&& actions.len() == k + subscriptions.len() + 1
    &&& connected_msg matches Some(m) ==> actions[0] matches ActorAction::Publish(p) && same_message(
        p,
        m,
    )
    &&& forall|i: int|
        0 <= i < subscriptions.len() ==> is_subscribe_to(#[trigger] actions[k + i], subscriptions[i])
    &&& actions[k + subscriptions.len()] == ActorAction::Emit(MqttEvent::Connected)
}

/// A copy of a message.
fn copy_message(m: &MqttMessage) -> (r: MqttMessage)
    ensures
        same_message(r, *m),
{
    MqttMessage {
        topic: m.topic.clone(),
        payload: vstd::slice::slice_to_vec(m.payload.as_slice()),
        qos: m.qos,
        retain: m.retain,
    }
}

/// The actions on a connection (see [`connack_actions_spec`]).
pub fn connack_actions(connected_msg: &Option<MqttMessage>, subscriptions: &Vec<MqttSubscription>) -> (actions: Vec<ActorAction>)
    ensures
        connack_actions_spec(*connected_msg, subscriptions@, actions@),
{
    let mut actions: Vec<ActorAction> = Vec::new();
    if let Some(m) = connected_msg {
        actions.push(ActorAction::Publish(copy_message(m)));
    }
    let ghost k: int = actions@.len() as int;
    let mut i: usize = 0;
    while i < subscriptions.len()
        invariant
            k == (if connected_msg is Some {
                1int
            } else {
                0int
            }),
            i <= subscriptions@.len(),
            actions@.len() == k + i,
            *connected_msg matches Some(m) ==> actions@[0] matches ActorAction::Publish(p)
                && same_message(p, m),
            forall|j: int|
                0 <= j < i ==> is_subscribe_to(#[trigger] actions@[k + j], subscriptions@[j]),
        decreases subscriptions@.len() - i,
    {
        let s = &subscriptions[i];
        actions.push(ActorAction::Subscribe(MqttSubscription { topic: s.topic.clone(), qos: s.qos }));
        i = i + 1;
    }
    actions.push(ActorAction::Emit(MqttEvent::Connected));
    actions
}

} // verus!
