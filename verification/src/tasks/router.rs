//! Routing of broker events: which commands the router sends for each event
//! of the local and of the remote broker connection.
//!
//! Local messages are forwarded to the remote broker under the first
//! forward rule whose filter matches them, or cached while the remote
//! broker is away or when the publish fails. Remote messages are forwarded
//! to the local broker under the first subscribe rule whose filter matches
//! them, and never cached.

use vstd::prelude::*;
use vstd::string::*;

use crate::config::{BridgeConfig, ForwardRule, SubscribeRule};
use crate::mqtt_utils::qos::{QoS, qos_from_u8, spec_qos_from_u8};
use crate::tasks::messages::{
    CacheCommand, LocalCommand, LocalEvent, RemoteCommand, RemoteEvent, ReplayCommand,
};
use crate::topic::{
    apply_forward_mapping, apply_subscribe_mapping, forward_topic, subscribe_topic,
    topic_matches, topic_matches_filter,
};

verus! {

/// A command the router sends.
#[derive(Debug, Clone, PartialEq, Eq)]
pub enum RouterAction {
    /// To the local broker connection.
    Local(LocalCommand),
    /// To the remote broker connection.
    Remote(RemoteCommand),
    /// To the remote broker connection, which reports the outcome of the
    /// publish; if that connection's task cannot take it or the publish
    /// fails, the fallback goes to the cache instead.
    RemoteOrCache { command: RemoteCommand, fallback: CacheCommand },
    /// To the cache.
    Cache(CacheCommand),
    /// To the replay task.
    Replay(ReplayCommand),
}

/// The index of the first forward rule, from `i` on, whose local filter
/// matches `topic`.
pub open spec fn first_forward_rule(topic: Seq<char>, rules: Seq<ForwardRule>, i: int) -> Option<int>
    decreases rules.len() - i,
{
    if i < 0 || i >= rules.len() {
        None
    } else if topic_matches(topic, rules[i].local_filter@) {
        Some(i)
    } else {
        first_forward_rule(topic, rules, i + 1)
    }
}

/// The index of the first subscribe rule, from `i` on, whose remote filter
/// matches `topic`.
pub open spec fn first_subscribe_rule(topic: Seq<char>, rules: Seq<SubscribeRule>, i: int) -> Option<
    int,
>
    decreases rules.len() - i,
{
    if i < 0 || i >= rules.len() {
        None
    } else if topic_matches(topic, rules[i].remote_filter@) {
        Some(i)
    } else {
        first_subscribe_rule(topic, rules, i + 1)
    }
}

/// `c` publishes `payload` on `topic` to the remote broker.
pub open spec fn is_remote_publish(
    c: RemoteCommand,
    topic: Seq<char>,
    payload: Seq<u8>,
    qos: QoS,
    retain: bool,
    acknowledge: bool,
) -> bool {
    c matches RemoteCommand::Publish { topic: t, payload: p, qos: q, retain: r, acknowledge: a }
        && t@ == topic && p@ == payload && q == qos && r == retain && a == acknowledge
}

/// `c` offers `payload` on `topic` (as UTF-8 bytes) to the cache.
pub open spec fn is_enqueue(c: CacheCommand, topic: Seq<char>, payload: Seq<u8>, qos: u8, retain: bool) -> bool {
    c matches CacheCommand::Enqueue { topic: t, payload: p, qos: q, retain: r } && t@
        == vstd::utf8::encode_utf8(topic) && p@ == payload && q == qos && r == retain
}

/// `a` publishes `payload` on `topic` to the local broker.
pub open spec fn is_local_publish(a: RouterAction, topic: Seq<char>, payload: Seq<u8>, qos: QoS, retain: bool) -> bool {
    a matches RouterAction::Local(LocalCommand::Publish { topic: t, payload: p, qos: q, retain: r })
        && t@ == topic && p@ == payload && q == qos && r == retain
}

/// `a` subscribes to `topic` on the local broker.
pub open spec fn is_local_subscribe(a: RouterAction, topic: Seq<char>, qos: QoS) -> bool {
    a matches RouterAction::Local(LocalCommand::Subscribe { topic: t, qos: q }) && t@ == topic && q == qos
}

/// `a` subscribes to `topic` on the remote broker.
pub open spec fn is_remote_subscribe(a: RouterAction, topic: Seq<char>, qos: QoS) -> bool {
    a matches RouterAction::Remote(RemoteCommand::Subscribe { topic: t, qos: q }) && t@ == topic && q
        == qos
}

/// The commands for a message received from the local broker: under the
/// first matching forward rule, the message goes to the remote broker on
/// the mapped topic with the rule's QoS, its outcome reported (cached if
/// the remote task cannot take it or the publish fails), or to the cache
/// while the remote broker is away; a message no rule matches is dropped.
pub open spec fn local_message_actions(
    config: BridgeConfig,
    topic: Seq<char>,
    payload: Seq<u8>,
    retain: bool,
    remote_connected: bool,
    actions: Seq<RouterAction>,
) -> bool {
    match first_forward_rule(topic, config.forward@, 0) {
        None => actions.len() == 0,
        Some(k) => {
            let rule = config.forward@[k];
            let remote_topic = forward_topic(topic, rule.remote_prefix@);
            &&& actions.len() == 1
            &&& if remote_connected {
                actions[0] matches RouterAction::RemoteOrCache { command, fallback } && is_remote_publish(
                    command,
                    remote_topic,
                    payload,
                    spec_qos_from_u8(rule.qos),
                    retain,
                    true,
                ) && is_enqueue(fallback, remote_topic, payload, rule.qos, retain)
            } else {
                actions[0] matches RouterAction::Cache(c) && is_enqueue(
                    c,
                    remote_topic,
                    payload,
                    rule.qos,
                    retain,
                )
            }
        },
    }
}

/// The commands for an event of the local broker connection: on connection
/// a subscription to every forward rule's local filter, in order; for a
/// message, see [`local_message_actions`]; nothing otherwise.
pub open spec fn local_event_actions(
    config: BridgeConfig,
    event: LocalEvent,
    remote_connected: bool,
    actions: Seq<RouterAction>,
) -> bool {
    match event {
        LocalEvent::Connected => {
            &&& actions.len() == config.forward@.len()
            &&& forall|i: int|
                0 <= i < actions.len() ==> is_local_subscribe(
                    #[trigger] actions[i],
                    config.forward@[i].local_filter@,
                    spec_qos_from_u8(config.forward@[i].qos),
                )
        },
        LocalEvent::MessageReceived { topic, payload, qos: _, retain } => local_message_actions(
            config,
            topic@,
            payload@,
            retain,
            remote_connected,
            actions,
        ),
        _ => actions.len() == 0,
    }
}

/// The commands for a message received from the remote broker: under the
/// first matching subscribe rule whose prefix the topic carries, the
/// message goes to the local broker on the stripped topic with the rule's
/// QoS; any other message is dropped.
pub open spec fn remote_message_actions(
    config: BridgeConfig,
    topic: Seq<char>,
    payload: Seq<u8>,
    retain: bool,
    actions: Seq<RouterAction>,
) -> bool {
    match first_subscribe_rule(topic, config.subscribe@, 0) {
        None => actions.len() == 0,
        Some(k) => {
            let rule = config.subscribe@[k];
            match subscribe_topic(topic, rule.remote_prefix@) {
                None => actions.len() == 0,
                Some(local_topic) => actions.len() == 1 && is_local_publish(
                    actions[0],
                    local_topic,
                    payload,
                    spec_qos_from_u8(rule.qos),
                    retain,
                ),
            }
        },
    }
}

/// The commands for an event of the remote broker connection, and whether
/// the remote broker counts as connected afterwards. On connection: the
/// online state is published (QoS 1, retained), every subscribe rule's
/// filter is subscribed to in order, and replay is told; on disconnection
/// or error only replay is told; for a message, see
/// [`remote_message_actions`].
pub open spec fn remote_event_actions(
    config: BridgeConfig,
    event: RemoteEvent,
    was_connected: bool,
    connected: bool,
    actions: Seq<RouterAction>,
) -> bool {
    match event {
        RemoteEvent::Connected => {
            let n = config.subscribe@.len();
            &&& connected
            &&& actions.len() == n + 2
            &&& actions[0] matches RouterAction::Remote(c) && is_remote_publish(
                c,
                config.state_topic@,
                vstd::utf8::encode_utf8(config.state_online_payload@),
                QoS::AtLeastOnce,
                true,
                false,
            )
            &&& forall|i: int|
                0 <= i < n ==> is_remote_subscribe(
                    #[trigger] actions[i + 1],
                    config.subscribe@[i].remote_filter@,
                    spec_qos_from_u8(config.subscribe@[i].qos),
                )
            &&& actions[n + 1int] == RouterAction::Replay(ReplayCommand::RemoteConnected)
        },
        RemoteEvent::MessageReceived { topic, payload, qos: _, retain } => {
            &&& connected == was_connected
            &&& remote_message_actions(config, topic@, payload@, retain, actions)
        },
        _ => {
            &&& !connected
            &&& actions.len() == 1
            &&& actions[0] == RouterAction::Replay(ReplayCommand::RemoteDisconnected)
        },
    }
}

/// Messages from the remote broker are never cached: no event of the
/// remote connection leads to a cache command.
pub proof fn lemma_remote_side_never_cached(
    config: BridgeConfig,
    event: RemoteEvent,
    was_connected: bool,
    connected: bool,
    actions: Seq<RouterAction>,
)
    requires
        remote_event_actions(config, event, was_connected, connected, actions),
    ensures
        forall|i: int|
            0 <= i < actions.len() ==> !(#[trigger] actions[i] is Cache) && !(actions[i] is RemoteOrCache),
{
    if event is Connected {
        assert forall|i: int| 0 <= i < actions.len() implies !(#[trigger] actions[i] is Cache) && !(
        actions[i] is RemoteOrCache) by {
            if 1 <= i < actions.len() - 1 {
                assert(is_remote_subscribe(
                    actions[(i - 1) + 1],
                    config.subscribe@[i - 1].remote_filter@,
                    spec_qos_from_u8(config.subscribe@[i - 1].qos),
                ));
            }
        }
    }
}

/// While the remote broker is connected, a local message some forward rule
/// matches is published to it with its outcome reported, and the same
/// message, on the same mapped topic, is what goes to the cache if the
/// publish fails.
pub proof fn lemma_failed_publish_falls_back_to_cache(
    config: BridgeConfig,
    topic: Seq<char>,
    payload: Seq<u8>,
    retain: bool,
    actions: Seq<RouterAction>,
)
    requires
        local_message_actions(config, topic, payload, retain, true, actions),
        first_forward_rule(topic, config.forward@, 0) is Some,
    ensures
        actions.len() == 1,
        actions[0] matches RouterAction::RemoteOrCache { command, fallback } && command matches RemoteCommand::Publish {
            topic: t,
            payload: p,
            qos: _,
            retain: r,
            acknowledge,
        } && fallback matches CacheCommand::Enqueue { topic: ct, payload: cp, qos: _, retain: cr }
            && acknowledge && ct@ == vstd::utf8::encode_utf8(t@) && cp@ == p@ && cr == r,
{
}

/// While the remote broker is away, a local message is never sent to it:
/// a message some forward rule matches is cached, and nothing else is done
/// with it.
pub proof fn lemma_disconnected_local_message_cached(
    config: BridgeConfig,
    topic: Seq<char>,
    payload: Seq<u8>,
    retain: bool,
    actions: Seq<RouterAction>,
)
    requires
        local_message_actions(config, topic, payload, retain, false, actions),
    ensures
        forall|i: int|
            0 <= i < actions.len() ==> #[trigger] actions[i] is Cache,
        first_forward_rule(topic, config.forward@, 0) is Some ==> actions.len() == 1,
{
}

proof fn lemma_first_forward_rule(topic: Seq<char>, rules: Seq<ForwardRule>, i: int)
    requires
        0 <= i,
    ensures
        first_forward_rule(topic, rules, i) matches Some(k) ==> i <= k < rules.len() && topic_matches(
            topic,
            rules[k].local_filter@,
        ),
    decreases rules.len() - i,
{
    if i < rules.len() && !topic_matches(topic, rules[i].local_filter@) {
        lemma_first_forward_rule(topic, rules, i + 1);
    }
}

proof fn lemma_first_subscribe_rule(topic: Seq<char>, rules: Seq<SubscribeRule>, i: int)
    requires
        0 <= i,
    ensures
        first_subscribe_rule(topic, rules, i) matches Some(k) ==> i <= k < rules.len()
            && topic_matches(topic, rules[k].remote_filter@),
    decreases rules.len() - i,
{
    if i < rules.len() && !topic_matches(topic, rules[i].remote_filter@) {
        lemma_first_subscribe_rule(topic, rules, i + 1);
    }
}

/// The index of the first forward rule whose local filter matches `topic`.
fn find_forward_rule(topic: &str, rules: &Vec<ForwardRule>) -> (r: Option<usize>)
    ensures
        match first_forward_rule(topic@, rules@, 0) {
            None => r is None,
            Some(k) => r matches Some(j) && j == k,
        },
        r matches Some(k) ==> k < rules@.len(),
{
    proof {
        lemma_first_forward_rule(topic@, rules@, 0);
    }
    let mut i: usize = 0;
    while i < rules.len()
        invariant
            i <= rules.len(),
            first_forward_rule(topic@, rules@, 0) == first_forward_rule(topic@, rules@, i as int),
        decreases rules.len() - i,
    {
        if topic_matches_filter(topic, rules[i].local_filter.as_str()) {
            return Some(i);
        }
        i = i + 1;
    }
    None
}

/// The index of the first subscribe rule whose remote filter matches
/// `topic`.
fn find_subscribe_rule(topic: &str, rules: &Vec<SubscribeRule>) -> (r: Option<usize>)
    ensures
        match first_subscribe_rule(topic@, rules@, 0) {
            None => r is None,
            Some(k) => r matches Some(j) && j == k,
        },
        r matches Some(k) ==> k < rules@.len(),
{
    proof {
        lemma_first_subscribe_rule(topic@, rules@, 0);
    }
    let mut i: usize = 0;
    while i < rules.len()
        invariant
            i <= rules.len(),
            first_subscribe_rule(topic@, rules@, 0) == first_subscribe_rule(topic@, rules@, i as int),
        decreases rules.len() - i,
    {
        if topic_matches_filter(topic, rules[i].remote_filter.as_str()) {
            return Some(i);
        }
        i = i + 1;
    }
    None
}

/// The commands for an event of the local broker connection (see
/// [`local_event_actions`]).
pub fn handle_local_event(config: &BridgeConfig, event: LocalEvent, remote_connected: bool) -> (actions: Vec<RouterAction>)
    ensures
        local_event_actions(*config, event, remote_connected, actions@),
{
    let mut actions: Vec<RouterAction> = Vec::new();
    match event {
        LocalEvent::Connected => {
            let mut i: usize = 0;
            while i < config.forward.len()
                invariant
                    i <= config.forward@.len(),
                    actions@.len() == i,
                    forall|j: int|
                        0 <= j < i ==> is_local_subscribe(
                            #[trigger] actions@[j],
                            config.forward@[j].local_filter@,
                            spec_qos_from_u8(config.forward@[j].qos),
                        ),
                decreases config.forward@.len() - i,
            {
                let rule = &config.forward[i];
                actions.push(
                    RouterAction::Local(
                        LocalCommand::Subscribe {
                            topic: rule.local_filter.clone(),
                            qos: qos_from_u8(rule.qos),
                        },
                    ),
                );
                i = i + 1;
            }
        },
        LocalEvent::MessageReceived { topic, payload, qos: _, retain } => {
            if let Some(k) = find_forward_rule(topic.as_str(), &config.forward) {
                let rule = &config.forward[k];
                let remote_topic = apply_forward_mapping(topic.as_str(), rule);
                let enqueue = CacheCommand::Enqueue {
                    topic: remote_topic.as_str().as_bytes_vec(),
                    payload: vstd::slice::slice_to_vec(payload.as_slice()),
                    qos: rule.qos,
                    retain,
                };
                if remote_connected {
                    let command = RemoteCommand::Publish {
                        topic: remote_topic,
                        payload,
                        qos: qos_from_u8(rule.qos),
                        retain,
                        acknowledge: true,
                    };
                    actions.push(RouterAction::RemoteOrCache { command, fallback: enqueue });
                } else {
                    actions.push(RouterAction::Cache(enqueue));
                }
            }
        },
        _ => {},
    }
    actions
}

/// The commands for an event of the remote broker connection (see
/// [`remote_event_actions`]); `remote_connected` is updated.
pub fn handle_remote_event(config: &BridgeConfig, event: RemoteEvent, remote_connected: &mut bool) -> (actions: Vec<
    RouterAction,
>)
    ensures
        remote_event_actions(*config, event, *old(remote_connected), *final(remote_connected), actions@),
{
    let mut actions: Vec<RouterAction> = Vec::new();
    match event {
        RemoteEvent::Connected => {
            *remote_connected = true;
            actions.push(
                RouterAction::Remote(
                    RemoteCommand::Publish {
                        topic: config.state_topic.clone(),
                        payload: config.state_online_payload.as_str().as_bytes_vec(),
                        qos: QoS::AtLeastOnce,
                        retain: true,
                        acknowledge: false,
                    },
                ),
            );
            let mut i: usize = 0;
            while i < config.subscribe.len()
                invariant
                    i <= config.subscribe@.len(),
                    actions@.len() == i + 1,
                    actions@[0] matches RouterAction::Remote(c) && is_remote_publish(
                        c,
                        config.state_topic@,
                        vstd::utf8::encode_utf8(config.state_online_payload@),
                        QoS::AtLeastOnce,
                        true,
                        false,
                    ),
                    forall|j: int|
                        0 <= j < i ==> is_remote_subscribe(
                            #[trigger] actions@[j + 1],
                            config.subscribe@[j].remote_filter@,
                            spec_qos_from_u8(config.subscribe@[j].qos),
                        ),
                decreases config.subscribe@.len() - i,
            {
                let rule = &config.subscribe[i];
                actions.push(
                    RouterAction::Remote(
                        RemoteCommand::Subscribe {
                            topic: rule.remote_filter.clone(),
                            qos: qos_from_u8(rule.qos),
                        },
                    ),
                );
                i = i + 1;
            }
            actions.push(RouterAction::Replay(ReplayCommand::RemoteConnected));
        },
        RemoteEvent::MessageReceived { topic, payload, qos: _, retain } => {
            if let Some(k) = find_subscribe_rule(topic.as_str(), &config.subscribe) {
                let rule = &config.subscribe[k];
                if let Ok(local_topic) = apply_subscribe_mapping(topic.as_str(), rule) {
                    actions.push(
                        RouterAction::Local(
                            LocalCommand::Publish {
                                topic: local_topic,
                                payload,
                                qos: qos_from_u8(rule.qos),
                                retain,
                            },
                        ),
                    );
                }
            }
        },
        _ => {
            *remote_connected = false;
            actions.push(RouterAction::Replay(ReplayCommand::RemoteDisconnected));
        },
    }
    actions
}

} // verus!
