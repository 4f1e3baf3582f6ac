//! Topic rules with a direction: a rule either forwards local topics out to
//! the remote broker or remote topics in to the local broker, taking off the
//! prefix of the side it listens on and putting on the prefix of the other.

use vstd::prelude::*;
use vstd::string::*;

use crate::error::{BridgeError, Result};
use crate::mqtt_utils::qos::{QoS, qos_from_u8, spec_qos_from_u8};
use crate::text::{chars_eq, chars_of};
use crate::topic::{trim_end_slashes, trim_trailing_slashes};

verus! {

/// Which way a rule forwards messages.
#[derive(Debug, Clone, Copy, PartialEq, Eq, Structural, Hash)]
pub enum ForwardDirection {
    /// From the local broker to the remote one
    Out,
    /// From the remote broker to the local one
    In,
}

/// A forwarding rule with a direction. The rule listens on `topic_pattern`
/// under the prefix of its source side and republishes under the prefix of
/// the other side.
#[derive(Debug, Clone, PartialEq, Eq, Hash)]
pub struct ForwardRule {
    /// Topic filter, relative to the source side's prefix
    pub topic_pattern: String,
    /// Which way the rule forwards
    pub direction: ForwardDirection,
    /// Prefix of topics on the local broker
    pub local_prefix: String,
    /// Prefix of topics on the remote broker
    pub remote_prefix: String,
    /// QoS level (0, 1 or 2)
    pub qos: u8,
}

/// A topic to subscribe to, with its QoS level.
#[derive(Debug, Clone, PartialEq, Eq)]
pub struct MqttSubscription {
    /// Topic filter
    pub topic: String,
    /// QoS level of the subscription
    pub qos: QoS,
}

/// A prefix with one `/` after it (trailing slashes cut first); the empty
/// prefix stays empty.
pub open spec fn spec_with_slash(prefix: Seq<char>) -> Seq<char> {
    if prefix.len() == 0 {
        Seq::empty()
    } else {
        trim_trailing_slashes(prefix).push('/')
    }
}

/// `topic` with `prefix` taken off: empty when the topic is the prefix,
/// the rest after the prefix and its `/`, or `None` when the topic is not
/// under the prefix.
pub open spec fn spec_strip_prefix(topic: Seq<char>, prefix: Seq<char>) -> Option<Seq<char>> {
    let p = spec_with_slash(prefix);
    if topic == prefix {
        Some(Seq::empty())
    } else if p.len() <= topic.len() && topic.take(p.len() as int) == p {
        Some(topic.skip(p.len() as int))
    } else {
        None
    }
}

/// `topic` put under `prefix`: the prefix alone for an empty topic, the
/// topic alone for an empty prefix, otherwise the prefix, a `/` and the
/// topic.
pub open spec fn spec_add_prefix(topic: Seq<char>, prefix: Seq<char>) -> Seq<char> {
    if topic.len() == 0 {
        prefix
    } else if prefix.len() == 0 {
        topic
    } else {
        spec_with_slash(prefix) + topic
    }
}

/// The topic a rule republishes a received topic on, or `None` when the
/// topic is not under the prefix of the rule's source side.
pub open spec fn spec_forward_rule_topic(
    topic: Seq<char>,
    direction: ForwardDirection,
    local_prefix: Seq<char>,
    remote_prefix: Seq<char>,
) -> Option<Seq<char>> {
    let (from, to) = match direction {
        ForwardDirection::Out => (local_prefix, remote_prefix),
        ForwardDirection::In => (remote_prefix, local_prefix),
    };
    match spec_strip_prefix(topic, from) {
        Some(rest) => Some(spec_add_prefix(rest, to)),
        None => None,
    }
}

/// The message of the error for a topic outside a prefix.
pub open spec fn spec_strip_error(topic: Seq<char>, prefix: Seq<char>) -> Seq<char> {
    "Topic '"@ + topic + "' does not start with prefix '"@ + prefix + "'"@
}

/// The filter a rule subscribes to: its pattern under the prefix of the
/// side it listens on.
pub open spec fn spec_subscription_topic(rule: ForwardRule) -> Seq<char> {
    match rule.direction {
        ForwardDirection::Out => spec_add_prefix(rule.topic_pattern@, rule.local_prefix@),
        ForwardDirection::In => spec_add_prefix(rule.topic_pattern@, rule.remote_prefix@),
    }
}

impl MqttSubscription {
    /// The subscription of a rule: its pattern under the prefix of the side
    /// it listens on (local for `Out`, remote for `In`), at the rule's QoS.
    pub fn from_forward_rule(rule: &ForwardRule) -> (r: Self)
        ensures
            r.topic@ == spec_subscription_topic(*rule),
            r.qos == spec_qos_from_u8(rule.qos),
    {
        let topic = match rule.direction {
            ForwardDirection::Out => add_prefix(
                rule.topic_pattern.as_str(),
                rule.local_prefix.as_str(),
            ),
            ForwardDirection::In => add_prefix(
                rule.topic_pattern.as_str(),
                rule.remote_prefix.as_str(),
            ),
        };
        let qos = qos_from_u8(rule.qos);
        MqttSubscription { topic, qos }
    }
}

/// The rules of `rules` that forward in `direction`, in order.
pub open spec fn rules_in_direction(rules: Seq<ForwardRule>, direction: ForwardDirection) -> Seq<
    ForwardRule,
> {
    rules.filter(|r: ForwardRule| r.direction == direction)
}

/// The subscriptions of the rules that forward in `direction`, in order:
/// those of the local broker for `Out`, those of the remote broker for
/// `In`.
pub fn subscriptions_for(rules: &Vec<ForwardRule>, direction: ForwardDirection) -> (subs: Vec<
    MqttSubscription,
>)
    ensures
        subs@.len() == rules_in_direction(rules@, direction).len(),
        forall|i: int|
            0 <= i < subs@.len() ==> (#[trigger] subs@[i]).topic@ == spec_subscription_topic(
                rules_in_direction(rules@, direction)[i],
            ) && subs@[i].qos == spec_qos_from_u8(rules_in_direction(rules@, direction)[i].qos),
{
    let mut subs: Vec<MqttSubscription> = Vec::new();
    let mut i: usize = 0;
    assert(rules@.take(0) =~= Seq::<ForwardRule>::empty());
    while i < rules.len()
        invariant
            i <= rules@.len(),
            subs@.len() == rules_in_direction(rules@.take(i as int), direction).len(),
            forall|j: int|
                0 <= j < subs@.len() ==> (#[trigger] subs@[j]).topic@ == spec_subscription_topic(
                    rules_in_direction(rules@.take(i as int), direction)[j],
                ) && subs@[j].qos == spec_qos_from_u8(
                    rules_in_direction(rules@.take(i as int), direction)[j].qos,
                ),
        decreases rules@.len() - i,
    {
        let rule = &rules[i];
        let ghost before = rules_in_direction(rules@.take(i as int), direction);
        assert(rules@.take(i + 1).drop_last() =~= rules@.take(i as int));
        assert(rules@.take(i + 1).last() == *rule);
        reveal_with_fuel(Seq::filter, 1);
        if rule.direction == direction {
            subs.push(MqttSubscription::from_forward_rule(rule));
            assert(rules_in_direction(rules@.take(i + 1), direction) == before.push(*rule));
        } else {
            assert(rules_in_direction(rules@.take(i + 1), direction) == before);
        }
        i = i + 1;
    }
    assert(rules@.take(rules@.len() as int) =~= rules@);
    subs
}

/// The topic on which a message received on `topic` is republished under
/// `rule`: the source side's prefix is taken off and the other side's put
/// on. A topic outside the source prefix is refused with a topic mapping
/// error.
pub fn apply_forward_rule(topic: &str, rule: &ForwardRule) -> (r: Result<String>)
    ensures
        match spec_forward_rule_topic(
            topic@,
            rule.direction,
            rule.local_prefix@,
            rule.remote_prefix@,
        ) {
            Some(t) => r matches Ok(s) && s@ == t,
            None => r matches Err(BridgeError::TopicMapping(m)) && m@ == spec_strip_error(
                topic@,
                match rule.direction {
                    ForwardDirection::Out => rule.local_prefix@,
                    ForwardDirection::In => rule.remote_prefix@,
                },
            ),
        },
{
    match rule.direction {
        ForwardDirection::Out => {
            let rest = strip_prefix(topic, rule.local_prefix.as_str())?;
            Ok(add_prefix(rest.as_str(), rule.remote_prefix.as_str()))
        },
        ForwardDirection::In => {
            let rest = strip_prefix(topic, rule.remote_prefix.as_str())?;
            Ok(add_prefix(rest.as_str(), rule.local_prefix.as_str()))
        },
    }
}

/// `topic` with `prefix` taken off (see [`spec_strip_prefix`]).
pub fn strip_prefix(topic: &str, prefix: &str) -> (r: Result<String>)
    ensures
        match spec_strip_prefix(topic@, prefix@) {
            Some(t) => r matches Ok(s) && s@ == t,
            None => r matches Err(BridgeError::TopicMapping(m)) && m@ == spec_strip_error(
                topic@,
                prefix@,
            ),
        },
{
    let topic_chars = chars_of(topic);
    let prefix_chars = chars_of(prefix);
    if chars_eq(&topic_chars, &prefix_chars) {
        return Ok(String::new());
    }
    let slashed = with_slash(prefix);
    let slashed_chars = chars_of(slashed.as_str());
    let n = slashed_chars.len();
    if n <= topic_chars.len() && starts_with(&topic_chars, &slashed_chars) {
        Ok(topic.substring_char(n, topic_chars.len()).to_owned())
    } else {
        let msg = "Topic '".to_owned().concat(topic).concat("' does not start with prefix '").concat(
            prefix,
        ).concat("'");
        Err(BridgeError::TopicMapping(msg))
    }
}

/// `topic` put under `prefix` (see [`spec_add_prefix`]).
pub fn add_prefix(topic: &str, prefix: &str) -> (r: String)
    ensures
        r@ == spec_add_prefix(topic@, prefix@),
{
    if topic.is_empty() {
        prefix.to_owned()
    } else if prefix.is_empty() {
        topic.to_owned()
    } else {
        with_slash(prefix).concat(topic)
    }
}

/// `prefix` with one `/` after it (see [`spec_with_slash`]).
pub fn with_slash(prefix: &str) -> (r: String)
    ensures
        r@ == spec_with_slash(prefix@),
{
    if prefix.is_empty() {
        String::new()
    } else {
        proof {
            reveal_strlit("/");
        }
        trim_end_slashes(prefix).concat("/")
    }
}

/// Forwarding a local topic out and the resulting remote topic back in,
/// with the same prefixes, gives the local topic again. This holds when the
/// remote prefix does not end with `/` and the topic is the local prefix
/// itself or has something after it.
pub proof fn lemma_in_undoes_out(topic: Seq<char>, local_prefix: Seq<char>, remote_prefix: Seq<char>)
    requires
        remote_prefix.len() == 0 || remote_prefix.last() != '/',
        spec_strip_prefix(topic, local_prefix) matches Some(rest) && (rest.len() > 0 || topic
            == local_prefix),
    ensures
        spec_forward_rule_topic(topic, ForwardDirection::Out, local_prefix, remote_prefix) matches Some(
            remote,
        ) && spec_forward_rule_topic(remote, ForwardDirection::In, local_prefix, remote_prefix)
            == Some(topic),
{
    let rest = spec_strip_prefix(topic, local_prefix)->0;
    let remote = spec_add_prefix(rest, remote_prefix);
    if topic == local_prefix {
        assert(spec_strip_prefix(remote, remote_prefix) == Some(Seq::<char>::empty()));
    } else {
        let ws = spec_with_slash(local_prefix);
        assert(topic == topic.take(ws.len() as int) + topic.skip(ws.len() as int));
        if remote_prefix.len() > 0 {
            assert(trim_trailing_slashes(remote_prefix) == remote_prefix);
            let wr = spec_with_slash(remote_prefix);
            assert(remote.take(wr.len() as int) =~= wr);
            assert(remote.skip(wr.len() as int) =~= rest);
            assert(remote.len() > remote_prefix.len());
        } else {
            assert(remote.take(0) =~= Seq::<char>::empty());
            assert(remote.skip(0) =~= rest);
        }
        assert(spec_strip_prefix(remote, remote_prefix) == Some(rest));
        if local_prefix.len() == 0 {
            assert(topic.skip(0) =~= topic);
        } else {
            assert(ws + rest =~= topic);
        }
    }
}

/// Whether `s` starts with `p`.
fn starts_with(s: &Vec<char>, p: &Vec<char>) -> (r: bool)
    requires
        p.len() <= s.len(),
    ensures
        r == (s@.take(p@.len() as int) == p@),
{
    let mut i: usize = 0;
    while i < p.len()
        invariant
            i <= p.len(),
            p.len() <= s.len(),
            forall|j: int| 0 <= j < i ==> s@[j] == p@[j],
        decreases p.len() - i,
    {
        if s[i] != p[i] {
            assert(s@.take(p@.len() as int)[i as int] == s@[i as int]);
            return false;
        }
        i = i + 1;
    }
    assert(s@.take(p@.len() as int) =~= p@);
    true
}

} // verus!
