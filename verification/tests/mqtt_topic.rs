use convoy::mqtt_utils::qos::QoS;
use convoy::mqtt_utils::topic::{
    add_prefix, apply_forward_rule, strip_prefix, subscriptions_for, with_slash, ForwardDirection,
    ForwardRule, MqttSubscription,
};
use convoy::BridgeError;

#[test]
fn test_apply_forward_out() {
    let rule = ForwardRule {
        topic_pattern: "d/#".to_string(),
        direction: ForwardDirection::Out,
        local_prefix: "".to_string(),
        remote_prefix: "a/node_123".to_string(),
        qos: 1,
    };

    assert_eq!(
        apply_forward_rule("d/foo", &rule).unwrap(),
        "a/node_123/d/foo"
    );
    assert_eq!(
        apply_forward_rule("d/bar/baz", &rule).unwrap(),
        "a/node_123/d/bar/baz"
    );

    // No prefix
    let rule_no_prefix = ForwardRule {
        topic_pattern: "raw/#".to_string(),
        direction: ForwardDirection::Out,
        local_prefix: "".to_string(),
        remote_prefix: "".to_string(),
        qos: 1,
    };

    assert_eq!(
        apply_forward_rule("raw/data", &rule_no_prefix).unwrap(),
        "raw/data"
    );
}

#[test]
fn test_apply_forward_in() {
    let rule = ForwardRule {
        topic_pattern: "a/node_123/u/#".to_string(),
        direction: ForwardDirection::In,
        local_prefix: "".to_string(),
        remote_prefix: "a/node_123".to_string(),
        qos: 1,
    };

    assert_eq!(
        apply_forward_rule("a/node_123/u/foo", &rule).unwrap(),
        "u/foo"
    );
    assert_eq!(
        apply_forward_rule("a/node_123/u/bar/baz", &rule).unwrap(),
        "u/bar/baz"
    );

    // No prefix
    let rule_no_prefix = ForwardRule {
        topic_pattern: "commands/#".to_string(),
        direction: ForwardDirection::In,
        local_prefix: "".to_string(),
        remote_prefix: "".to_string(),
        qos: 1,
    };
    assert_eq!(
        apply_forward_rule("commands/restart", &rule_no_prefix).unwrap(),
        "commands/restart"
    );
}

#[test]
fn forward_rule_refuses_topic_outside_source_prefix() {
    let rule = ForwardRule {
        topic_pattern: "#".to_string(),
        direction: ForwardDirection::Out,
        local_prefix: "site".to_string(),
        remote_prefix: "cloud".to_string(),
        qos: 1,
    };
    match apply_forward_rule("other/x", &rule) {
        Err(BridgeError::TopicMapping(m)) => {
            assert_eq!(m, "Topic 'other/x' does not start with prefix 'site'")
        }
        other => panic!("unexpected result: {:?}", other),
    }
    assert_eq!(apply_forward_rule("site/x", &rule).unwrap(), "cloud/x");
    assert_eq!(apply_forward_rule("site", &rule).unwrap(), "cloud");
}

#[test]
fn in_undoes_out_with_same_prefixes() {
    for (local, remote) in [("site", "cloud/dev1"), ("", "cloud"), ("site/", ""), ("", "")] {
        let out = ForwardRule {
            topic_pattern: "#".to_string(),
            direction: ForwardDirection::Out,
            local_prefix: local.to_string(),
            remote_prefix: remote.to_string(),
            qos: 1,
        };
        let back = ForwardRule { direction: ForwardDirection::In, ..out.clone() };
        let base = with_slash(local);
        for rest in ["x", "a/b"] {
            let topic = format!("{}{}", base, rest);
            let mapped = apply_forward_rule(&topic, &out).unwrap();
            assert_eq!(apply_forward_rule(&mapped, &back).unwrap(), topic);
        }
    }
}

#[test]
fn prefix_helpers() {
    assert_eq!(with_slash(""), "");
    assert_eq!(with_slash("a/b//"), "a/b/");
    assert_eq!(add_prefix("", "p/"), "p/");
    assert_eq!(add_prefix("t", ""), "t");
    assert_eq!(add_prefix("t", "p/"), "p/t");
    assert_eq!(strip_prefix("p", "p").unwrap(), "");
    assert_eq!(strip_prefix("p/t", "p//").unwrap(), "t");
    assert_eq!(strip_prefix("anything", "").unwrap(), "anything");
    assert!(strip_prefix("pt", "p").is_err());
}

#[test]
fn subscription_of_rule_uses_source_side_prefix() {
    let out = ForwardRule {
        topic_pattern: "d/#".to_string(),
        direction: ForwardDirection::Out,
        local_prefix: "site".to_string(),
        remote_prefix: "cloud".to_string(),
        qos: 2,
    };
    let s = MqttSubscription::from_forward_rule(&out);
    assert_eq!(s.topic, "site/d/#");
    assert_eq!(s.qos, QoS::ExactlyOnce);
    let inward = ForwardRule { direction: ForwardDirection::In, qos: 7, ..out };
    let s = MqttSubscription::from_forward_rule(&inward);
    assert_eq!(s.topic, "cloud/d/#");
    assert_eq!(s.qos, QoS::AtLeastOnce);
}

#[test]
fn subscriptions_split_by_direction() {
    let rule = |pattern: &str, direction: ForwardDirection| ForwardRule {
        topic_pattern: pattern.to_string(),
        direction,
        local_prefix: "site".to_string(),
        remote_prefix: "cloud".to_string(),
        qos: 1,
    };
    let rules = vec![
        rule("a/#", ForwardDirection::Out),
        rule("b/#", ForwardDirection::In),
        rule("c", ForwardDirection::Out),
    ];
    let local = subscriptions_for(&rules, ForwardDirection::Out);
    assert_eq!(
        local,
        vec![
            MqttSubscription { topic: "site/a/#".to_string(), qos: QoS::AtLeastOnce },
            MqttSubscription { topic: "site/c".to_string(), qos: QoS::AtLeastOnce },
        ]
    );
    let remote = subscriptions_for(&rules, ForwardDirection::In);
    assert_eq!(remote, vec![MqttSubscription { topic: "cloud/b/#".to_string(), qos: QoS::AtLeastOnce }]);
    assert!(subscriptions_for(&vec![], ForwardDirection::In).is_empty());
}
