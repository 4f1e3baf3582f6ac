use convoy::config::{ForwardRule, SubscribeRule};
use convoy::topic::trim_end_slashes;
use convoy::{apply_forward_mapping, apply_subscribe_mapping, topic_matches_filter, BridgeError};

#[test]
fn test_topic_matches_filter() {
    // Exact matches
    assert!(topic_matches_filter("a/b/c", "a/b/c"));
    assert!(!topic_matches_filter("a/b/c", "a/b/d"));

    // Single-level wildcard (+)
    assert!(topic_matches_filter("a/b/c", "a/+/c"));
    assert!(topic_matches_filter("a/b/c", "+/b/c"));
    assert!(topic_matches_filter("a/b/c", "+/+/+"));
    assert!(!topic_matches_filter("a/b/c", "a/+"));

    // Multi-level wildcard (#)
    assert!(topic_matches_filter("a/b/c", "a/#"));
    assert!(topic_matches_filter("a/b/c", "a/b/#"));
    assert!(topic_matches_filter("a/b/c", "#"));
    assert!(topic_matches_filter("a", "#"));
    assert!(!topic_matches_filter("a/b/c", "a/b/c/#"));

    // Combined wildcards
    assert!(topic_matches_filter("a/b/c/d", "a/+/c/#"));
    assert!(topic_matches_filter("a/x/c/anything", "a/+/c/#"));
    assert!(!topic_matches_filter("a/x/c", "a/+/c/#")); // # needs at least one more level
}

#[test]
fn test_apply_forward_mapping() {
    let rule = ForwardRule {
        local_filter: "d/#".to_string(),
        remote_prefix: "a/node_123".to_string(),
        qos: 1,
    };

    assert_eq!(apply_forward_mapping("d/foo", &rule), "a/node_123/d/foo");
    assert_eq!(
        apply_forward_mapping("d/bar/baz", &rule),
        "a/node_123/d/bar/baz"
    );

    // No prefix
    let rule_no_prefix = ForwardRule {
        local_filter: "raw/#".to_string(),
        remote_prefix: String::new(),
        qos: 1,
    };

    assert_eq!(
        apply_forward_mapping("raw/data", &rule_no_prefix),
        "raw/data"
    );
}

#[test]
fn test_apply_subscribe_mapping() {
    let rule = SubscribeRule {
        remote_filter: "a/node_123/u/#".to_string(),
        remote_prefix: "a/node_123".to_string(),
        qos: 1,
    };

    assert_eq!(
        apply_subscribe_mapping("a/node_123/u/foo", &rule).unwrap(),
        "u/foo"
    );
    assert_eq!(
        apply_subscribe_mapping("a/node_123/u/bar/baz", &rule).unwrap(),
        "u/bar/baz"
    );

    // No prefix
    let rule_no_prefix = SubscribeRule {
        remote_filter: "commands/#".to_string(),
        remote_prefix: String::new(),
        qos: 1,
    };

    assert_eq!(
        apply_subscribe_mapping("commands/restart", &rule_no_prefix).unwrap(),
        "commands/restart"
    );
}

#[test]
fn forward_mapping_trims_trailing_slashes_of_prefix() {
    let rule = ForwardRule {
        local_filter: "sensors/#".to_string(),
        remote_prefix: "devices/edge1/".to_string(),
        qos: 1,
    };
    assert_eq!(
        apply_forward_mapping("sensors/temp", &rule),
        "devices/edge1/sensors/temp"
    );
    let slashes = ForwardRule {
        local_filter: "x".to_string(),
        remote_prefix: "p///".to_string(),
        qos: 0,
    };
    assert_eq!(apply_forward_mapping("t", &slashes), "p/t");
}

#[test]
fn subscribe_mapping_of_the_prefix_itself_is_empty() {
    let rule = SubscribeRule {
        remote_filter: "commands/edge1/#".to_string(),
        remote_prefix: "commands/edge1/".to_string(),
        qos: 1,
    };
    assert_eq!(apply_subscribe_mapping("commands/edge1", &rule).unwrap(), "");
    assert_eq!(
        apply_subscribe_mapping("commands/edge1/restart", &rule).unwrap(),
        "restart"
    );
}

#[test]
fn subscribe_mapping_refuses_foreign_topic() {
    let rule = SubscribeRule {
        remote_filter: "a/#".to_string(),
        remote_prefix: "a/node_123/".to_string(),
        qos: 1,
    };
    match apply_subscribe_mapping("b/node_123/x", &rule) {
        Err(BridgeError::TopicMapping(m)) => assert_eq!(
            m,
            "Topic 'b/node_123/x' does not start with prefix 'a/node_123'"
        ),
        other => panic!("unexpected result: {:?}", other),
    }
    // A topic that only shares the prefix's characters is not under it.
    assert!(apply_subscribe_mapping("a/node_1234/x", &rule).is_err());
}

#[test]
fn subscribe_mapping_undoes_forward_mapping() {
    for prefix in ["a/node_123", "a/node_123/", "", "///"] {
        let forward = ForwardRule {
            local_filter: "#".to_string(),
            remote_prefix: prefix.to_string(),
            qos: 1,
        };
        let subscribe = SubscribeRule {
            remote_filter: "#".to_string(),
            remote_prefix: prefix.to_string(),
            qos: 1,
        };
        for topic in ["d/foo", "x", "", "a/b/c/"] {
            let remote = apply_forward_mapping(topic, &forward);
            assert_eq!(apply_subscribe_mapping(&remote, &subscribe).unwrap(), topic);
        }
    }
}

#[test]
fn hash_filter_matches_every_topic() {
    for topic in ["", "a", "a/b", "/", "a//b", "+/#"] {
        assert!(topic_matches_filter(topic, "#"));
    }
}

#[test]
fn wildcard_free_topic_matches_itself() {
    for topic in ["", "a", "a/b/c", "/x/", "a//b"] {
        assert!(topic_matches_filter(topic, topic));
    }
}

#[test]
fn topic_levels_edge_cases() {
    assert!(topic_matches_filter("/a", "+/a"));
    assert!(topic_matches_filter("a//b", "a/+/b"));
    assert!(!topic_matches_filter("a/b", "a/#/b"));
    assert!(!topic_matches_filter("a", "a/+"));
    assert!(!topic_matches_filter("a/b", "a"));
    assert!(topic_matches_filter("", ""));
    assert!(topic_matches_filter("", "+"));
    assert!(topic_matches_filter("\u{e9}t\u{e9}/x", "\u{e9}t\u{e9}/+"));
}

#[test]
fn trailing_slashes_are_trimmed() {
    assert_eq!(trim_end_slashes("a/b//"), "a/b");
    assert_eq!(trim_end_slashes("///"), "");
    assert_eq!(trim_end_slashes("a"), "a");
}

#[test]
fn plus_matches_exactly_one_level() {
    for topic in ["", "a", "sensors", "\u{e9}"] {
        assert!(topic_matches_filter(topic, "+"));
    }
    for topic in ["/", "a/b", "a/", "/a"] {
        assert!(!topic_matches_filter(topic, "+"));
    }
    assert!(topic_matches_filter("sensors/room1/temp", "sensors/+/temp"));
    assert!(topic_matches_filter("data/sensor/temp/value", "data/#"));
}

#[test]
fn plain_filter_matches_only_its_own_topic() {
    let filter = "a/b/c";
    for topic in ["a/b/c", "a/b", "a/b/c/d", "a/b/cc", "a//b/c", "A/b/c"] {
        assert_eq!(topic_matches_filter(topic, filter), topic == filter);
    }
}

#[test]
fn plus_in_place_of_a_level_keeps_the_match() {
    assert!(topic_matches_filter("a/b/c", "a/b/c"));
    assert!(topic_matches_filter("a/b/c", "+/b/c"));
    assert!(topic_matches_filter("a/b/c", "a/+/c"));
    assert!(topic_matches_filter("a/b/c/d", "a/b/#"));
    assert!(topic_matches_filter("a/b/c/d", "a/+/#"));
}
