use convoy::config::{BridgeConfig, BrokerConfig, ForwardRule, SubscribeRule};
use convoy::mqtt_utils::qos::QoS;
use convoy::tasks::messages::{
    CacheCommand, LocalCommand, LocalEvent, RemoteCommand, RemoteEvent, ReplayCommand,
};
use convoy::tasks::router::{handle_local_event, handle_remote_event, RouterAction};

fn broker(addr: &str, id: &str) -> BrokerConfig {
    BrokerConfig {
        addr: addr.to_string(),
        client_id: id.to_string(),
        keep_alive_secs: 30,
        clean_session: false,
        max_inflight: 100,
        username: None,
        password: None,
        tls: None,
    }
}

fn config() -> BridgeConfig {
    BridgeConfig {
        local: broker("127.0.0.1:1883", "local"),
        remote: broker("mqtt.example.com:8883", "remote"),
        state_topic: "bridge/state".to_string(),
        state_online_payload: "1".to_string(),
        state_offline_payload: "0".to_string(),
        forward: vec![
            ForwardRule {
                local_filter: "d/#".to_string(),
                remote_prefix: "a/node_123/".to_string(),
                qos: 1,
            },
            ForwardRule { local_filter: "#".to_string(), remote_prefix: String::new(), qos: 0 },
        ],
        subscribe: vec![
            SubscribeRule {
                remote_filter: "a/node_123/u/#".to_string(),
                remote_prefix: "a/node_123/".to_string(),
                qos: 2,
            },
            SubscribeRule {
                remote_filter: "x/#".to_string(),
                remote_prefix: "y".to_string(),
                qos: 1,
            },
        ],
    }
}

fn local_message(topic: &str) -> LocalEvent {
    LocalEvent::MessageReceived {
        topic: topic.to_string(),
        payload: b"23.5".to_vec(),
        qos: 0,
        retain: true,
    }
}

#[test]
fn local_connection_subscribes_forward_filters() {
    let actions = handle_local_event(&config(), LocalEvent::Connected, false);
    assert_eq!(
        actions,
        vec![
            RouterAction::Local(LocalCommand::Subscribe { topic: "d/#".to_string(), qos: QoS::AtLeastOnce }),
            RouterAction::Local(LocalCommand::Subscribe { topic: "#".to_string(), qos: QoS::AtMostOnce }),
        ]
    );
    assert!(handle_local_event(&config(), LocalEvent::Disconnected, true).is_empty());
    assert!(handle_local_event(&config(), LocalEvent::Error("x".to_string()), true).is_empty());
}

#[test]
fn local_message_forwarded_when_remote_connected() {
    let actions = handle_local_event(&config(), local_message("d/sensors/temp"), true);
    assert_eq!(
        actions,
        vec![RouterAction::RemoteOrCache {
            command: RemoteCommand::Publish {
                topic: "a/node_123/d/sensors/temp".to_string(),
                payload: b"23.5".to_vec(),
                qos: QoS::AtLeastOnce,
                retain: true,
                acknowledge: true,
            },
            fallback: CacheCommand::Enqueue {
                topic: b"a/node_123/d/sensors/temp".to_vec(),
                payload: b"23.5".to_vec(),
                qos: 1,
                retain: true,
            },
        }]
    );
}

#[test]
fn local_message_cached_when_remote_disconnected() {
    let actions = handle_local_event(&config(), local_message("d/foo"), false);
    assert_eq!(
        actions,
        vec![RouterAction::Cache(CacheCommand::Enqueue {
            topic: b"a/node_123/d/foo".to_vec(),
            payload: b"23.5".to_vec(),
            qos: 1,
            retain: true,
        })]
    );
}

#[test]
fn first_matching_forward_rule_wins() {
    // "raw/data" only matches the catch-all rule, which has no prefix.
    let actions = handle_local_event(&config(), local_message("raw/data"), false);
    assert_eq!(
        actions,
        vec![RouterAction::Cache(CacheCommand::Enqueue {
            topic: b"raw/data".to_vec(),
            payload: b"23.5".to_vec(),
            qos: 0,
            retain: true,
        })]
    );
    let mut cfg = config();
    cfg.forward.truncate(1);
    assert!(handle_local_event(&cfg, local_message("raw/data"), true).is_empty());
}

#[test]
fn remote_connection_publishes_state_subscribes_and_starts_replay() {
    let mut connected = false;
    let actions = handle_remote_event(&config(), RemoteEvent::Connected, &mut connected);
    assert!(connected);
    assert_eq!(
        actions,
        vec![
            RouterAction::Remote(RemoteCommand::Publish {
                topic: "bridge/state".to_string(),
                payload: b"1".to_vec(),
                qos: QoS::AtLeastOnce,
                retain: true,
                acknowledge: false,
            }),
            RouterAction::Remote(RemoteCommand::Subscribe {
                topic: "a/node_123/u/#".to_string(),
                qos: QoS::ExactlyOnce,
            }),
            RouterAction::Remote(RemoteCommand::Subscribe { topic: "x/#".to_string(), qos: QoS::AtLeastOnce }),
            RouterAction::Replay(ReplayCommand::RemoteConnected),
        ]
    );
}

#[test]
fn remote_disconnection_and_error_pause_replay() {
    let mut connected = true;
    let actions = handle_remote_event(&config(), RemoteEvent::Disconnected, &mut connected);
    assert!(!connected);
    assert_eq!(actions, vec![RouterAction::Replay(ReplayCommand::RemoteDisconnected)]);
    let mut connected = true;
    let actions = handle_remote_event(&config(), RemoteEvent::Error("gone".to_string()), &mut connected);
    assert!(!connected);
    assert_eq!(actions, vec![RouterAction::Replay(ReplayCommand::RemoteDisconnected)]);
}

#[test]
fn remote_message_forwarded_locally_without_cache() {
    let mut connected = true;
    let event = RemoteEvent::MessageReceived {
        topic: "a/node_123/u/commands/restart".to_string(),
        payload: b"now".to_vec(),
        qos: 1,
        retain: false,
    };
    let actions = handle_remote_event(&config(), event, &mut connected);
    assert!(connected);
    assert_eq!(
        actions,
        vec![RouterAction::Local(LocalCommand::Publish {
            topic: "u/commands/restart".to_string(),
            payload: b"now".to_vec(),
            qos: QoS::ExactlyOnce,
            retain: false,
        })]
    );
    // Matches the second rule, but is not under its prefix: dropped.
    let event = RemoteEvent::MessageReceived {
        topic: "x/1".to_string(),
        payload: vec![],
        qos: 0,
        retain: false,
    };
    assert!(handle_remote_event(&config(), event, &mut connected).is_empty());
    // Matches no rule: dropped.
    let event = RemoteEvent::MessageReceived {
        topic: "other".to_string(),
        payload: vec![],
        qos: 0,
        retain: false,
    };
    assert!(handle_remote_event(&config(), event, &mut connected).is_empty());
    assert!(connected);
}
