use convoy::bridge::Bridge;
use convoy::config::{
    default_busy_timeout_ms, default_eviction, default_flush_batch, default_flush_interval_ms,
    default_keep_alive_secs, default_max_inflight, default_max_rows, default_synchronous,
    BridgeConfig, BrokerConfig, CacheConfig, Config, EvictionPolicy, SynchronousMode, TlsConfig,
};
use convoy::messages::MqttEvent;
use convoy::mqtt_utils::client::{client_settings, parse_broker_addr, parse_port};
use convoy::mqtt_utils::message::MqttMessage;
use convoy::mqtt_utils::qos::{qos_from_u8, qos_to_u8, QoS};
use convoy::mqtt_utils::state::{connected_msg, disconnected_lwt};
use convoy::mqtt_utils::state_lwt::state_lwt;
use convoy::mqtt_utils::topic::MqttSubscription;
use convoy::tasks::mqtt_actor::{connack_actions, ActorAction};
use convoy::text::decimal_string;
use convoy::util::{hash_hex, payload_hash};

fn broker(addr: &str) -> BrokerConfig {
    BrokerConfig {
        addr: addr.to_string(),
        client_id: "id".to_string(),
        keep_alive_secs: 15,
        clean_session: true,
        max_inflight: 7,
        username: Some("user".to_string()),
        password: None,
        tls: None,
    }
}

#[test]
fn defaults() {
    assert_eq!(default_keep_alive_secs(), 30);
    assert_eq!(default_max_inflight(), 100);
    assert_eq!(default_max_rows(), 500_000);
    assert_eq!(default_eviction(), EvictionPolicy::DropOldest);
    assert_eq!(default_flush_batch(), 1000);
    assert_eq!(default_flush_interval_ms(), 100);
    assert_eq!(default_busy_timeout_ms(), 5000);
    assert_eq!(default_synchronous(), SynchronousMode::Full);
    let c = CacheConfig::default();
    assert_eq!(c.sqlite_path, "cache.sqlite");
    assert!(!c.cache_qos0);
    assert_eq!(c.max_rows, 500_000);
    assert_eq!(c.flush_batch, 1000);
}

#[test]
fn config_and_bridge_keep_their_parts() {
    let bridge = BridgeConfig {
        local: broker("127.0.0.1:1883"),
        remote: broker("remote:8883"),
        state_topic: "s".to_string(),
        state_online_payload: "1".to_string(),
        state_offline_payload: "0".to_string(),
        forward: vec![],
        subscribe: vec![],
    };
    let config = Config::new(bridge.clone(), CacheConfig::default());
    assert_eq!(config.bridge, bridge);
    assert_eq!(config.cache, CacheConfig::default());
    let b = Bridge::new(bridge.clone(), CacheConfig::default()).unwrap();
    assert_eq!(b.config(), &bridge);
    assert_eq!(b.cache_config(), &CacheConfig::default());
}

#[test]
fn qos_numbers() {
    assert_eq!(qos_from_u8(0), QoS::AtMostOnce);
    assert_eq!(qos_from_u8(1), QoS::AtLeastOnce);
    assert_eq!(qos_from_u8(2), QoS::ExactlyOnce);
    assert_eq!(qos_from_u8(3), QoS::AtLeastOnce);
    assert_eq!(qos_from_u8(255), QoS::AtLeastOnce);
    for q in [QoS::AtMostOnce, QoS::AtLeastOnce, QoS::ExactlyOnce] {
        assert_eq!(qos_from_u8(qos_to_u8(q)), q);
    }
}

#[test]
fn broker_addresses() {
    assert_eq!(parse_broker_addr("127.0.0.1:1883"), ("127.0.0.1".to_string(), 1883));
    assert_eq!(parse_broker_addr("mqtt.example.com:8883"), ("mqtt.example.com".to_string(), 8883));
    assert_eq!(parse_broker_addr("host"), ("host".to_string(), 1883));
    assert_eq!(parse_broker_addr("host:notaport"), ("host".to_string(), 1883));
    assert_eq!(parse_broker_addr("host:70000"), ("host".to_string(), 1883));
    assert_eq!(parse_broker_addr("host:+42"), ("host".to_string(), 42));
    assert_eq!(parse_broker_addr("::1"), ("::1".to_string(), 1883));
    assert_eq!(parse_broker_addr(":80"), ("".to_string(), 80));
}

#[test]
fn port_numbers() {
    let p = |s: &str| parse_port(&s.chars().collect());
    assert_eq!(p("0"), Some(0));
    assert_eq!(p("65535"), Some(65535));
    assert_eq!(p("65536"), None);
    assert_eq!(p("00080"), Some(80));
    assert_eq!(p(""), None);
    assert_eq!(p("+"), None);
    assert_eq!(p("-1"), None);
    assert_eq!(p("12a"), None);
    assert_eq!(p("999999999999x"), None);
    for s in ["0", "1", "65535", "+7", "65536", "", "x", "08"] {
        assert_eq!(p(s), s.parse::<u16>().ok());
    }
}

#[test]
fn client_settings_from_config() {
    let lwt = disconnected_lwt("bridge/state", "0");
    let s = client_settings(&broker("mqtt.example.com:8883"), Some(lwt.clone()));
    assert_eq!(s.client_id, "id");
    assert_eq!(s.host, "mqtt.example.com");
    assert_eq!(s.port, 8883);
    assert_eq!(s.keep_alive_secs, 15);
    assert!(s.clean_session);
    assert_eq!(s.max_inflight, 7);
    assert_eq!(s.credentials, None); // password missing
    assert_eq!(s.last_will, Some(lwt));
    let mut cfg = broker("h");
    cfg.password = Some("pw".to_string());
    cfg.tls = Some(TlsConfig {
        ca_file: Some("/etc/ca.pem".to_string()),
        client_cert: None,
        client_password: None,
        danger_accept_invalid_certs: false,
    });
    let s = client_settings(&cfg, None);
    assert_eq!(s.credentials, Some(("user".to_string(), "pw".to_string())));
    assert_eq!(s.tls, cfg.tls);
    assert_eq!(s.port, 1883);
}

#[test]
fn state_messages() {
    let m = connected_msg("bridge/state", "1");
    assert_eq!(
        m,
        MqttMessage {
            topic: "bridge/state".to_string(),
            payload: b"1".to_vec(),
            qos: QoS::AtLeastOnce,
            retain: true,
        }
    );
    let w = state_lwt("bridge/state", "0");
    assert_eq!(w.topic, "bridge/state");
    assert_eq!(w.message, b"0".to_vec());
    assert_eq!(w.qos, QoS::AtLeastOnce);
    assert!(w.retain);
    assert_eq!(w, disconnected_lwt("bridge/state", "0"));
}

#[test]
fn payload_hash_is_short_and_stable() {
    let hash1 = payload_hash(b"test message");
    let hash2 = payload_hash(b"test message");
    assert_eq!(hash1, hash2); // Same payload = same hash
    assert_eq!(hash1.len(), 8);
    assert!(hash1.chars().all(|c| c.is_ascii_hexdigit() && !c.is_ascii_uppercase()));
    assert_ne!(payload_hash(b"a"), payload_hash(b"b"));
}

#[test]
fn hash_text_is_upper_half_in_hex() {
    assert_eq!(hash_hex(0), "00000000");
    assert_eq!(hash_hex(0x1234_abcd_ffff_ffff), "1234abcd");
    assert_eq!(hash_hex(u64::MAX), "ffffffff");
    assert_eq!(hash_hex(0x0000_00f0_0000_0000), "000000f0");
    let h = 0xdead_beef_0123_4567u64;
    assert_eq!(hash_hex(h), format!("{:08x}", (h >> 32) as u32));
}

#[test]
fn decimal_strings() {
    assert_eq!(decimal_string(0), "0");
    assert_eq!(decimal_string(7), "7");
    assert_eq!(decimal_string(500_000), "500000");
    assert_eq!(decimal_string(u64::MAX), u64::MAX.to_string());
}

#[test]
fn connection_thread_subscribes_after_online_message() {
    let online = connected_msg("bridge/state", "1");
    let subs = vec![
        MqttSubscription { topic: "a/#".to_string(), qos: QoS::AtLeastOnce },
        MqttSubscription { topic: "b".to_string(), qos: QoS::AtMostOnce },
    ];
    assert_eq!(
        connack_actions(&Some(online.clone()), &subs),
        vec![
            ActorAction::Publish(online),
            ActorAction::Subscribe(subs[0].clone()),
            ActorAction::Subscribe(subs[1].clone()),
            ActorAction::Emit(MqttEvent::Connected),
        ]
    );
    assert_eq!(connack_actions(&None, &vec![]), vec![ActorAction::Emit(MqttEvent::Connected)]);
}
