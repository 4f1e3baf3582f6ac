use convoy::mqtt_utils::qos::QoS;
use convoy::tasks::broker::{
    local_broker_actions, BrokerAction, PollOutcome, RemoteBrokerState, MAX_CONSECUTIVE_ERRORS,
};
use convoy::tasks::messages::{LocalEvent, RemoteEvent};

#[test]
fn local_outcomes_become_events() {
    assert_eq!(
        local_broker_actions(PollOutcome::ConnAck),
        vec![BrokerAction::Emit { event: LocalEvent::Connected, stop_if_closed: true }]
    );
    assert_eq!(
        local_broker_actions(PollOutcome::Publish {
            topic: "d/x".to_string(),
            payload: b"1".to_vec(),
            qos: QoS::ExactlyOnce,
            retain: true,
        }),
        vec![BrokerAction::Emit {
            event: LocalEvent::MessageReceived {
                topic: "d/x".to_string(),
                payload: b"1".to_vec(),
                qos: 2,
                retain: true,
            },
            stop_if_closed: true,
        }]
    );
    assert_eq!(
        local_broker_actions(PollOutcome::Disconnect),
        vec![BrokerAction::Emit { event: LocalEvent::Disconnected, stop_if_closed: true }]
    );
    assert!(local_broker_actions(PollOutcome::Other).is_empty());
    assert_eq!(
        local_broker_actions(PollOutcome::Error("refused".to_string())),
        vec![
            BrokerAction::Emit { event: LocalEvent::Error("refused".to_string()), stop_if_closed: false },
            BrokerAction::Pause { ms: 1000 },
        ]
    );
}

#[test]
fn remote_recreates_after_five_errors() {
    assert_eq!(MAX_CONSECUTIVE_ERRORS, 5);
    let mut s = RemoteBrokerState::new();
    for n in 1..5 {
        let actions = s.on_poll(PollOutcome::Error("e".to_string()));
        assert_eq!(s.consecutive_errors, n);
        assert!(!actions.contains(&BrokerAction::Recreate));
    }
    let actions = s.on_poll(PollOutcome::Error("e".to_string()));
    assert_eq!(
        actions,
        vec![
            BrokerAction::Recreate,
            BrokerAction::Emit { event: RemoteEvent::Error("e".to_string()), stop_if_closed: false },
            BrokerAction::Pause { ms: 1000 },
        ]
    );
    s.on_recreated(false);
    assert_eq!(s.consecutive_errors, 5);
    let actions = s.on_poll(PollOutcome::Error("e".to_string()));
    assert_eq!(actions[0], BrokerAction::Recreate);
    s.on_recreated(true);
    assert_eq!(s.consecutive_errors, 0);
}

#[test]
fn remote_connection_resets_errors() {
    let mut s = RemoteBrokerState::new();
    s.on_poll(PollOutcome::Error("e".to_string()));
    s.on_poll(PollOutcome::Error("e".to_string()));
    assert_eq!(
        s.on_poll(PollOutcome::ConnAck),
        vec![BrokerAction::Emit { event: RemoteEvent::Connected, stop_if_closed: true }]
    );
    assert_eq!(s.consecutive_errors, 0);
    assert!(s.on_poll(PollOutcome::Other).is_empty());
    assert_eq!(
        s.on_poll(PollOutcome::Disconnect),
        vec![BrokerAction::Emit { event: RemoteEvent::Disconnected, stop_if_closed: true }]
    );
    assert_eq!(s.consecutive_errors, 0);
}
