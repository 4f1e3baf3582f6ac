use convoy::mqtt_utils::qos::QoS;
use convoy::tasks::acks::AckTracker;

#[test]
fn qos0_publish_is_done_when_sent() {
    let mut t = AckTracker::new();
    t.on_queued(QoS::AtMostOnce, Some(7));
    assert_eq!(t.on_sent(0), Some(7));
    assert!(t.queued.is_empty());
    assert!(t.awaiting.is_empty());
}

#[test]
fn qos1_publish_waits_for_its_puback() {
    let mut t = AckTracker::new();
    t.on_queued(QoS::AtLeastOnce, Some(1));
    t.on_queued(QoS::AtLeastOnce, None);
    assert_eq!(t.on_sent(5), None);
    assert_eq!(t.on_sent(6), None);
    // A PUBCOMP does not complete a QoS 1 publish, nor a PUBACK of another id.
    assert_eq!(t.on_ack(5, true), None);
    assert_eq!(t.on_ack(9, false), None);
    assert_eq!(t.on_ack(6, false), None);
    assert_eq!(t.on_ack(5, false), Some(1));
    assert!(t.awaiting.is_empty());
}

#[test]
fn qos2_publish_waits_for_its_pubcomp_and_retransmission_changes_nothing() {
    let mut t = AckTracker::new();
    t.on_queued(QoS::ExactlyOnce, Some(3));
    t.on_queued(QoS::AtLeastOnce, Some(4));
    assert_eq!(t.on_sent(1), None);
    // The same packet id sent again is a retransmission.
    assert_eq!(t.on_sent(1), None);
    assert_eq!(t.queued.len(), 1);
    assert_eq!(t.on_ack(1, false), None);
    assert_eq!(t.on_ack(1, true), Some(3));
}

#[test]
fn clearing_gives_up_every_awaited_ticket() {
    let mut t = AckTracker::new();
    t.on_queued(QoS::AtLeastOnce, Some(1));
    t.on_queued(QoS::AtLeastOnce, None);
    t.on_queued(QoS::ExactlyOnce, Some(2));
    assert_eq!(t.on_sent(10), None);
    let mut given_up = t.clear();
    given_up.sort();
    assert_eq!(given_up, vec![1, 2]);
    assert!(t.queued.is_empty() && t.awaiting.is_empty());
}
