use convoy::cache::{
    database_settings, enqueue_with_count, messages_from_rows, count_statement, dequeue_statement,
    count, delete_batch, delete_statement, dequeue_batch, enqueue, enqueue_decision, open_database,
    sqlite_reply, synchronous_value, EnqueueDecision,
};
use convoy::config::{CacheConfig, EvictionPolicy, SynchronousMode};
use convoy::tasks::cache::{handle_cache_command, CacheReply};
use convoy::tasks::messages::CacheCommand;
use convoy::BridgeError;

fn memory_config(max_rows: usize, eviction: EvictionPolicy, cache_qos0: bool) -> CacheConfig {
    CacheConfig {
        sqlite_path: ":memory:".to_string(),
        cache_qos0,
        max_rows,
        eviction,
        ..CacheConfig::default()
    }
}

#[test]
fn decision_skips_qos0_unless_cached() {
    let cfg = memory_config(10, EvictionPolicy::DropOldest, false);
    assert_eq!(enqueue_decision(&cfg, 0, 3), EnqueueDecision::Skip);
    let cfg = memory_config(10, EvictionPolicy::DropOldest, true);
    assert_eq!(enqueue_decision(&cfg, 0, 3), EnqueueDecision::Insert { evict: 0 });
}

#[test]
fn decision_at_limit() {
    let drop = memory_config(10, EvictionPolicy::DropOldest, false);
    assert_eq!(enqueue_decision(&drop, 1, 9), EnqueueDecision::Insert { evict: 0 });
    assert_eq!(enqueue_decision(&drop, 1, 10), EnqueueDecision::Insert { evict: 1 });
    assert_eq!(enqueue_decision(&drop, 2, 13), EnqueueDecision::Insert { evict: 4 });
    let reject = memory_config(10, EvictionPolicy::RejectNew, false);
    assert_eq!(enqueue_decision(&reject, 1, 10), EnqueueDecision::Reject);
    assert_eq!(enqueue_decision(&reject, 1, 9), EnqueueDecision::Insert { evict: 0 });
    let unbounded = memory_config(0, EvictionPolicy::RejectNew, false);
    assert_eq!(enqueue_decision(&unbounded, 1, 1_000_000), EnqueueDecision::Insert { evict: 0 });
}

#[test]
fn synchronous_values() {
    assert_eq!(synchronous_value(SynchronousMode::Full), "FULL");
    assert_eq!(synchronous_value(SynchronousMode::Normal), "NORMAL");
    assert_eq!(synchronous_value(SynchronousMode::Off), "OFF");
}

#[test]
fn delete_statement_has_one_placeholder_per_id() {
    assert_eq!(delete_statement(1), "DELETE FROM msg_queue WHERE id IN (?)");
    assert_eq!(delete_statement(3), "DELETE FROM msg_queue WHERE id IN (?,?,?)");
}

#[test]
fn enqueue_then_dequeue_in_fifo_order() {
    let cfg = memory_config(100, EvictionPolicy::DropOldest, false);
    let conn = open_database(&cfg).unwrap();
    assert_eq!(count(&conn).unwrap(), 0);
    enqueue(&conn, &cfg, b"edge/a", b"1", 1, false).unwrap();
    enqueue(&conn, &cfg, b"edge/b", b"2", 2, true).unwrap();
    enqueue(&conn, &cfg, b"edge/c", b"3", 0, false).unwrap(); // QoS 0: skipped
    assert_eq!(count(&conn).unwrap(), 2);
    let batch = dequeue_batch(&conn, 10).unwrap();
    assert_eq!(batch.len(), 2);
    assert_eq!(batch[0].topic, b"edge/a".to_vec());
    assert_eq!(batch[0].payload, b"1".to_vec());
    assert_eq!(batch[0].qos, 1);
    assert!(!batch[0].retain);
    assert_eq!(batch[1].topic, b"edge/b".to_vec());
    assert_eq!(batch[1].qos, 2);
    assert!(batch[1].retain);
    assert!(batch[0].id < batch[1].id);
    assert_eq!(dequeue_batch(&conn, 1).unwrap().len(), 1);
    delete_batch(&conn, &[batch[0].id]).unwrap();
    let rest = dequeue_batch(&conn, 10).unwrap();
    assert_eq!(rest.len(), 1);
    assert_eq!(rest[0].topic, b"edge/b".to_vec());
    delete_batch(&conn, &[]).unwrap();
    assert_eq!(count(&conn).unwrap(), 1);
}

#[test]
fn drop_oldest_keeps_the_newest() {
    let cfg = memory_config(2, EvictionPolicy::DropOldest, false);
    let conn = open_database(&cfg).unwrap();
    for t in ["t/1", "t/2", "t/3"] {
        enqueue(&conn, &cfg, t.as_bytes(), b"x", 1, false).unwrap();
    }
    assert_eq!(count(&conn).unwrap(), 2);
    let batch = dequeue_batch(&conn, 10).unwrap();
    assert_eq!(batch[0].topic, b"t/2".to_vec());
    assert_eq!(batch[1].topic, b"t/3".to_vec());
}

#[test]
fn reject_new_refuses_when_full() {
    let cfg = memory_config(2, EvictionPolicy::RejectNew, false);
    let conn = open_database(&cfg).unwrap();
    enqueue(&conn, &cfg, b"t/1", b"x", 1, false).unwrap();
    enqueue(&conn, &cfg, b"t/2", b"x", 1, false).unwrap();
    match enqueue(&conn, &cfg, b"t/3", b"x", 1, false) {
        Err(BridgeError::CacheFull(m)) => assert_eq!(m, "Cache at max_rows limit: 2"),
        other => panic!("unexpected result: {:?}", other),
    }
    assert_eq!(count(&conn).unwrap(), 2);
    // A skipped QoS 0 message is no refusal.
    enqueue(&conn, &cfg, b"t/4", b"x", 0, false).unwrap();
}

#[test]
fn cache_commands_are_answered_in_kind() {
    let cfg = memory_config(100, EvictionPolicy::DropOldest, true);
    let conn = open_database(&cfg).unwrap();
    let reply = handle_cache_command(
        &conn,
        &cfg,
        CacheCommand::Enqueue { topic: b"a".to_vec(), payload: b"p".to_vec(), qos: 0, retain: false },
    );
    assert!(matches!(reply, CacheReply::Enqueued(Ok(()))));
    match handle_cache_command(&conn, &cfg, CacheCommand::Count) {
        CacheReply::Counted(Ok(n)) => assert_eq!(n, 1),
        other => panic!("unexpected reply: {:?}", other),
    }
    let id = match handle_cache_command(&conn, &cfg, CacheCommand::DequeueBatch { limit: 5 }) {
        CacheReply::Batch(Ok(b)) => b[0].id,
        other => panic!("unexpected reply: {:?}", other),
    };
    let reply = handle_cache_command(&conn, &cfg, CacheCommand::DeleteBatch { ids: vec![id] });
    assert!(matches!(reply, CacheReply::Deleted(Ok(()))));
    match handle_cache_command(&conn, &cfg, CacheCommand::Count) {
        CacheReply::Counted(Ok(n)) => assert_eq!(n, 0),
        other => panic!("unexpected reply: {:?}", other),
    }
}

#[test]
fn open_database_fails_on_unreachable_path() {
    let cfg = CacheConfig {
        sqlite_path: "/nonexistent-dir-for-convoy/sub/cache.sqlite".to_string(),
        ..CacheConfig::default()
    };
    assert!(matches!(open_database(&cfg), Err(BridgeError::Sqlite(_))));
}

#[test]
fn sqlite_reply_keeps_values_and_wraps_errors() {
    assert!(matches!(sqlite_reply::<usize>(Ok(7)), Ok(7)));
    let failed = sqlite_reply::<usize>(Err(rusqlite::Error::QueryReturnedNoRows));
    assert!(matches!(
        failed,
        Err(BridgeError::Sqlite(rusqlite::Error::QueryReturnedNoRows))
    ));
}

#[test]
fn enqueue_with_count_refuses_a_full_reject_new_cache() {
    let cfg = memory_config(3, EvictionPolicy::RejectNew, false);
    let conn = open_database(&cfg).unwrap();
    match enqueue_with_count(&conn, &cfg, b"t/1", b"x", 1, false, 3) {
        Err(BridgeError::CacheFull(m)) => assert_eq!(m, "Cache at max_rows limit: 3"),
        other => panic!("unexpected result: {:?}", other),
    }
    assert_eq!(count(&conn).unwrap(), 0);
    assert!(enqueue_with_count(&conn, &cfg, b"t/1", b"x", 0, false, 3).is_ok());
    assert_eq!(count(&conn).unwrap(), 0);
    enqueue_with_count(&conn, &cfg, b"t/2", b"y", 2, true, 2).unwrap();
    let batch = dequeue_batch(&conn, 10).unwrap();
    assert_eq!(batch.len(), 1);
    assert_eq!(batch[0].topic, b"t/2".to_vec());
    assert_eq!(batch[0].payload, b"y".to_vec());
    assert_eq!(batch[0].qos, 2);
    assert!(batch[0].retain);
}

#[test]
fn enqueue_with_count_evicts_the_oldest() {
    let cfg = memory_config(2, EvictionPolicy::DropOldest, false);
    let conn = open_database(&cfg).unwrap();
    for t in ["t/1", "t/2"] {
        enqueue(&conn, &cfg, t.as_bytes(), b"x", 1, false).unwrap();
    }
    enqueue_with_count(&conn, &cfg, b"t/3", b"x", 1, false, 2).unwrap();
    let batch = dequeue_batch(&conn, 10).unwrap();
    let topics: Vec<Vec<u8>> = batch.into_iter().map(|m| m.topic).collect();
    assert_eq!(topics, vec![b"t/2".to_vec(), b"t/3".to_vec()]);
}

#[test]
fn dequeue_reads_oldest_first_and_at_most_limit() {
    let cfg = memory_config(100, EvictionPolicy::DropOldest, false);
    let conn = open_database(&cfg).unwrap();
    for i in 0..5 {
        enqueue(&conn, &cfg, format!("t/{}", i).as_bytes(), b"x", 1, false).unwrap();
    }
    let batch = dequeue_batch(&conn, 3).unwrap();
    assert_eq!(batch.len(), 3);
    assert_eq!(batch[0].topic, b"t/0".to_vec());
    assert_eq!(batch[2].topic, b"t/2".to_vec());
    assert!(batch[0].id < batch[1].id && batch[1].id < batch[2].id);
}

#[test]
fn messages_keep_the_row_fields() {
    let rows = vec![(7i64, b"a".to_vec(), b"p".to_vec(), 1u8, true, 42i64)];
    let v = messages_from_rows(&rows);
    assert_eq!(v.len(), 1);
    assert_eq!(v[0].id, 7);
    assert_eq!(v[0].topic, b"a".to_vec());
    assert_eq!(v[0].payload, b"p".to_vec());
    assert_eq!(v[0].qos, 1);
    assert!(v[0].retain);
    assert_eq!(v[0].ts_enqueued, 42);
}

#[test]
fn settings_follow_the_configuration() {
    let cfg = CacheConfig { synchronous: SynchronousMode::Off, busy_timeout_ms: 1234, ..CacheConfig::default() };
    let s = database_settings(&cfg);
    assert_eq!(s.journal_mode, "WAL");
    assert_eq!(s.synchronous, "OFF");
    assert_eq!(s.busy_timeout_ms, 1234);
    assert!(s.schema.starts_with("CREATE TABLE IF NOT EXISTS msg_queue"));
    assert_eq!(count_statement(), "SELECT COUNT(*) FROM msg_queue");
    assert!(dequeue_statement().ends_with("ORDER BY id LIMIT ?1"));
}
