//! The cache task's service: each cache command is run against the
//! database and answered with its result.

use vstd::prelude::*;

use crate::cache::{CachedMessage, count, delete_batch, dequeue_batch, enqueue, cache_full_message, oldest_first};
use crate::config::{CacheConfig, EvictionPolicy};
use crate::error::{BridgeError, Result};
use crate::tasks::messages::CacheCommand;

verus! {

/// The answer to a cache command.
#[derive(Debug)]
pub enum CacheReply {
    /// Answer to `Enqueue`
    Enqueued(Result<()>),
    /// Answer to `DequeueBatch`
    Batch(Result<Vec<CachedMessage>>),
    /// Answer to `DeleteBatch`
    Deleted(Result<()>),
    /// Answer to `Count`
    Counted(Result<usize>),
}

/// Runs a cache command and returns its answer, of the kind of the
/// command: an offered message goes through [`enqueue`], a batch request
/// through [`dequeue_batch`], a deletion through [`delete_batch`] and a
/// count through [`count`].
pub fn handle_cache_command(
    conn: &rusqlite::Connection,
    config: &CacheConfig,
    command: CacheCommand,
) -> (reply: CacheReply)
    ensures
        match command {
            CacheCommand::Enqueue { topic: _, payload: _, qos, retain: _ } => reply matches CacheReply::Enqueued(
                r,
            ) && (qos == 0 && !config.cache_qos0 ==> r is Ok) && (r matches Err(
                BridgeError::CacheFull(m),
            ) ==> m@ == cache_full_message(config.max_rows) && config.eviction
                == EvictionPolicy::RejectNew && config.max_rows > 0) && (r matches Err(e) ==> !(
            e is TopicMapping)) && ((config.max_rows == 0 || config.eviction
                == EvictionPolicy::DropOldest) ==> !(r matches Err(BridgeError::CacheFull(_)))),
            CacheCommand::DequeueBatch { limit } => reply matches CacheReply::Batch(r) && (r is Err
                ==> r->Err_0 is Sqlite) && (r matches Ok(v) ==> (v@.len() <= limit && oldest_first(
                v@,
            ))),
            CacheCommand::DeleteBatch { ids } => reply matches CacheReply::Deleted(r) && (ids@.len() == 0
                ==> r is Ok) && (r is Err ==> r->Err_0 is Sqlite),
            CacheCommand::Count => reply matches CacheReply::Counted(r) && (r is Err ==> r->Err_0 is Sqlite),
        },
{
    match command {
        CacheCommand::Enqueue { topic, payload, qos, retain } => CacheReply::Enqueued(
            enqueue(conn, config, topic.as_slice(), payload.as_slice(), qos, retain),
        ),
        CacheCommand::DequeueBatch { limit } => CacheReply::Batch(dequeue_batch(conn, limit)),
        CacheCommand::DeleteBatch { ids } => CacheReply::Deleted(delete_batch(conn, ids.as_slice())),
        CacheCommand::Count => CacheReply::Counted(count(conn)),
    }
}

} // verus!
