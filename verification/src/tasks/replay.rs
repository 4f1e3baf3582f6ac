//! Replay of the cache to the remote broker.
//!
//! A replay counts the cached messages and, if there are any, drains the
//! cache batch by batch, oldest first: each message of a batch is
//! published and its acknowledgment awaited; the messages acknowledged are
//! deleted from the cache together, and the replay pauses before the next
//! batch. A failed publish ends the batch; an empty or failed batch ends
//! the replay, which then reports how many messages remain.
//!
//! The replay is a state machine: the replay task hands each outcome to
//! [`ReplayState::step`] and carries out the actions it returns.

use vstd::prelude::*;

use crate::cache::CachedMessage;
use crate::mqtt_utils::qos::{qos_from_u8, spec_qos_from_u8};
use crate::tasks::messages::{CacheCommand, RemoteCommand, ReplayCommand};
use crate::tasks::router::{is_enqueue, is_remote_publish};
use crate::text::{lossy_utf8, utf8_lossy};

verus! {

/// Where a replay stands.
#[derive(Debug)]
pub enum ReplayStep {
    /// No replay is running.
    Idle,
    /// Waiting for the number of cached messages.
    Counting,
    /// Waiting for a batch of cached messages.
    Fetching,
    /// Publishing a batch: the acknowledgment of `batch[next]` is awaited
    /// and `published` holds the ids of the messages acknowledged so far.
    Publishing { batch: Vec<CachedMessage>, next: usize, published: Vec<i64> },
    /// Waiting for the published messages to be deleted.
    Deleting,
    /// Waiting out the pause between batches.
    Pausing,
    /// Waiting for the number of messages left, to report it.
    Reporting,
}

/// A replay with its batch size and pause.
#[derive(Debug)]
pub struct ReplayState {
    /// Number of messages asked for per batch
    pub flush_batch: usize,
    /// Milliseconds of pause between batches
    pub flush_interval_ms: u64,
    /// Where the replay stands
    pub step: ReplayStep,
}

/// An outcome handed to the replay.
#[derive(Debug)]
pub enum ReplayEvent {
    /// A replay is to start.
    Started,
    /// The number of cached messages, or `None` when the cache could not
    /// answer.
    Counted(Option<usize>),
    /// A batch of cached messages, or `None` when the cache could not
    /// answer.
    Fetched(Option<Vec<CachedMessage>>),
    /// The outcome of the awaited publish: `true` once the remote broker
    /// acknowledged it (PUBACK for QoS 1, PUBCOMP for QoS 2; sent, for QoS
    /// 0).
    Published(bool),
    /// The deletion was handed to the cache (`cache_available`), whatever
    /// the cache answered, or the cache task was gone.
    Deleted { cache_available: bool },
    /// The pause is over.
    Paused,
}

/// What the replay task is to do next.
#[derive(Debug, PartialEq, Eq)]
pub enum ReplayAction {
    /// Ask the cache for the number of cached messages.
    RequestCount,
    /// Ask the cache for the `limit` oldest messages.
    RequestBatch { limit: usize },
    /// Send this publish, with acknowledgment, to the remote broker task.
    Publish(RemoteCommand),
    /// Ask the cache to delete these messages.
    DeleteBatch { ids: Vec<i64> },
    /// Pause for `ms` milliseconds.
    Pause { ms: u64 },
    /// Ask the cache for the number of messages left, to report it.
    ReportRemaining,
    /// The replay is over.
    Finished,
}

/// The ids of a sequence of messages.
pub open spec fn ids_of(batch: Seq<CachedMessage>) -> Seq<i64> {
    batch.map_values(|m: CachedMessage| m.id)
}

/// `c` publishes the cached message `m` to the remote broker: on its topic
/// read as UTF-8 (the decoded text when the topic is valid UTF-8), with
/// its payload, QoS level and retain flag, asking for the acknowledgment.
pub open spec fn is_cached_publish(c: RemoteCommand, m: CachedMessage) -> bool {
    &&& is_remote_publish(c, lossy_utf8(m.topic@), m.payload@, spec_qos_from_u8(m.qos), m.retain, true)
    &&& vstd::utf8::valid_utf8(m.topic@) ==> c->Publish_topic@ == vstd::utf8::decode_utf8(m.topic@)
}

/// `a` publishes the cached message `m` to the remote broker (see
/// [`is_cached_publish`]).
pub open spec fn is_replay_publish(a: ReplayAction, m: CachedMessage) -> bool {
    a matches ReplayAction::Publish(c) && is_cached_publish(c, m)
}

/// A cached message is replayed as it would have been published live: when
/// the cache holds what the router offered it for a message (topic as
/// UTF-8, payload, the rule's QoS number, retain flag), the replay
/// publishes on the same topic, with the same payload, QoS level and retain
/// flag as the live publish of that message.
pub proof fn lemma_replayed_as_live(
    offered: CacheCommand,
    m: CachedMessage,
    c: RemoteCommand,
    topic: Seq<char>,
    payload: Seq<u8>,
    qos: u8,
    retain: bool,
)
    requires
        is_enqueue(offered, topic, payload, qos, retain),
        m.topic@ == offered->Enqueue_topic@,
        m.payload@ == offered->Enqueue_payload@,
        m.qos == offered->Enqueue_qos,
        m.retain == offered->Enqueue_retain,
        is_cached_publish(c, m),
    ensures
        is_remote_publish(c, topic, payload, spec_qos_from_u8(qos), retain, true),
{
    vstd::utf8::encode_utf8_valid_utf8(topic);
    vstd::utf8::encode_utf8_decode_utf8(topic);
}

/// The publishing state keeps its bookkeeping: the awaited message is in
/// the batch and the ids published so far are those of the messages
/// before it.
pub open spec fn step_wf(step: ReplayStep) -> bool {
    match step {
        ReplayStep::Publishing { batch, next, published } => next < batch@.len() && published@
            == ids_of(batch@.take(next as int)),
        _ => true,
    }
}

/// The end of a batch once `acked` of its messages were acknowledged: the
/// acknowledged messages are deleted, or, if there are none, the replay
/// pauses.
pub open spec fn batch_end(
    batch: Seq<CachedMessage>,
    acked: int,
    interval: u64,
    new: ReplayStep,
    actions: Seq<ReplayAction>,
) -> bool {
    &&& actions.len() == 1
    &&& if acked > 0 {
        &&& new is Deleting
        &&& actions[0] matches ReplayAction::DeleteBatch { ids } && ids@ == ids_of(
            batch.take(acked),
        )
    } else {
        &&& new is Pausing
        &&& actions[0] == ReplayAction::Pause { ms: interval }
    }
}

/// One step of the replay: how `event` moves the replay from `old` to
/// `new` and which actions it asks for. An event the current step does
/// not wait for changes nothing and asks for nothing.
pub open spec fn replay_step(
    old: ReplayState,
    event: ReplayEvent,
    new: ReplayState,
    actions: Seq<ReplayAction>,
) -> bool {
    &&& new.flush_batch == old.flush_batch
    &&& new.flush_interval_ms == old.flush_interval_ms
    &&& match (old.step, event) {
        (ReplayStep::Idle, ReplayEvent::Started) => {
            &&& new.step is Counting
            &&& actions == seq![ReplayAction::RequestCount]
        },
        (ReplayStep::Counting, ReplayEvent::Counted(count)) => if count matches Some(n) && n > 0 {
            &&& new.step is Fetching
            &&& actions == seq![ReplayAction::RequestBatch { limit: old.flush_batch }]
        } else {
            &&& new.step is Idle
            &&& actions == seq![ReplayAction::Finished]
        },
        (ReplayStep::Fetching, ReplayEvent::Fetched(fetched)) => match fetched {
            Some(b) if b@.len() > 0 => {
                &&& new.step matches ReplayStep::Publishing { batch, next, published } && batch@
                    == b@ && next == 0 && published@.len() == 0
                &&& actions.len() == 1
                &&& is_replay_publish(actions[0], b@[0])
            },
            _ => {
                &&& new.step is Reporting
                &&& actions == seq![ReplayAction::ReportRemaining]
            },
        },
        (ReplayStep::Publishing { batch, next, published }, ReplayEvent::Published(ok)) => if ok
            && next + 1 < batch@.len() {
            &&& new.step matches ReplayStep::Publishing { batch: b, next: n, published: p } && b@
                == batch@ && n == next + 1 && p@ == ids_of(batch@.take(next + 1))
            &&& actions.len() == 1
            &&& is_replay_publish(actions[0], batch@[next + 1])
        } else {
            batch_end(
                batch@,
                if ok {
                    next + 1
                } else {
                    next as int
                },
                old.flush_interval_ms,
                new.step,
                actions,
            )
        },
        (ReplayStep::Deleting, ReplayEvent::Deleted { cache_available }) => if cache_available {
            &&& new.step is Pausing
            &&& actions == seq![ReplayAction::Pause { ms: old.flush_interval_ms }]
        } else {
            &&& new.step is Reporting
            &&& actions == seq![ReplayAction::ReportRemaining]
        },
        (ReplayStep::Pausing, ReplayEvent::Paused) => {
            &&& new.step is Fetching
            &&& actions == seq![ReplayAction::RequestBatch { limit: old.flush_batch }]
        },
        (ReplayStep::Reporting, ReplayEvent::Counted(_)) => {
            &&& new.step is Idle
            &&& actions == seq![ReplayAction::Finished]
        },
        _ => {
            &&& new.step == old.step
            &&& actions.len() == 0
        },
    }
}

/// A replay deletes only messages it has published and seen acknowledged:
/// a deletion comes right after a publish outcome and names the first
/// messages of the batch, in the order they were published, up to and
/// including the last one acknowledged.
pub proof fn lemma_deletes_only_acknowledged(
    old: ReplayState,
    event: ReplayEvent,
    new: ReplayState,
    actions: Seq<ReplayAction>,
    i: int,
)
    requires
        step_wf(old.step),
        replay_step(old, event, new, actions),
        0 <= i < actions.len(),
        actions[i] is DeleteBatch,
    ensures
        old.step matches ReplayStep::Publishing { batch, next, published } && event matches ReplayEvent::Published(
            ok,
        ) && actions[i] matches ReplayAction::DeleteBatch { ids } && ids@ == ids_of(
            batch@.take(
                if ok {
                    next + 1
                } else {
                    next as int
                },
            ),
        ) && ids@.len() > 0,
{
}

/// A failed publish ends its batch: nothing more of the batch is
/// published, and the replay goes on to delete what was acknowledged or,
/// if nothing was, to pause.
pub proof fn lemma_failed_publish_ends_batch(
    old: ReplayState,
    new: ReplayState,
    actions: Seq<ReplayAction>,
)
    requires
        step_wf(old.step),
        old.step is Publishing,
        replay_step(old, ReplayEvent::Published(false), new, actions),
    ensures
        forall|i: int| 0 <= i < actions.len() ==> !(#[trigger] actions[i] is Publish),
        new.step is Deleting || new.step is Pausing,
{
}

/// The publish command that replays a cached message.
fn replay_publish(m: &CachedMessage) -> (a: ReplayAction)
    ensures
        is_replay_publish(a, *m),
{
    ReplayAction::Publish(
        RemoteCommand::Publish {
            topic: utf8_lossy(m.topic.as_slice()),
            payload: vstd::slice::slice_to_vec(m.payload.as_slice()),
            qos: qos_from_u8(m.qos),
            retain: m.retain,
            acknowledge: true,
        },
    )
}

proof fn lemma_ids_take_push(batch: Seq<CachedMessage>, k: int)
    requires
        0 <= k < batch.len(),
    ensures
        ids_of(batch.take(k)).push(batch[k].id) == ids_of(batch.take(k + 1)),
{
    assert(ids_of(batch.take(k)).push(batch[k].id) =~= ids_of(batch.take(k + 1)));
}

impl ReplayState {
    /// A replay that is not running, with the given batch size and pause.
    pub fn new(flush_batch: usize, flush_interval_ms: u64) -> (r: Self)
        ensures
            r.flush_batch == flush_batch,
            r.flush_interval_ms == flush_interval_ms,
            r.step is Idle,
    {
        ReplayState { flush_batch, flush_interval_ms, step: ReplayStep::Idle }
    }

    /// Whether the replay is over (or never started).
    pub fn is_idle(&self) -> (r: bool)
        ensures
            r == self.step is Idle,
    {
        match self.step {
            ReplayStep::Idle => true,
            _ => false,
        }
    }

    /// Moves the replay by one outcome (see [`replay_step`]) and returns
    /// the actions to carry out.
    pub fn step(&mut self, event: ReplayEvent) -> (actions: Vec<ReplayAction>)
        requires
            step_wf(old(self).step),
        ensures
            step_wf(final(self).step),
            replay_step(*old(self), event, *final(self), actions@),
    {
        let mut step = ReplayStep::Idle;
        core::mem::swap(&mut step, &mut self.step);
        assert(step_wf(step));
        let mut actions: Vec<ReplayAction> = Vec::new();
        match (step, event) {
            (ReplayStep::Idle, ReplayEvent::Started) => {
                self.step = ReplayStep::Counting;
                actions.push(ReplayAction::RequestCount);
            },
            (ReplayStep::Counting, ReplayEvent::Counted(count)) => {
                match count {
                    Some(n) if n > 0 => {
                        self.step = ReplayStep::Fetching;
                        actions.push(ReplayAction::RequestBatch { limit: self.flush_batch });
                    },
                    _ => {
                        self.step = ReplayStep::Idle;
                        actions.push(ReplayAction::Finished);
                    },
                }
            },
            (ReplayStep::Fetching, ReplayEvent::Fetched(fetched)) => {
                match fetched {
                    Some(batch) if batch.len() > 0 => {
                        actions.push(replay_publish(&batch[0]));
                        proof {
                            assert(ids_of(batch@.take(0)) =~= Seq::<i64>::empty());
                        }
                        self.step = ReplayStep::Publishing { batch, next: 0, published: Vec::new() };
                    },
                    _ => {
                        self.step = ReplayStep::Reporting;
                        actions.push(ReplayAction::ReportRemaining);
                    },
                }
            },
            (ReplayStep::Publishing { batch, next, mut published }, ReplayEvent::Published(ok)) => {
                let len = batch.len();
                assert(next < len);
                let acked = if ok {
                    proof {
                        lemma_ids_take_push(batch@, next as int);
                    }
                    published.push(batch[next].id);
                    next + 1
                } else {
                    next
                };
                if ok && acked < batch.len() {
                    actions.push(replay_publish(&batch[acked]));
                    self.step = ReplayStep::Publishing { batch, next: acked, published };
                } else if published.len() > 0 {
                    self.step = ReplayStep::Deleting;
                    actions.push(ReplayAction::DeleteBatch { ids: published });
                } else {
                    self.step = ReplayStep::Pausing;
                    actions.push(ReplayAction::Pause { ms: self.flush_interval_ms });
                }
            },
            (ReplayStep::Deleting, ReplayEvent::Deleted { cache_available }) => {
                if cache_available {
                    self.step = ReplayStep::Pausing;
                    actions.push(ReplayAction::Pause { ms: self.flush_interval_ms });
                } else {
                    self.step = ReplayStep::Reporting;
                    actions.push(ReplayAction::ReportRemaining);
                }
            },
            (ReplayStep::Pausing, ReplayEvent::Paused) => {
                self.step = ReplayStep::Fetching;
                actions.push(ReplayAction::RequestBatch { limit: self.flush_batch });
            },
            (ReplayStep::Reporting, ReplayEvent::Counted(_)) => {
                self.step = ReplayStep::Idle;
                actions.push(ReplayAction::Finished);
            },
            (other, _) => {
                self.step = other;
            },
        }
        actions
    }
}

/// Whether the replay is to run after a replay command, and whether the
/// remote broker counts as connected afterwards: a trigger runs it only
/// while connected, a connection marks the remote connected and runs it,
/// a disconnection marks it disconnected.
pub fn on_replay_command(remote_connected: &mut bool, command: ReplayCommand) -> (run: bool)
    ensures
        match command {
            ReplayCommand::Trigger => *final(remote_connected) == *old(remote_connected) && run
                == *old(remote_connected),
            ReplayCommand::RemoteConnected => *final(remote_connected) && run,
            ReplayCommand::RemoteDisconnected => !*final(remote_connected) && !run,
        },
{
    match command {
        ReplayCommand::Trigger => *remote_connected,
        ReplayCommand::RemoteConnected => {
            *remote_connected = true;
            true
        },
        ReplayCommand::RemoteDisconnected => {
            *remote_connected = false;
            false
        },
    }
}

/// Whether the periodic check runs a replay: only while the remote broker
/// is connected and the cache reports messages.
pub fn periodic_replay_due(remote_connected: bool, count: Option<usize>) -> (run: bool)
    ensures
        run == (remote_connected && (count matches Some(n) && n > 0)),
{
    match count {
        Some(n) => remote_connected && n > 0,
        None => false,
    }
}

} // verus!
