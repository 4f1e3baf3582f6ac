//! The replay worker: a replay loop that runs on its own, watching the
//! remote connection itself and deleting each message as soon as its
//! publish succeeds.
//!
//! The worker waits until the remote broker is connected, then counts the
//! cached messages. With none cached it waits for a trigger (or five
//! seconds) and starts over. Otherwise it drains the cache: while the
//! remote broker stays connected it fetches a batch, publishes its
//! messages oldest first, deleting each one once its publish succeeds and
//! stopping the batch at the first failure, and pauses between batches.
//! The drain ends at an empty batch, a failed fetch (after a one-second
//! pause) or a disconnection, and the number of messages left is reported.
//!
//! The worker is a state machine: its loop hands each outcome to
//! [`ReplayWorker::step`] and carries out the actions it returns.

use vstd::prelude::*;

use crate::cache::CachedMessage;
use crate::mqtt_utils::qos::qos_from_u8;
use crate::tasks::messages::RemoteCommand;
use crate::tasks::replay::is_cached_publish;
use crate::text::utf8_lossy;

verus! {

/// Milliseconds the worker waits before looking again at a connection,
/// after a failed count, or after a failed fetch.
pub const RETRY_PAUSE_MS: u64 = 1000;

/// Milliseconds the worker waits for a trigger when the cache is empty.
pub const IDLE_WAIT_MS: u64 = 5000;

/// Where the worker goes after a pause.
#[derive(Debug, Clone, Copy, PartialEq, Eq)]
pub enum Resume {
    /// Back to waiting for the connection
    Top,
    /// On with the drain (look at the connection, then fetch)
    Drain,
    /// To the report of the messages left
    Report,
}

/// Where the worker stands.
#[derive(Debug)]
pub enum WorkerStep {
    /// Not started.
    Idle,
    /// Waiting to learn whether the remote broker is connected.
    Connecting,
    /// Pausing, then going on as `resume` says.
    Sleeping { resume: Resume },
    /// Waiting for the number of cached messages.
    Counting,
    /// Waiting for a trigger or the idle timeout.
    Waiting,
    /// Draining: waiting to learn whether the remote broker is still
    /// connected.
    DrainConnecting,
    /// Waiting for a batch.
    Fetching,
    /// Waiting for the outcome of the publish of `batch[next]`.
    Publishing { batch: Vec<CachedMessage>, next: usize },
    /// Waiting for the deletion of `batch[next]`.
    Deleting { batch: Vec<CachedMessage>, next: usize },
    /// Waiting for the number of messages left, to report it.
    Reporting,
}

/// The replay worker with its batch size and pause.
#[derive(Debug)]
pub struct ReplayWorker {
    /// Number of messages asked for per batch
    pub flush_batch: usize,
    /// Milliseconds of pause between batches
    pub flush_interval_ms: u64,
    /// Where the worker stands
    pub step: WorkerStep,
}

/// An outcome handed to the worker.
#[derive(Debug)]
pub enum WorkerEvent {
    /// The worker is to start.
    Started,
    /// Whether the remote broker is connected.
    ConnectionChecked(bool),
    /// The pause is over.
    Slept,
    /// The number of cached messages, or `None` when counting failed.
    Counted(Option<usize>),
    /// A trigger came, or the idle timeout passed.
    Woken,
    /// A batch, or `None` when fetching failed.
    Fetched(Option<Vec<CachedMessage>>),
    /// Whether the broker acknowledged the awaited publish (PUBACK for QoS
    /// 1, PUBCOMP for QoS 2; sent, for QoS 0).
    Published(bool),
    /// The deletion was attempted (its failure is only reported).
    Deleted,
}

/// What the worker's loop is to do next.
#[derive(Debug, PartialEq, Eq)]
pub enum WorkerAction {
    /// Look at whether the remote broker is connected.
    CheckConnection,
    /// Pause for `ms` milliseconds.
    Sleep { ms: u64 },
    /// Count the cached messages.
    RequestCount,
    /// Wait for a trigger, at most `ms` milliseconds.
    AwaitTrigger { ms: u64 },
    /// Fetch the `limit` oldest messages.
    RequestBatch { limit: usize },
    /// Publish this message to the remote broker and report the outcome.
    Publish(RemoteCommand),
    /// Delete the message with this id from the cache.
    DeleteMessage { id: i64 },
    /// Count the messages left, to report them.
    ReportRemaining,
}

/// `a` publishes the cached message `m` to the remote broker.
pub open spec fn is_worker_publish(a: WorkerAction, m: CachedMessage) -> bool {
    a matches WorkerAction::Publish(c) && is_cached_publish(c, m)
}

/// The bookkeeping of a batch in progress: the message in hand is in the
/// batch.
pub open spec fn worker_wf(step: WorkerStep) -> bool {
    match step {
        WorkerStep::Publishing { batch, next } => next < batch@.len(),
        WorkerStep::Deleting { batch, next } => next < batch@.len(),
        _ => true,
    }
}

/// The step of a pause and its single action.
pub open spec fn sleeps(new: WorkerStep, actions: Seq<WorkerAction>, ms: u64, resume: Resume) -> bool {
    &&& new == WorkerStep::Sleeping { resume }
    &&& actions == seq![WorkerAction::Sleep { ms }]
}

/// One step of the worker: how `event` moves it from `old` to `new` and
/// which actions it asks for. An event the current step does not wait for
/// changes nothing and asks for nothing.
pub open spec fn worker_step(
    old: ReplayWorker,
    event: WorkerEvent,
    new: ReplayWorker,
    actions: Seq<WorkerAction>,
) -> bool {
    &&& new.flush_batch == old.flush_batch
    &&& new.flush_interval_ms == old.flush_interval_ms
    &&& match (old.step, event) {
        (WorkerStep::Idle, WorkerEvent::Started) => new.step == WorkerStep::Connecting && actions
            == seq![WorkerAction::CheckConnection],
        (WorkerStep::Connecting, WorkerEvent::ConnectionChecked(connected)) => if connected {
            new.step == WorkerStep::Counting && actions == seq![WorkerAction::RequestCount]
        } else {
            sleeps(new.step, actions, RETRY_PAUSE_MS, Resume::Top)
        },
        (WorkerStep::Sleeping { resume }, WorkerEvent::Slept) => match resume {
            Resume::Top => new.step == WorkerStep::Connecting && actions == seq![
                WorkerAction::CheckConnection,
            ],
            Resume::Drain => new.step == WorkerStep::DrainConnecting && actions == seq![
                WorkerAction::CheckConnection,
            ],
            Resume::Report => new.step == WorkerStep::Reporting && actions == seq![
                WorkerAction::ReportRemaining,
            ],
        },
        (WorkerStep::Counting, WorkerEvent::Counted(count)) => match count {
            None => sleeps(new.step, actions, RETRY_PAUSE_MS, Resume::Top),
            Some(n) => if n == 0 {
                new.step == WorkerStep::Waiting && actions == seq![
                    WorkerAction::AwaitTrigger { ms: IDLE_WAIT_MS },
                ]
            } else {
                new.step == WorkerStep::DrainConnecting && actions == seq![
                    WorkerAction::CheckConnection,
                ]
            },
        },
        (WorkerStep::Waiting, WorkerEvent::Woken) => new.step == WorkerStep::Connecting && actions
            == seq![WorkerAction::CheckConnection],
        (WorkerStep::DrainConnecting, WorkerEvent::ConnectionChecked(connected)) => if connected {
            new.step == WorkerStep::Fetching && actions == seq![
                WorkerAction::RequestBatch { limit: old.flush_batch },
            ]
        } else {
            new.step == WorkerStep::Reporting && actions == seq![WorkerAction::ReportRemaining]
        },
        (WorkerStep::Fetching, WorkerEvent::Fetched(fetched)) => match fetched {
            None => sleeps(new.step, actions, RETRY_PAUSE_MS, Resume::Report),
            Some(b) => if b@.len() == 0 {
                new.step == WorkerStep::Reporting && actions == seq![WorkerAction::ReportRemaining]
            } else {
                &&& new.step matches WorkerStep::Publishing { batch, next } && batch@ == b@ && next
                    == 0
                &&& actions.len() == 1
                &&& is_worker_publish(actions[0], b@[0])
            },
        },
        (WorkerStep::Publishing { batch, next }, WorkerEvent::Published(ok)) => if ok {
            &&& new.step matches WorkerStep::Deleting { batch: b, next: n } && b@ == batch@ && n
                == next
            &&& actions == seq![WorkerAction::DeleteMessage { id: batch@[next as int].id }]
        } else {
            sleeps(new.step, actions, old.flush_interval_ms, Resume::Drain)
        },
        (WorkerStep::Deleting { batch, next }, WorkerEvent::Deleted) => if next + 1 < batch@.len() {
            &&& new.step matches WorkerStep::Publishing { batch: b, next: n } && b@ == batch@ && n
                == next + 1
            &&& actions.len() == 1
            &&& is_worker_publish(actions[0], batch@[next + 1])
        } else {
            sleeps(new.step, actions, old.flush_interval_ms, Resume::Drain)
        },
        (WorkerStep::Reporting, WorkerEvent::Counted(_)) => new.step == WorkerStep::Connecting
            && actions == seq![WorkerAction::CheckConnection],
        _ => new.step == old.step && actions.len() == 0,
    }
}

/// The publish that replays a cached message.
fn worker_publish(m: &CachedMessage) -> (a: WorkerAction)
    ensures
        is_worker_publish(a, *m),
{
    WorkerAction::Publish(
        RemoteCommand::Publish {
            topic: utf8_lossy(m.topic.as_slice()),
            payload: vstd::slice::slice_to_vec(m.payload.as_slice()),
            qos: qos_from_u8(m.qos),
            retain: m.retain,
            acknowledge: true,
        },
    )
}

impl ReplayWorker {
    /// A worker not yet started, with the given batch size and pause.
    pub fn new(flush_batch: usize, flush_interval_ms: u64) -> (r: Self)
        ensures
            r.flush_batch == flush_batch,
            r.flush_interval_ms == flush_interval_ms,
            r.step == WorkerStep::Idle,
    {
        ReplayWorker { flush_batch, flush_interval_ms, step: WorkerStep::Idle }
    }

    /// Moves the worker by one outcome (see [`worker_step`]) and returns
    /// the actions to carry out.
    pub fn step(&mut self, event: WorkerEvent) -> (actions: Vec<WorkerAction>)
        requires
            worker_wf(old(self).step),
        ensures
            worker_wf(final(self).step),
            worker_step(*old(self), event, *final(self), actions@),
    {
        let mut step = WorkerStep::Idle;
        core::mem::swap(&mut step, &mut self.step);
        assert(worker_wf(step));
        let mut actions: Vec<WorkerAction> = Vec::new();
        match (step, event) {
            (WorkerStep::Idle, WorkerEvent::Started) => {
                self.step = WorkerStep::Connecting;
                actions.push(WorkerAction::CheckConnection);
            },
            (WorkerStep::Connecting, WorkerEvent::ConnectionChecked(connected)) => {
                if connected {
                    self.step = WorkerStep::Counting;
                    actions.push(WorkerAction::RequestCount);
                } else {
                    self.step = WorkerStep::Sleeping { resume: Resume::Top };
                    actions.push(WorkerAction::Sleep { ms: RETRY_PAUSE_MS });
                }
            },
            (WorkerStep::Sleeping { resume }, WorkerEvent::Slept) => {
                match resume {
                    Resume::Top => {
                        self.step = WorkerStep::Connecting;
                        actions.push(WorkerAction::CheckConnection);
                    },
                    Resume::Drain => {
                        self.step = WorkerStep::DrainConnecting;
                        actions.push(WorkerAction::CheckConnection);
                    },
                    Resume::Report => {
                        self.step = WorkerStep::Reporting;
                        actions.push(WorkerAction::ReportRemaining);
                    },
                }
            },
            (WorkerStep::Counting, WorkerEvent::Counted(count)) => {
                match count {
                    None => {
                        self.step = WorkerStep::Sleeping { resume: Resume::Top };
                        actions.push(WorkerAction::Sleep { ms: RETRY_PAUSE_MS });
                    },
                    Some(n) => {
                        if n == 0 {
                            self.step = WorkerStep::Waiting;
                            actions.push(WorkerAction::AwaitTrigger { ms: IDLE_WAIT_MS });
                        } else {
                            self.step = WorkerStep::DrainConnecting;
                            actions.push(WorkerAction::CheckConnection);
                        }
                    },
                }
            },
            (WorkerStep::Waiting, WorkerEvent::Woken) => {
                self.step = WorkerStep::Connecting;
                actions.push(WorkerAction::CheckConnection);
            },
            (WorkerStep::DrainConnecting, WorkerEvent::ConnectionChecked(connected)) => {
                if connected {
                    self.step = WorkerStep::Fetching;
                    actions.push(WorkerAction::RequestBatch { limit: self.flush_batch });
                } else {
                    self.step = WorkerStep::Reporting;
                    actions.push(WorkerAction::ReportRemaining);
                }
            },
            (WorkerStep::Fetching, WorkerEvent::Fetched(fetched)) => {
                match fetched {
                    None => {
                        self.step = WorkerStep::Sleeping { resume: Resume::Report };
                        actions.push(WorkerAction::Sleep { ms: RETRY_PAUSE_MS });
                    },
                    Some(batch) => {
                        if batch.len() == 0 {
                            self.step = WorkerStep::Reporting;
                            actions.push(WorkerAction::ReportRemaining);
                        } else {
                            actions.push(worker_publish(&batch[0]));
                            self.step = WorkerStep::Publishing { batch, next: 0 };
                        }
                    },
                }
            },
            (WorkerStep::Publishing { batch, next }, WorkerEvent::Published(ok)) => {
                if ok {
                    actions.push(WorkerAction::DeleteMessage { id: batch[next].id });
                    self.step = WorkerStep::Deleting { batch, next };
                } else {
                    self.step = WorkerStep::Sleeping { resume: Resume::Drain };
                    actions.push(WorkerAction::Sleep { ms: self.flush_interval_ms });
                }
            },
            (WorkerStep::Deleting { batch, next }, WorkerEvent::Deleted) => {
                let len = batch.len();
                if next + 1 < len {
                    actions.push(worker_publish(&batch[next + 1]));
                    self.step = WorkerStep::Publishing { batch, next: next + 1 };
                } else {
                    self.step = WorkerStep::Sleeping { resume: Resume::Drain };
                    actions.push(WorkerAction::Sleep { ms: self.flush_interval_ms });
                }
            },
            (WorkerStep::Reporting, WorkerEvent::Counted(_)) => {
                self.step = WorkerStep::Connecting;
                actions.push(WorkerAction::CheckConnection);
            },
            (other, _) => {
                self.step = other;
            },
        }
        actions
    }
}

/// The worker deletes a message only right after its own publish
/// succeeded, and then the message deleted is the one just published.
pub proof fn lemma_worker_deletes_after_success(
    old: ReplayWorker,
    event: WorkerEvent,
    new: ReplayWorker,
    actions: Seq<WorkerAction>,
    i: int,
)
    requires
        worker_wf(old.step),
        worker_step(old, event, new, actions),
        0 <= i < actions.len(),
        (actions[i] is DeleteMessage),
    ensures
        (old.step matches WorkerStep::Publishing { batch, next } && event == WorkerEvent::Published(
            true,
        ) && actions[i] == (WorkerAction::DeleteMessage { id: batch@[next as int].id })),
{
}

/// The worker fetches a batch only right after it has seen the remote
/// broker connected.
pub proof fn lemma_worker_fetches_only_when_connected(
    old: ReplayWorker,
    event: WorkerEvent,
    new: ReplayWorker,
    actions: Seq<WorkerAction>,
    i: int,
)
    requires
        worker_step(old, event, new, actions),
        0 <= i < actions.len(),
        (actions[i] is RequestBatch),
    ensures
        old.step == WorkerStep::DrainConnecting && event == WorkerEvent::ConnectionChecked(true),
{
}

} // verus!
