//! The decisions of the local and remote broker tasks: which event each
//! outcome of the broker connection's event loop becomes, and when the
//! remote connection is recreated after repeated failures.

use vstd::prelude::*;

use crate::mqtt_utils::qos::{QoS, qos_to_u8, spec_qos_to_u8};
use crate::tasks::messages::{LocalEvent, RemoteEvent};

verus! {

/// Number of consecutive connection errors after which the remote client
/// and its event loop are recreated (which resolves the broker's address
/// afresh).
pub const MAX_CONSECUTIVE_ERRORS: usize = 5;

/// Milliseconds a broker task waits after a connection error.
pub const ERROR_PAUSE_MS: u64 = 1000;

/// An outcome of polling a broker connection's event loop.
#[derive(Debug, Clone, PartialEq, Eq)]
pub enum PollOutcome {
    /// The broker acknowledged the connection.
    ConnAck,
    /// A message arrived.
    Publish { topic: String, payload: Vec<u8>, qos: QoS, retain: bool },
    /// The broker disconnected.
    Disconnect,
    /// Any other packet, in or out.
    Other,
    /// The connection failed, with this description.
    Error(String),
}

/// What a broker task does next.
#[derive(Debug, Clone, PartialEq, Eq)]
pub enum BrokerAction<E> {
    /// Send `event` to the router; when `stop_if_closed` holds and the
    /// router is gone, the task stops.
    Emit { event: E, stop_if_closed: bool },
    /// Recreate the client and its event loop, and report whether it
    /// worked.
    Recreate,
    /// Wait for `ms` milliseconds.
    Pause { ms: u64 },
}

/// The actions of the local broker task for one poll outcome: the
/// connection, a message and a disconnection are sent to the router (the
/// task stops if the router is gone); an error is sent as an error event
/// and followed by a pause; anything else is ignored.
pub open spec fn local_poll_actions(outcome: PollOutcome, actions: Seq<BrokerAction<LocalEvent>>) -> bool {
    match outcome {
        PollOutcome::ConnAck => actions == seq![
            BrokerAction::Emit { event: LocalEvent::Connected, stop_if_closed: true },
        ],
        PollOutcome::Publish { topic, payload, qos, retain } => {
            &&& actions.len() == 1
            &&& actions[0] matches BrokerAction::Emit {
                event: LocalEvent::MessageReceived { topic: t, payload: p, qos: q, retain: r },
                stop_if_closed: true,
            } && t@ == topic@ && p@ == payload@ && q == spec_qos_to_u8(qos) && r == retain
        },
        PollOutcome::Disconnect => actions == seq![
            BrokerAction::Emit { event: LocalEvent::Disconnected, stop_if_closed: true },
        ],
        PollOutcome::Other => actions.len() == 0,
        PollOutcome::Error(e) => {
            &&& actions.len() == 2
            &&& actions[0] matches BrokerAction::Emit {
                event: LocalEvent::Error(m),
                stop_if_closed: false,
            } && m@ == e@
            &&& actions[1] == BrokerAction::<LocalEvent>::Pause { ms: ERROR_PAUSE_MS }
        },
    }
}

/// The actions of the local broker task for one poll outcome (see
/// [`local_poll_actions`]).
pub fn local_broker_actions(outcome: PollOutcome) -> (actions: Vec<BrokerAction<LocalEvent>>)
    ensures
        local_poll_actions(outcome, actions@),
{
    let mut actions: Vec<BrokerAction<LocalEvent>> = Vec::new();
    match outcome {
        PollOutcome::ConnAck => {
            actions.push(BrokerAction::Emit { event: LocalEvent::Connected, stop_if_closed: true });
        },
        PollOutcome::Publish { topic, payload, qos, retain } => {
            let event = LocalEvent::MessageReceived { topic, payload, qos: qos_to_u8(qos), retain };
            actions.push(BrokerAction::Emit { event, stop_if_closed: true });
        },
        PollOutcome::Disconnect => {
            actions.push(BrokerAction::Emit { event: LocalEvent::Disconnected, stop_if_closed: true });
        },
        PollOutcome::Other => {},
        PollOutcome::Error(e) => {
            actions.push(BrokerAction::Emit { event: LocalEvent::Error(e), stop_if_closed: false });
            actions.push(BrokerAction::Pause { ms: ERROR_PAUSE_MS });
        },
    }
    actions
}

/// The remote broker task's count of consecutive connection errors.
#[derive(Debug, Clone, Copy, PartialEq, Eq)]
pub struct RemoteBrokerState {
    /// Connection errors since the last connection or recreation
    pub consecutive_errors: usize,
}

/// The count of errors after one more error (held at its maximum).
pub open spec fn errors_after(errors: usize) -> usize {
    if errors < usize::MAX {
        (errors + 1) as usize
    } else {
        errors
    }
}

/// The actions of the remote broker task for one poll outcome and the
/// error count afterwards. A connection resets the count; events are sent
/// to the router as on the local side; an error adds to the count and,
/// once [`MAX_CONSECUTIVE_ERRORS`] errors follow each other, the client is
/// recreated before the error event is sent and the task pauses.
pub open spec fn remote_poll_actions(
    old: RemoteBrokerState,
    outcome: PollOutcome,
    new: RemoteBrokerState,
    actions: Seq<BrokerAction<RemoteEvent>>,
) -> bool {
    match outcome {
        PollOutcome::ConnAck => new.consecutive_errors == 0 && actions == seq![
            BrokerAction::Emit { event: RemoteEvent::Connected, stop_if_closed: true },
        ],
        PollOutcome::Publish { topic, payload, qos, retain } => {
            &&& new == old
            &&& actions.len() == 1
            &&& actions[0] matches BrokerAction::Emit {
                event: RemoteEvent::MessageReceived { topic: t, payload: p, qos: q, retain: r },
                stop_if_closed: true,
            } && t@ == topic@ && p@ == payload@ && q == spec_qos_to_u8(qos) && r == retain
        },
        PollOutcome::Disconnect => new == old && actions == seq![
            BrokerAction::Emit { event: RemoteEvent::Disconnected, stop_if_closed: true },
        ],
        PollOutcome::Other => new == old && actions.len() == 0,
        PollOutcome::Error(e) => {
            let n = errors_after(old.consecutive_errors);
            let recreate = n >= MAX_CONSECUTIVE_ERRORS;
            let k: int = if recreate {
                1
            } else {
                0
            };
            &&& new.consecutive_errors == n
            &&& actions.len() == k + 2
            &&& recreate ==> actions[0] == BrokerAction::<RemoteEvent>::Recreate
            &&& actions[k] matches BrokerAction::Emit { event: RemoteEvent::Error(m), stop_if_closed: false }
                && m@ == e@
            &&& actions[k + 1] == BrokerAction::<RemoteEvent>::Pause { ms: ERROR_PAUSE_MS }
        },
    }
}

impl RemoteBrokerState {
    /// No errors yet.
    pub fn new() -> (r: Self)
        ensures
            r.consecutive_errors == 0,
    {
        RemoteBrokerState { consecutive_errors: 0 }
    }

    /// The actions for one poll outcome (see [`remote_poll_actions`]).
    pub fn on_poll(&mut self, outcome: PollOutcome) -> (actions: Vec<BrokerAction<RemoteEvent>>)
        ensures
            remote_poll_actions(*old(self), outcome, *final(self), actions@),
    {
        let mut actions: Vec<BrokerAction<RemoteEvent>> = Vec::new();
        match outcome {
            PollOutcome::ConnAck => {
                self.consecutive_errors = 0;
                actions.push(BrokerAction::Emit { event: RemoteEvent::Connected, stop_if_closed: true });
            },
            PollOutcome::Publish { topic, payload, qos, retain } => {
                let event = RemoteEvent::MessageReceived {
                    topic,
                    payload,
                    qos: qos_to_u8(qos),
                    retain,
                };
                actions.push(BrokerAction::Emit { event, stop_if_closed: true });
            },
            PollOutcome::Disconnect => {
                actions.push(
                    BrokerAction::Emit { event: RemoteEvent::Disconnected, stop_if_closed: true },
                );
            },
            PollOutcome::Other => {},
            PollOutcome::Error(e) => {
                self.consecutive_errors = self.consecutive_errors.saturating_add(1);
                if self.consecutive_errors >= MAX_CONSECUTIVE_ERRORS {
                    actions.push(BrokerAction::Recreate);
                }
                actions.push(BrokerAction::Emit { event: RemoteEvent::Error(e), stop_if_closed: false });
                actions.push(BrokerAction::Pause { ms: ERROR_PAUSE_MS });
            },
        }
        actions
    }

    /// Records the outcome of a recreation of the client: a successful one
    /// resets the error count, a failed one keeps it.
    pub fn on_recreated(&mut self, ok: bool)
        ensures
            final(self).consecutive_errors == if ok {
                0
            } else {
                old(self).consecutive_errors
            },
    {
        if ok {
            self.consecutive_errors = 0;
        }
    }
}

/// The remote client is recreated exactly when the error just seen
/// completes a run of [`MAX_CONSECUTIVE_ERRORS`] errors without a
/// connection or recreation between them, and any connection ends the run.
pub proof fn lemma_recreate_after_error_run(
    old: RemoteBrokerState,
    outcome: PollOutcome,
    new: RemoteBrokerState,
    actions: Seq<BrokerAction<RemoteEvent>>,
)
    requires
        remote_poll_actions(old, outcome, new, actions),
    ensures
        actions.contains(BrokerAction::Recreate) <==> (outcome is Error && old.consecutive_errors + 1
            >= MAX_CONSECUTIVE_ERRORS),
        outcome is ConnAck ==> new.consecutive_errors == 0,
{
    if outcome is Error {
        let n = errors_after(old.consecutive_errors);
        if n >= MAX_CONSECUTIVE_ERRORS {
            assert(actions[0] == BrokerAction::<RemoteEvent>::Recreate);
        } else {
            assert(!actions.contains(BrokerAction::Recreate)) by {
                if actions.contains(BrokerAction::Recreate) {
                    let i = choose|i: int| 0 <= i < actions.len() && actions[i] == BrokerAction::<RemoteEvent>::Recreate;
                    assert(i == 0 || i == 1);
                }
            }
        }
    } else if outcome is ConnAck {
        assert(!actions.contains(BrokerAction::Recreate)) by {
            if actions.contains(BrokerAction::Recreate) {
                let i = choose|i: int| 0 <= i < actions.len() && actions[i] == BrokerAction::<RemoteEvent>::Recreate;
                assert(i == 0);
            }
        }
    } else if outcome is Disconnect {
        assert(!actions.contains(BrokerAction::Recreate)) by {
            if actions.contains(BrokerAction::Recreate) {
                let i = choose|i: int| 0 <= i < actions.len() && actions[i] == BrokerAction::<RemoteEvent>::Recreate;
                assert(i == 0);
            }
        }
    } else if outcome is Publish {
        assert(!actions.contains(BrokerAction::Recreate)) by {
            if actions.contains(BrokerAction::Recreate) {
                let i = choose|i: int| 0 <= i < actions.len() && actions[i] == BrokerAction::<RemoteEvent>::Recreate;
                assert(i == 0);
            }
        }
    }
}

} // verus!
