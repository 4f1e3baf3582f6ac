//! Which publishes to a broker the broker has acknowledged.
//!
//! The client assigns a packet id to each QoS 1 and QoS 2 publish when it
//! sends it, in the order the publishes were handed to it; the broker then
//! acknowledges the packet id (PUBACK for QoS 1, PUBCOMP for QoS 2). A QoS 0
//! publish is never acknowledged and counts as done once it is sent. Each
//! publish may carry a ticket, the number under which someone awaits its
//! outcome; the tracker says which ticket is answered by each packet event.

use vstd::prelude::*;

use crate::mqtt_utils::qos::QoS;

verus! {

/// A publish handed to the client and not yet sent.
#[derive(Debug, Clone, Copy, PartialEq, Eq)]
pub struct Queued {
    /// Its QoS level
    pub qos: QoS,
    /// The ticket of whoever awaits its outcome
    pub ticket: Option<u64>,
}

/// A QoS 1 or QoS 2 publish sent and awaiting its acknowledgment.
#[derive(Debug, Clone, Copy, PartialEq, Eq)]
pub struct Awaiting {
    /// Its packet id
    pub pkid: u16,
    /// Its QoS level
    pub qos: QoS,
    /// The ticket of whoever awaits its outcome
    pub ticket: Option<u64>,
}

/// The acknowledgment that completes a publish of QoS `qos`: PUBACK
/// (`complete == false`) for QoS 1, PUBCOMP (`complete == true`) for QoS 2.
pub open spec fn acknowledges(qos: QoS, complete: bool) -> bool {
    (qos == QoS::AtLeastOnce && !complete) || (qos == QoS::ExactlyOnce && complete)
}

/// The publishes of one broker connection whose outcome is still open.
#[derive(Debug, Clone)]
pub struct AckTracker {
    /// Publishes handed to the client, in order, not yet sent
    pub queued: Vec<Queued>,
    /// Publishes sent and awaiting acknowledgment
    pub awaiting: Vec<Awaiting>,
}

/// The first index of `awaiting` with packet id `pkid` acknowledged by
/// the acknowledgment kind `complete`, if any.
pub open spec fn ack_index(awaiting: Seq<Awaiting>, pkid: u16, complete: bool) -> Option<int> {
    if exists|k: int|
        0 <= k < awaiting.len() && awaiting[k].pkid == pkid && acknowledges(awaiting[k].qos, complete) {
        Some(
            choose|k: int|
                0 <= k < awaiting.len() && awaiting[k].pkid == pkid && acknowledges(awaiting[k].qos, complete)
                    && forall|m: int|
                    0 <= m < k ==> !(#[trigger] awaiting[m].pkid == pkid && acknowledges(
                        awaiting[m].qos,
                        complete,
                    )),
        )
    } else {
        None
    }
}

/// Whether packet id `pkid` is among the publishes awaiting acknowledgment.
pub open spec fn is_awaited(awaiting: Seq<Awaiting>, pkid: u16) -> bool {
    exists|k: int| 0 <= k < awaiting.len() && (#[trigger] awaiting[k]).pkid == pkid
}

impl AckTracker {
    /// No publish open.
    pub fn new() -> (t: Self)
        ensures
            t.queued@ == Seq::<Queued>::empty(),
            t.awaiting@ == Seq::<Awaiting>::empty(),
    {
        AckTracker { queued: Vec::new(), awaiting: Vec::new() }
    }

    /// A publish of QoS `qos` was handed to the client.
    pub fn on_queued(&mut self, qos: QoS, ticket: Option<u64>)
        ensures
            final(self).queued@ == old(self).queued@.push(Queued { qos, ticket }),
            final(self).awaiting@ == old(self).awaiting@,
    {
        self.queued.push(Queued { qos, ticket });
    }

    /// The client sent a publish with packet id `pkid` (0 for QoS 0). A
    /// packet id already awaited is a retransmission and changes nothing.
    /// Otherwise the oldest queued publish is the one sent: of QoS 0, it is
    /// done and its ticket returned; else it awaits its acknowledgment.
    pub fn on_sent(&mut self, pkid: u16) -> (done: Option<u64>)
        ensures
            (pkid != 0 && is_awaited(old(self).awaiting@, pkid)) || old(self).queued@.len() == 0 ==> (
            done is None && final(self).queued@ == old(self).queued@ && final(self).awaiting@ == old(
                self,
            ).awaiting@),
            !((pkid != 0 && is_awaited(old(self).awaiting@, pkid)) || old(self).queued@.len() == 0)
                ==> ({
                let p = old(self).queued@[0];
                &&& final(self).queued@ == old(self).queued@.drop_first()
                &&& p.qos == QoS::AtMostOnce ==> done == p.ticket && final(self).awaiting@ == old(
                    self,
                ).awaiting@
                &&& p.qos != QoS::AtMostOnce ==> done is None && final(self).awaiting@ == old(
                    self,
                ).awaiting@.push(Awaiting { pkid, qos: p.qos, ticket: p.ticket })
            }),
    {
        if pkid != 0 {
            let mut k: usize = 0;
            while k < self.awaiting.len()
                invariant
                    k <= self.awaiting@.len(),
                    self.awaiting@ == old(self).awaiting@,
                    self.queued@ == old(self).queued@,
                    pkid != 0,
                    forall|m: int| 0 <= m < k ==> (#[trigger] self.awaiting@[m]).pkid != pkid,
                decreases self.awaiting@.len() - k,
            {
                if self.awaiting[k].pkid == pkid {
                    assert(is_awaited(old(self).awaiting@, pkid)) by {
                        assert(old(self).awaiting@[k as int].pkid == pkid);
                    }
                    return None;
                }
                k = k + 1;
            }
            assert(!is_awaited(old(self).awaiting@, pkid));
        }
        if self.queued.len() == 0 {
            return None;
        }
        let p = self.queued.remove(0);
        assert(old(self).queued@.remove(0) =~= old(self).queued@.drop_first());
        match p.qos {
            QoS::AtMostOnce => p.ticket,
            _ => {
                self.awaiting.push(Awaiting { pkid, qos: p.qos, ticket: p.ticket });
                None
            },
        }
    }

    /// The broker acknowledged packet id `pkid`, with PUBCOMP when
    /// `complete` holds and with PUBACK otherwise. The first publish that
    /// acknowledgment completes is done and its ticket returned; an
    /// acknowledgment of no awaited publish changes nothing.
    pub fn on_ack(&mut self, pkid: u16, complete: bool) -> (done: Option<u64>)
        ensures
            match ack_index(old(self).awaiting@, pkid, complete) {
                Some(k) => done == old(self).awaiting@[k].ticket && final(self).awaiting@ == old(
                    self,
                ).awaiting@.remove(k),
                None => done is None && final(self).awaiting@ == old(self).awaiting@,
            },
            final(self).queued@ == old(self).queued@,
    {
        let mut k: usize = 0;
        while k < self.awaiting.len()
            invariant
                k <= self.awaiting@.len(),
                self.awaiting@ == old(self).awaiting@,
                self.queued@ == old(self).queued@,
                forall|m: int|
                    0 <= m < k ==> !(#[trigger] self.awaiting@[m].pkid == pkid && acknowledges(
                        self.awaiting@[m].qos,
                        complete,
                    )),
            decreases self.awaiting@.len() - k,
        {
            let a = self.awaiting[k];
            let matches = a.pkid == pkid && match a.qos {
                QoS::AtLeastOnce => !complete,
                QoS::ExactlyOnce => complete,
                QoS::AtMostOnce => false,
            };
            if matches {
                let ghost aw = self.awaiting@;
                assert(aw[k as int].pkid == pkid && acknowledges(aw[k as int].qos, complete));
                let ghost found = ack_index(aw, pkid, complete);
                assert(found == Some(k as int)) by {
                    let c = choose|j: int|
                        0 <= j < aw.len() && aw[j].pkid == pkid && acknowledges(aw[j].qos, complete) && forall|
                            m: int,
                        |
                            0 <= m < j ==> !(#[trigger] aw[m].pkid == pkid && acknowledges(aw[m].qos, complete));
                    assert(0 <= k < aw.len() && aw[k as int].pkid == pkid && acknowledges(aw[k as int].qos, complete)
                        && forall|m: int|
                        0 <= m < k ==> !(#[trigger] aw[m].pkid == pkid && acknowledges(aw[m].qos, complete)));
                    if c < k {
                    } else if c > k {
                        assert(!(aw[k as int].pkid == pkid && acknowledges(aw[k as int].qos, complete)));
                    }
                }
                let removed = self.awaiting.remove(k);
                return removed.ticket;
            }
            k = k + 1;
        }
        assert(ack_index(self.awaiting@, pkid, complete) is None) by {
            if exists|j: int|
                0 <= j < self.awaiting@.len() && self.awaiting@[j].pkid == pkid && acknowledges(
                    self.awaiting@[j].qos,
                    complete,
                ) {
                let j = choose|j: int|
                    0 <= j < self.awaiting@.len() && self.awaiting@[j].pkid == pkid && acknowledges(
                        self.awaiting@[j].qos,
                        complete,
                    );
                assert(!(self.awaiting@[j].pkid == pkid && acknowledges(self.awaiting@[j].qos, complete)));
            }
        }
        None
    }

    /// The connection was replaced: every open publish is given up, and
    /// the tickets of those someone awaits are returned, queued ones first.
    pub fn clear(&mut self) -> (given_up: Vec<u64>)
        ensures
            final(self).queued@ == Seq::<Queued>::empty(),
            final(self).awaiting@ == Seq::<Awaiting>::empty(),
            forall|k: int|
                0 <= k < old(self).queued@.len() && old(self).queued@[k].ticket is Some ==> given_up@.contains(
                    (#[trigger] old(self).queued@[k]).ticket->0,
                ),
            forall|k: int|
                0 <= k < old(self).awaiting@.len() && old(self).awaiting@[k].ticket is Some
                    ==> given_up@.contains((#[trigger] old(self).awaiting@[k]).ticket->0),
    {
        let mut given_up: Vec<u64> = Vec::new();
        let mut k: usize = 0;
        while k < self.queued.len()
            invariant
                k <= self.queued@.len(),
                self.queued@ == old(self).queued@,
                forall|m: int|
                    0 <= m < k && self.queued@[m].ticket is Some ==> given_up@.contains(
                        (#[trigger] self.queued@[m]).ticket->0,
                    ),
            decreases self.queued@.len() - k,
        {
            if let Some(t) = self.queued[k].ticket {
                let ghost before = given_up@;
                given_up.push(t);
                assert(given_up@[given_up@.len() - 1] == t);
                assert forall|x: u64| before.contains(x) implies given_up@.contains(x) by {
                    let i = choose|i: int| 0 <= i < before.len() && before[i] == x;
                    assert(given_up@[i] == x);
                }
            }
            k = k + 1;
        }
        let ghost after_queued = given_up@;
        let mut k: usize = 0;
        while k < self.awaiting.len()
            invariant
                k <= self.awaiting@.len(),
                self.awaiting@ == old(self).awaiting@,
                self.queued@ == old(self).queued@,
                forall|x: u64| after_queued.contains(x) ==> given_up@.contains(x),
                forall|m: int|
                    0 <= m < k && self.awaiting@[m].ticket is Some ==> given_up@.contains(
                        (#[trigger] self.awaiting@[m]).ticket->0,
                    ),
            decreases self.awaiting@.len() - k,
        {
            if let Some(t) = self.awaiting[k].ticket {
                let ghost before = given_up@;
                given_up.push(t);
                assert(given_up@[given_up@.len() - 1] == t);
                assert forall|x: u64| before.contains(x) implies given_up@.contains(x) by {
                    let i = choose|i: int| 0 <= i < before.len() && before[i] == x;
                    assert(given_up@[i] == x);
                }
            }
            k = k + 1;
        }
        self.queued = Vec::new();
        self.awaiting = Vec::new();
        given_up
    }
}

/// A publish sent and awaiting acknowledgment, under a packet id no other
/// awaited publish holds, is done exactly when the broker acknowledges that
/// packet id with the acknowledgment of its QoS level.
pub proof fn lemma_sent_publish_answered_by_its_ack(awaiting: Seq<Awaiting>, a: Awaiting, complete: bool)
    requires
        !is_awaited(awaiting, a.pkid),
    ensures
        acknowledges(a.qos, complete) ==> ack_index(awaiting.push(a), a.pkid, complete) == Some(
            awaiting.len() as int,
        ),
        !acknowledges(a.qos, complete) ==> ack_index(awaiting.push(a), a.pkid, complete) is None,
{
    let s = awaiting.push(a);
    let n = awaiting.len() as int;
    assert forall|j: int| 0 <= j < n implies #[trigger] s[j].pkid != a.pkid by {
        assert(s[j] == awaiting[j]);
        if awaiting[j].pkid == a.pkid {
            assert(is_awaited(awaiting, a.pkid));
        }
    }
    assert(s[n] == a);
    if acknowledges(a.qos, complete) {
        let c = choose|k: int|
            0 <= k < s.len() && s[k].pkid == a.pkid && acknowledges(s[k].qos, complete) && forall|m: int|
                0 <= m < k ==> !(#[trigger] s[m].pkid == a.pkid && acknowledges(s[m].qos, complete));
        assert(0 <= n < s.len() && s[n].pkid == a.pkid && acknowledges(s[n].qos, complete) && forall|m: int|
            0 <= m < n ==> !(#[trigger] s[m].pkid == a.pkid && acknowledges(s[m].qos, complete)));
        assert(c == n);
    } else {
        if exists|k: int| 0 <= k < s.len() && s[k].pkid == a.pkid && acknowledges(s[k].qos, complete) {
            let k = choose|k: int| 0 <= k < s.len() && s[k].pkid == a.pkid && acknowledges(s[k].qos, complete);
            assert(k == n);
        }
    }
}

} // verus!
