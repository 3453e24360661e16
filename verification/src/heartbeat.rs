//! The heartbeat scheduler of the account stream: every `period` time
//! units one no-payload heartbeat action is queued, and the loop ends
//! silently the first time the queue's far side is gone.
use vstd::prelude::*;

verus! {

/// How many time units pass between heartbeats.
pub const HEARTBEAT_PERIOD: u64 = 30;

/// The heartbeat timer: emits when `now` reaches `next_due`, then backs
/// off a full period; stops for good after a failed enqueue.
#[derive(Debug, Clone, Copy, PartialEq, Eq, Structural)]
pub struct HeartbeatTimer {
    pub period: u64,
    pub next_due: u64,
    pub running: bool,
}

/// One step of the timer at time `now`, told whether the previous enqueue
/// still had a listener: emits exactly when running and due; a failed
/// enqueue stops it for good.
pub open spec fn hb_step(t: HeartbeatTimer, now: u64, send_ok: bool) -> (HeartbeatTimer, bool) {
    if !t.running {
        (t, false)
    } else if now >= t.next_due {
        (HeartbeatTimer { period: t.period, next_due: (now + t.period) as u64, running: send_ok },
        true)
    } else {
        (t, false)
    }
}

/// Which steps of a run emit a heartbeat. Each element of `evs` is one
/// poll: the time it happens and whether the enqueue (if one is made)
/// finds the writer alive.
pub open spec fn hb_emits(t: HeartbeatTimer, evs: Seq<(u64, bool)>) -> Seq<bool>
    decreases evs.len(),
{
    if evs.len() == 0 {
        Seq::empty()
    } else {
        seq![hb_step(t, evs[0].0, evs[0].1).1] + hb_emits(
            hb_step(t, evs[0].0, evs[0].1).0,
            evs.drop_first(),
        )
    }
}

impl HeartbeatTimer {
    pub open spec fn wf(self) -> bool {
        self.period > 0
    }

    /// A fresh timer: the first heartbeat comes one full period after
    /// `now`.
    pub fn new(now: u64, period: u64) -> (r: HeartbeatTimer)
        requires
            period > 0,
            now + period <= u64::MAX,
        ensures
            r == (HeartbeatTimer { period, next_due: (now + period) as u64, running: true }),
            r.wf(),
    {
        HeartbeatTimer { period, next_due: now + period, running: true }
    }

    /// One poll at time `now`; `send_ok` reports whether the heartbeat just
    /// enqueued (if one was) found the writer alive.
    pub fn tick(&mut self, now: u64, send_ok: bool) -> (emit: bool)
        requires
            old(self).wf(),
            now + old(self).period <= u64::MAX,
        ensures
            final(self).wf(),
            (*final(self), emit) == hb_step(*old(self), now, send_ok),
    {
        if !self.running {
            false
        } else if now >= self.next_due {
            self.next_due = now + self.period;
            self.running = send_ok;
            true
        } else {
            false
        }
    }
}

/// A run has one emit flag per poll.
pub proof fn lemma_hb_emits_len(t: HeartbeatTimer, evs: Seq<(u64, bool)>)
    ensures
        hb_emits(t, evs).len() == evs.len(),
    decreases evs.len(),
{
    if evs.len() > 0 {
        lemma_hb_emits_len(hb_step(t, evs[0].0, evs[0].1).0, evs.drop_first());
    }
}

proof fn lemma_hb_dead_stays_dead(t: HeartbeatTimer, evs: Seq<(u64, bool)>, m: int)
    requires
        !t.running,
        0 <= m < evs.len(),
    ensures
        hb_emits(t, evs).len() == evs.len(),
        !hb_emits(t, evs)[m],
    decreases evs.len(),
{
    lemma_hb_emits_len(t, evs);
    if m > 0 {
        lemma_hb_dead_stays_dead(t, evs.drop_first(), m - 1);
    }
}

/// Law: heartbeat ceases strictly after the writer is gone. In any run, if
/// step `k` emits and its enqueue finds the writer dead, no later step
/// emits.
pub proof fn lemma_heartbeat_ceases(t: HeartbeatTimer, evs: Seq<(u64, bool)>, k: int, m: int)
    requires
        0 <= k < m < evs.len(),
        hb_emits(t, evs)[k],
        !evs[k].1,
    ensures
        !hb_emits(t, evs)[m],
    decreases k,
{
    lemma_hb_emits_len(t, evs);
    let t2 = hb_step(t, evs[0].0, evs[0].1).0;
    lemma_hb_emits_len(t2, evs.drop_first());
    if k == 0 {
        lemma_hb_dead_stays_dead(t2, evs.drop_first(), m - 1);
    } else {
        lemma_heartbeat_ceases(t2, evs.drop_first(), k - 1, m - 1);
    }
}

proof fn lemma_hb_emission_not_before_due(t: HeartbeatTimer, evs: Seq<(u64, bool)>, m: int)
    requires
        t.wf(),
        0 <= m < evs.len(),
        forall|i: int| 0 <= i < evs.len() ==> evs[i].0 + t.period <= u64::MAX,
        hb_emits(t, evs)[m],
    ensures
        evs[m].0 >= t.next_due,
    decreases m,
{
    lemma_hb_emits_len(t, evs);
    let t2 = hb_step(t, evs[0].0, evs[0].1).0;
    lemma_hb_emits_len(t2, evs.drop_first());
    if m > 0 {
        lemma_hb_emission_not_before_due(t2, evs.drop_first(), m - 1);
        assert(t2.next_due >= t.next_due);
    }
}

/// Law: no heartbeat is enqueued more than once per period. In any run, two
/// emitting steps lie at least one full period apart.
pub proof fn lemma_heartbeat_spacing(t: HeartbeatTimer, evs: Seq<(u64, bool)>, k1: int, k2: int)
    requires
        t.wf(),
        0 <= k1 < k2 < evs.len(),
        forall|i: int| 0 <= i < evs.len() ==> evs[i].0 + t.period <= u64::MAX,
        hb_emits(t, evs)[k1],
        hb_emits(t, evs)[k2],
    ensures
        evs[k2].0 >= evs[k1].0 + t.period,
    decreases k1,
{
    lemma_hb_emits_len(t, evs);
    let t2 = hb_step(t, evs[0].0, evs[0].1).0;
    lemma_hb_emits_len(t2, evs.drop_first());
    if k1 == 0 {
        lemma_hb_emission_not_before_due(t2, evs.drop_first(), k2 - 1);
    } else {
        lemma_heartbeat_spacing(t2, evs.drop_first(), k1 - 1, k2 - 1);
    }
}

} // verus!
