//! The round coordinator: it polls the tally; when every worker has sent
//! Done, the tally is reset and a Continue goes to each worker in index
//! order, each followed by a fresh connection to that worker for the next
//! round. A round that stays incomplete past the deadline stops it with
//! `WorkerTimeout`.
use vstd::prelude::*;
use crate::protocol::BarrierError;
use crate::tally::RoundTally;

verus! {

/// Milliseconds to wait between two checks of an incomplete tally.
pub const POLL_INTERVAL_MS: u64 = 1;

/// Where the coordinator stands in its round.
#[derive(Clone, Copy, Debug, PartialEq, Eq, Structural)]
pub enum CoordPhase {
    /// Waiting for the tally to complete.
    Polling,
    /// Sending the Continue to this worker.
    Sending(u64),
    /// Opening a fresh connection to this worker's Continue endpoint.
    Reconnecting(u64),
    /// Stopped after a failure.
    Failed,
}

/// How the coordinator's last action went.
#[derive(Clone, Copy, Debug, PartialEq, Eq, Structural)]
pub enum CoordEvent {
    /// The tally was checked; `true` if it was complete and has been reset.
    Checked(bool),
    /// The coordinator waited this many milliseconds.
    Waited(u64),
    /// The Continue record was written.
    Sent,
    /// The connection to the worker was opened again.
    Reconnected,
    /// The action failed.
    Failed,
}

/// What the coordinator does next.
#[derive(Clone, Copy, Debug, PartialEq, Eq, Structural)]
pub enum CoordAction {
    /// Check the tally and reset it if it is complete, in one critical section.
    CheckTally,
    /// Wait this many milliseconds.
    Wait(u64),
    /// Send a Continue with this budget to this worker.
    SendContinue { worker: u64, budget: u64 },
    /// Open a fresh connection to this worker's Continue endpoint.
    Reconnect(u64),
    /// Stop with this error.
    Stop(BarrierError),
}

/// The coordinator's state.
#[derive(Clone, Copy, Debug)]
pub struct Coordinator {
    /// Number of workers N.
    pub size: u64,
    /// Milliseconds every worker sleeps after each round.
    pub budget: u64,
    /// Longest wait for a round to complete, if any.
    pub deadline_ms: Option<u64>,
    /// Milliseconds waited in the current round.
    pub waited_ms: u64,
    pub phase: CoordPhase,
}

/// `a + b`, or the largest `u64` where that overflows.
pub open spec fn sat_add(a: u64, b: u64) -> u64 {
    if a + b > u64::MAX { u64::MAX } else { (a + b) as u64 }
}

/// Whether the round has waited past its deadline.
pub open spec fn expired(c: Coordinator) -> bool {
    c.deadline_ms matches Some(d) && c.waited_ms >= d
}

impl Coordinator {
    /// At least one worker, and a worker index below N in every phase.
    pub open spec fn wf(&self) -> bool {
        &&& self.size >= 1
        &&& self.phase matches CoordPhase::Sending(i) ==> i < self.size
        &&& self.phase matches CoordPhase::Reconnecting(i) ==> i < self.size
    }

    /// The coordinator after `e`, and its next action.
    pub open spec fn next(self, e: CoordEvent) -> (Coordinator, CoordAction) {
        match (self.phase, e) {
            (CoordPhase::Polling, CoordEvent::Checked(true)) => (
                Coordinator { phase: CoordPhase::Sending(0), ..self },
                CoordAction::SendContinue { worker: 0, budget: self.budget },
            ),
            (CoordPhase::Polling, CoordEvent::Checked(false)) => if expired(self) {
                (
                    Coordinator { phase: CoordPhase::Failed, ..self },
                    CoordAction::Stop(BarrierError::WorkerTimeout),
                )
            } else {
                (self, CoordAction::Wait(POLL_INTERVAL_MS))
            },
            (CoordPhase::Polling, CoordEvent::Waited(ms)) => (
                Coordinator { waited_ms: sat_add(self.waited_ms, ms), ..self },
                CoordAction::CheckTally,
            ),
            (CoordPhase::Sending(i), CoordEvent::Sent) => (
                Coordinator { phase: CoordPhase::Reconnecting(i), ..self },
                CoordAction::Reconnect(i),
            ),
            (CoordPhase::Reconnecting(i), CoordEvent::Reconnected) => if i + 1 < self.size {
                (
                    Coordinator { phase: CoordPhase::Sending((i + 1) as u64), ..self },
                    CoordAction::SendContinue { worker: (i + 1) as u64, budget: self.budget },
                )
            } else {
                (
                    Coordinator { phase: CoordPhase::Polling, waited_ms: 0, ..self },
                    CoordAction::CheckTally,
                )
            },
            _ => (
                Coordinator { phase: CoordPhase::Failed, ..self },
                CoordAction::Stop(BarrierError::ConnectionError),
            ),
        }
    }

    /// A coordinator for `size` workers and the given budget, about to check
    /// the tally for the first time.
    pub fn new(size: u64, budget: u64, deadline_ms: Option<u64>) -> (r: (Coordinator, CoordAction))
        requires
            size >= 1,
        ensures
            r.0.wf(),
            r.0 == (Coordinator { size, budget, deadline_ms, waited_ms: 0, phase: CoordPhase::Polling }),
            r.1 == CoordAction::CheckTally,
    {
        (Coordinator { size, budget, deadline_ms, waited_ms: 0, phase: CoordPhase::Polling }, CoordAction::CheckTally)
    }

    /// Takes the outcome of the last action and returns the next action.
    pub fn on_event(&mut self, e: CoordEvent) -> (r: CoordAction)
        requires
            old(self).wf(),
        ensures
            final(self).wf(),
            (*final(self), r) == old(self).next(e),
    {
        match (self.phase, e) {
            (CoordPhase::Polling, CoordEvent::Checked(true)) => {
                self.phase = CoordPhase::Sending(0);
                CoordAction::SendContinue { worker: 0, budget: self.budget }
            },
            (CoordPhase::Polling, CoordEvent::Checked(false)) => {
                let late = match self.deadline_ms {
                    Some(d) => self.waited_ms >= d,
                    None => false,
                };
                if late {
                    self.phase = CoordPhase::Failed;
                    CoordAction::Stop(BarrierError::WorkerTimeout)
                } else {
                    CoordAction::Wait(POLL_INTERVAL_MS)
                }
            },
            (CoordPhase::Polling, CoordEvent::Waited(ms)) => {
                self.waited_ms = if ms > u64::MAX - self.waited_ms {
                    u64::MAX
                } else {
                    self.waited_ms + ms
                };
                CoordAction::CheckTally
            },
            (CoordPhase::Sending(i), CoordEvent::Sent) => {
                self.phase = CoordPhase::Reconnecting(i);
                CoordAction::Reconnect(i)
            },
            (CoordPhase::Reconnecting(i), CoordEvent::Reconnected) => {
                if i + 1 < self.size {
                    self.phase = CoordPhase::Sending(i + 1);
                    CoordAction::SendContinue { worker: i + 1, budget: self.budget }
                } else {
                    self.phase = CoordPhase::Polling;
                    self.waited_ms = 0;
                    CoordAction::CheckTally
                }
            },
            _ => {
                self.phase = CoordPhase::Failed;
                CoordAction::Stop(BarrierError::ConnectionError)
            },
        }
    }

    /// Performs a `CheckTally` action: checks and resets the tally in one
    /// step and takes the result as the event. The caller holds the tally's
    /// lock for the call.
    pub fn check_tally(&mut self, tally: &mut RoundTally) -> (r: CoordAction)
        requires
            old(self).wf(),
            old(tally).wf(),
        ensures
            final(self).wf(),
            RoundTally::reset_outcome(*old(tally), *final(tally), old(tally).is_complete()),
            (*final(self), r) == old(self).next(CoordEvent::Checked(old(tally).is_complete())),
            r is SendContinue ==> old(tally).is_complete() && final(tally).count() == 0,
    {
        let fired = tally.try_reset_if_complete();
        self.on_event(CoordEvent::Checked(fired))
    }
}

/// A Continue goes out only in index order within one broadcast: to worker 0
/// only right after a check of the tally that found it complete and reset it,
/// and to worker `i + 1` only right after worker `i`'s connection was renewed.
/// A broadcast ends, back in polling, only after the last worker. So the
/// Continue of the next round needs a new complete tally, counted up from the
/// 0 that this round's reset left.
pub proof fn lemma_continue_only_after_reset(c: Coordinator, e: CoordEvent)
    requires
        c.wf(),
    ensures
        c.next(e).1 matches CoordAction::SendContinue { worker, budget } ==> budget == c.budget && (
            (worker == 0 && c.phase == CoordPhase::Polling && e == CoordEvent::Checked(true))
            || (worker >= 1 && c.phase == CoordPhase::Reconnecting((worker - 1) as u64)
                && e == CoordEvent::Reconnected)),
        c.next(e).0.phase == CoordPhase::Polling ==> c.phase == CoordPhase::Polling
            || c.phase == CoordPhase::Reconnecting((c.size - 1) as u64),
        c.next(e).0.wf(),
{
}

/// Where the coordinator checks the tally and starts a broadcast, that check
/// found the tally at exactly N and left it at 0.
pub proof fn lemma_broadcast_starts_on_reset(
    c: Coordinator,
    before: RoundTally,
    after: RoundTally,
    fired: bool,
)
    requires
        c.wf(),
        before.wf(),
        RoundTally::reset_outcome(before, after, fired),
    ensures
        c.next(CoordEvent::Checked(fired)).1 is SendContinue ==> before.count() == before.size()
            && after.count() == 0 && c.phase == CoordPhase::Polling,
{
}

/// An incomplete round past its deadline stops the coordinator with
/// `WorkerTimeout` at the next check.
pub proof fn lemma_timeout_reported(c: Coordinator)
    requires
        c.wf(),
        c.phase == CoordPhase::Polling,
        expired(c),
    ensures
        c.next(CoordEvent::Checked(false)).1 == CoordAction::Stop(BarrierError::WorkerTimeout),
{
}

/// The coordinator after the events `es`, in order.
pub open spec fn run(c: Coordinator, es: Seq<CoordEvent>) -> Coordinator
    decreases es.len(),
{
    if es.len() == 0 {
        c
    } else {
        run(c, es.drop_last()).next(es.last()).0
    }
}

/// The workers that a Continue goes to over the events `es`, in order.
pub open spec fn sends(c: Coordinator, es: Seq<CoordEvent>) -> Seq<u64>
    decreases es.len(),
{
    if es.len() == 0 {
        Seq::empty()
    } else {
        let before = sends(c, es.drop_last());
        match run(c, es.drop_last()).next(es.last()).1 {
            CoordAction::SendContinue { worker, budget } => before.push(worker),
            _ => before,
        }
    }
}

/// The worker after `w` in a broadcast to `n` workers, wrapping to 0.
pub open spec fn next_worker(w: u64, n: u64) -> u64 {
    if w + 1 < n { (w + 1) as u64 } else { 0 }
}

/// The workers start at 0 and each one follows the one before it in index
/// order, wrapping from the last worker to 0.
pub open spec fn cyclic_order(s: Seq<u64>, n: u64) -> bool {
    &&& s.len() > 0 ==> s[0] == 0
    &&& forall|k: int| 0 <= k < s.len() ==> #[trigger] s[k] < n
    &&& forall|k: int| 0 <= k < s.len() - 1 ==> s[k + 1] == next_worker(#[trigger] s[k], n)
}

/// How the phase stands to the last Continue sent.
spec fn phase_matches_sends(c: Coordinator, s: Seq<u64>) -> bool {
    match c.phase {
        CoordPhase::Polling => s.len() == 0 || s.last() == c.size - 1,
        CoordPhase::Sending(i) => s.len() > 0 && s.last() == i,
        CoordPhase::Reconnecting(i) => s.len() > 0 && s.last() == i,
        CoordPhase::Failed => true,
    }
}

proof fn lemma_run_invariant(c: Coordinator, es: Seq<CoordEvent>)
    requires
        c.wf(),
        c.phase == CoordPhase::Polling,
    ensures
        run(c, es).wf(),
        run(c, es).size == c.size,
        run(c, es).budget == c.budget,
        phase_matches_sends(run(c, es), sends(c, es)),
        cyclic_order(sends(c, es), c.size),
    decreases es.len(),
{
    if es.len() > 0 {
        let init = es.drop_last();
        lemma_run_invariant(c, init);
        let prev = run(c, init);
        let s = sends(c, init);
        let (nx, a) = prev.next(es.last());
        lemma_continue_only_after_reset(prev, es.last());
        if let CoordAction::SendContinue { worker, budget } = a {
            let t = s.push(worker);
            assert(sends(c, es) == t);
            assert forall|k: int| 0 <= k < t.len() - 1 implies t[k + 1] == next_worker(#[trigger] t[k], c.size) by {
                if k < s.len() - 1 {
                    assert(t[k] == s[k] && t[k + 1] == s[k + 1]);
                }
            }
            assert forall|k: int| 0 <= k < t.len() implies #[trigger] t[k] < c.size by {
                if k < s.len() {
                    assert(t[k] == s[k]);
                }
            }
        }
    }
}

/// Over any run of events from polling, the Continues go out in index
/// order, broadcast after broadcast: to workers 0, 1, ..., N - 1, then 0
/// again. No broadcast skips a worker, repeats one or interleaves with the
/// next.
pub proof fn lemma_broadcasts_in_index_order(c: Coordinator, es: Seq<CoordEvent>)
    requires
        c.wf(),
        c.phase == CoordPhase::Polling,
    ensures
        cyclic_order(sends(c, es), c.size),
{
    lemma_run_invariant(c, es);
}

} // verus!
