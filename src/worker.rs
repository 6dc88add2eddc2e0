//! The worker agent's round: send Done, accept one Continue, sleep for its
//! budget, reconnect, and again.
//!
//! The caller performs each action and reports how it went; the agent
//! decides the next one.
use vstd::prelude::*;
use crate::codec::{continue_of, decode_continue};
use crate::protocol::BarrierError;

verus! {

/// Where a worker stands in its round.
#[derive(Clone, Copy, Debug, PartialEq, Eq, Structural)]
pub enum WorkerPhase {
    /// Sending Done on the current Done connection.
    Sending,
    /// Waiting for the coordinator's Continue.
    Awaiting,
    /// Sleeping for the round's budget.
    Sleeping,
    /// Opening a fresh Done connection for the next round.
    Reconnecting,
    /// Stopped after a failure.
    Stopped,
}

/// How the worker's last action went.
#[derive(Clone, Debug)]
pub enum WorkerEvent {
    /// The Done record was written.
    DoneSent,
    /// A Continue connection was accepted and these bytes were read from it.
    ContinueRead(Vec<u8>),
    /// The sleep is over.
    Slept,
    /// The Done connection was opened again.
    Reconnected,
    /// The action failed.
    Failed,
}

/// What the worker does next.
#[derive(Clone, Copy, Debug, PartialEq, Eq, Structural)]
pub enum WorkerAction {
    /// Write one Done record on the Done connection.
    SendDone,
    /// Accept one connection on the Continue endpoint and read a record.
    AcceptContinue,
    /// Sleep this many milliseconds.
    Sleep(u64),
    /// Open a fresh connection to the Done endpoint.
    Reconnect,
    /// Stop with this error.
    Stop(BarrierError),
}

/// The worker's next phase and action, after `e` in phase `p`.
pub open spec fn worker_next(p: WorkerPhase, e: WorkerEvent) -> (WorkerPhase, WorkerAction) {
    match (p, e) {
        (WorkerPhase::Sending, WorkerEvent::DoneSent) => (WorkerPhase::Awaiting, WorkerAction::AcceptContinue),
        (WorkerPhase::Awaiting, WorkerEvent::ContinueRead(b)) => match continue_of(b@) {
            Ok(m) => (WorkerPhase::Sleeping, WorkerAction::Sleep(m.budget)),
            Err(_) => (WorkerPhase::Stopped, WorkerAction::Stop(BarrierError::MalformedRecord)),
        },
        (WorkerPhase::Sleeping, WorkerEvent::Slept) => (WorkerPhase::Reconnecting, WorkerAction::Reconnect),
        (WorkerPhase::Reconnecting, WorkerEvent::Reconnected) => (WorkerPhase::Sending, WorkerAction::SendDone),
        _ => (WorkerPhase::Stopped, WorkerAction::Stop(BarrierError::ConnectionError)),
    }
}

/// A worker agent, once its first Done connection is open.
pub struct WorkerAgent {
    pub phase: WorkerPhase,
}

impl WorkerAgent {
    /// A worker about to send its first Done.
    pub fn new() -> (r: (WorkerAgent, WorkerAction))
        ensures
            r.0.phase == WorkerPhase::Sending,
            r.1 == WorkerAction::SendDone,
    {
        (WorkerAgent { phase: WorkerPhase::Sending }, WorkerAction::SendDone)
    }

    /// Takes the outcome of the last action and returns the next action.
    pub fn on_event(&mut self, e: WorkerEvent) -> (r: WorkerAction)
        ensures
            (final(self).phase, r) == worker_next(old(self).phase, e),
    {
        let (p, a) = match (self.phase, e) {
            (WorkerPhase::Sending, WorkerEvent::DoneSent) => (WorkerPhase::Awaiting, WorkerAction::AcceptContinue),
            (WorkerPhase::Awaiting, WorkerEvent::ContinueRead(b)) => match decode_continue(b.as_slice()) {
                Ok(m) => (WorkerPhase::Sleeping, WorkerAction::Sleep(m.budget)),
                Err(_) => (WorkerPhase::Stopped, WorkerAction::Stop(BarrierError::MalformedRecord)),
            },
            (WorkerPhase::Sleeping, WorkerEvent::Slept) => (WorkerPhase::Reconnecting, WorkerAction::Reconnect),
            (WorkerPhase::Reconnecting, WorkerEvent::Reconnected) => (WorkerPhase::Sending, WorkerAction::SendDone),
            _ => (WorkerPhase::Stopped, WorkerAction::Stop(BarrierError::ConnectionError)),
        };
        self.phase = p;
        a
    }
}

/// A worker sends Done only right after it has reconnected, reconnects only
/// right after its sleep, and sleeps only right after reading a well-formed
/// Continue, whose budget it sleeps. So between two Done records of one
/// worker there is always a Continue, a sleep and a reconnect.
pub proof fn lemma_done_only_after_sleep_and_reconnect(p: WorkerPhase, e: WorkerEvent)
    ensures
        worker_next(p, e).1 == WorkerAction::SendDone ==> p == WorkerPhase::Reconnecting
            && e is Reconnected,
        worker_next(p, e).1 == WorkerAction::Reconnect ==> p == WorkerPhase::Sleeping && e is Slept,
        worker_next(p, e).1 is Sleep ==> p == WorkerPhase::Awaiting && (e matches WorkerEvent::ContinueRead(b)
            && continue_of(b@) matches Ok(m) && worker_next(p, e).1 == WorkerAction::Sleep(m.budget)),
        worker_next(p, e).1 == WorkerAction::AcceptContinue ==> p == WorkerPhase::Sending && e is DoneSent,
{
}

/// A stopped worker stays stopped, whatever it is told.
pub proof fn lemma_stopped_stays_stopped(e: WorkerEvent)
    ensures
        worker_next(WorkerPhase::Stopped, e).0 == WorkerPhase::Stopped,
        worker_next(WorkerPhase::Stopped, e).1 is Stop,
{
}

/// Whether `b` may come right after `a`: the round's four actions in their
/// cycle, or a stop, after which only stops come.
pub open spec fn may_follow(a: WorkerAction, b: WorkerAction) -> bool {
    b is Stop || match a {
        WorkerAction::SendDone => b == WorkerAction::AcceptContinue,
        WorkerAction::AcceptContinue => b is Sleep,
        WorkerAction::Sleep(_) => b == WorkerAction::Reconnect,
        WorkerAction::Reconnect => b == WorkerAction::SendDone,
        WorkerAction::Stop(_) => false,
    }
}

/// The phase a worker is in once it has taken action `a`.
pub open spec fn phase_after(a: WorkerAction) -> WorkerPhase {
    match a {
        WorkerAction::SendDone => WorkerPhase::Sending,
        WorkerAction::AcceptContinue => WorkerPhase::Awaiting,
        WorkerAction::Sleep(_) => WorkerPhase::Sleeping,
        WorkerAction::Reconnect => WorkerPhase::Reconnecting,
        WorkerAction::Stop(_) => WorkerPhase::Stopped,
    }
}

/// The worker's phase after the events `es`, from phase `p`.
pub open spec fn worker_run(p: WorkerPhase, es: Seq<WorkerEvent>) -> WorkerPhase
    decreases es.len(),
{
    if es.len() == 0 {
        p
    } else {
        worker_next(worker_run(p, es.drop_last()), es.last()).0
    }
}

/// The actions a new worker takes over the events `es`: its first Done, then
/// one action per event.
pub open spec fn worker_actions(es: Seq<WorkerEvent>) -> Seq<WorkerAction>
    decreases es.len(),
{
    if es.len() == 0 {
        seq![WorkerAction::SendDone]
    } else {
        worker_actions(es.drop_last()).push(
            worker_next(worker_run(WorkerPhase::Sending, es.drop_last()), es.last()).1,
        )
    }
}

proof fn lemma_worker_run_invariant(es: Seq<WorkerEvent>)
    ensures
        worker_actions(es).len() == es.len() + 1,
        worker_run(WorkerPhase::Sending, es) == phase_after(worker_actions(es).last()),
        forall|k: int|
            0 <= k < worker_actions(es).len() - 1 ==> may_follow(
                #[trigger] worker_actions(es)[k],
                worker_actions(es)[k + 1],
            ),
    decreases es.len(),
{
    if es.len() > 0 {
        let init = es.drop_last();
        lemma_worker_run_invariant(init);
        let s = worker_actions(init);
        let t = worker_actions(es);
        assert(t == s.push(worker_next(worker_run(WorkerPhase::Sending, init), es.last()).1));
        assert forall|k: int| 0 <= k < t.len() - 1 implies may_follow(#[trigger] t[k], t[k + 1]) by {
            if k < s.len() - 1 {
                assert(t[k] == s[k] && t[k + 1] == s[k + 1]);
            } else {
                assert(t[k] == s.last());
            }
        }
    }
}

/// Over any run of events, a worker's actions follow the round's cycle
/// (send Done, accept a Continue, sleep, reconnect, send Done) until it stops,
/// and a stopped worker does nothing more. So a worker never sends a second
/// Done in a round: between two Done records come a Continue, its sleep and
/// a fresh connection.
pub proof fn lemma_worker_actions_cycle(es: Seq<WorkerEvent>)
    ensures
        worker_actions(es)[0] == WorkerAction::SendDone,
        forall|k: int|
            0 <= k < worker_actions(es).len() - 1 ==> may_follow(
                #[trigger] worker_actions(es)[k],
                worker_actions(es)[k + 1],
            ),
    decreases es.len(),
{
    lemma_worker_run_invariant(es);
    if es.len() > 0 {
        lemma_worker_actions_cycle(es.drop_last());
        assert(worker_actions(es)[0] == worker_actions(es.drop_last())[0]);
    }
}

} // verus!
