//! Errors, the connect-retry policy, and what the Done listener does with
//! the bytes of one accepted connection.
use vstd::prelude::*;
use crate::codec::{decode_done, done_of, CodecError};
use crate::tally::RoundTally;

verus! {

/// Delay before retrying a connection to an endpoint that does not exist yet.
pub const RETRY_DELAY_MS: u64 = 2000;

/// The failures of the barrier.
#[derive(Clone, Copy, Debug, PartialEq, Eq, Structural)]
pub enum BarrierError {
    /// Invalid, missing or conflicting startup flags.
    ArgumentError,
    /// The peer's endpoint file is absent; connecting again later may work.
    EndpointNotReady,
    /// Any other connect, bind, read or write failure.
    ConnectionError,
    /// A record was too short or held a value it does not allow.
    MalformedRecord,
    /// A round did not complete within the deadline.
    WorkerTimeout,
    /// A Done arrived while every worker was already counted.
    TallyFull,
}

impl BarrierError {
    /// A short description of the error.
    pub fn message(&self) -> (r: &'static str) {
        match self {
            BarrierError::ArgumentError => "invalid or missing arguments",
            BarrierError::EndpointNotReady => "endpoint not ready",
            BarrierError::ConnectionError => "connection error",
            BarrierError::MalformedRecord => "malformed record",
            BarrierError::WorkerTimeout => "a worker did not finish the round in time",
            BarrierError::TallyFull => "done record beyond the number of workers",
        }
    }
}

/// How an attempt to connect to an endpoint ended.
#[derive(Clone, Copy, Debug, PartialEq, Eq, Structural)]
pub enum ConnectOutcome {
    Connected,
    /// The endpoint file does not exist.
    NotFound,
    /// Any other error.
    Failed,
}

/// What to do after an attempt to connect.
#[derive(Clone, Copy, Debug, PartialEq, Eq, Structural)]
pub enum ConnectStep {
    /// Use the connection.
    Proceed,
    /// Wait this many milliseconds, then try again.
    RetryAfter(u64),
    /// Give up: the process ends with this error.
    Fatal(BarrierError),
}

/// The connect-retry policy: an absent endpoint is retried after a fixed
/// delay, as often as needed; any other failure is fatal.
pub open spec fn connect_step_of(o: ConnectOutcome) -> ConnectStep {
    match o {
        ConnectOutcome::Connected => ConnectStep::Proceed,
        ConnectOutcome::NotFound => ConnectStep::RetryAfter(RETRY_DELAY_MS),
        ConnectOutcome::Failed => ConnectStep::Fatal(BarrierError::ConnectionError),
    }
}

/// Decides what follows an attempt to connect.
pub fn on_connect(o: ConnectOutcome) -> (r: ConnectStep)
    ensures
        r == connect_step_of(o),
{
    match o {
        ConnectOutcome::Connected => ConnectStep::Proceed,
        ConnectOutcome::NotFound => ConnectStep::RetryAfter(RETRY_DELAY_MS),
        ConnectOutcome::Failed => ConnectStep::Fatal(BarrierError::ConnectionError),
    }
}

/// Counts the Done record read from one accepted connection.
///
/// A malformed record leaves the tally as it was and returns
/// `MalformedRecord`: the listener drops that connection and accepts the
/// next one. A Done record on a complete tally returns `TallyFull` and
/// leaves it complete.
pub fn on_done_bytes(tally: &mut RoundTally, bytes: &[u8]) -> (r: Result<(), BarrierError>)
    requires
        old(tally).wf(),
    ensures
        final(tally).wf(),
        final(tally).size() == old(tally).size(),
        done_of(bytes@) is Err ==> r == Err::<(), BarrierError>(BarrierError::MalformedRecord)
            && final(tally).count() == old(tally).count(),
        done_of(bytes@) is Ok && old(tally).count() < old(tally).size() ==> r == Ok::<(), BarrierError>(())
            && final(tally).count() == old(tally).count() + 1,
        done_of(bytes@) is Ok && old(tally).count() == old(tally).size() ==> r == Err::<(), BarrierError>(
            BarrierError::TallyFull,
        ) && final(tally).count() == old(tally).count(),
{
    match decode_done(bytes) {
        Err(CodecError::MalformedRecord) => Err(BarrierError::MalformedRecord),
        Ok(_) => {
            if tally.increment() {
                Ok(())
            } else {
                Err(BarrierError::TallyFull)
            }
        },
    }
}

} // verus!
