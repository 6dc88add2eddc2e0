//! A round-based rendezvous barrier between one coordinator and N workers.
//!
//! The library holds the protocol's logic: the wire records, the round
//! tally, endpoint naming, and the decisions of the Done listener, the worker
//! agent and the round coordinator. Sockets, timers and threads are driven by
//! the caller, which hands each decision function the outcome of its last
//! action.
pub mod codec;
pub mod tally;
pub mod endpoint;
pub mod protocol;
pub mod worker;
pub mod coordinator;

pub use codec::{SyncMessage, SyncMessageStart};
