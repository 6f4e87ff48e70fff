//! Diagnostic logic for probing a TCP tunnel (forwarder) for defects in how
//! it propagates connection-close signals and handles backpressure.
//!
//! The library holds the decision logic of the harness: the clogging,
//! draining and closedness-polling state machines, the scenario enumerator
//! with its pruning rules, and the label encoding of a scenario. The
//! surrounding binary performs the socket work and feeds each machine the
//! outcomes it observed.

pub mod clogger;
pub mod drainer;
pub mod enumerator;
pub mod experiment;
pub mod payload;
pub mod policy;
pub mod poller;
