//! Resilient connection management for a multiplexed request/response client.
//!
//! The library holds the decisions of the connection layer as verified state
//! machines: the guarded connection state with its availability signal, the
//! retry-driven connection-attempt procedure, and the dispatch policy that turns
//! one dropped connection into one reconnect and one resend. The asynchronous
//! plumbing (locks, sleeps, spawned tasks, network sends) drives these machines
//! and performs the actions they return.

pub mod dispatch;
pub mod redis_session;
pub mod retry;
pub mod state;
