//! Resilient task acquisition for a workflow-execution client.
//!
//! The library pulls units of work from a remote task-queue service while
//! reconciling three concerns: keeping a bounded pool of concurrent
//! long-poll requests in flight, retrying transient RPC failures with
//! exponential backoff without masking terminal ones, and shutting down
//! without losing work that is already in flight or already buffered.
//!
//! The remote calls themselves suspend and so live in the host around this
//! library; here each component is a state machine whose transitions carry
//! full contracts — the host and the tests drive those transitions.

pub mod commands;
pub mod gateway;
pub mod poll_buffer;
pub mod poller;
pub mod retry;
pub mod starter;
pub mod status;
pub mod workflow_poller;
