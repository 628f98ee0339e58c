//! The polling capability: anything that acquires tasks from the remote
//! service behind a buffer, with an explicit lifecycle.
//!
//! A poller hands out buffered results one at a time through `poll`,
//! accepts a non-blocking, idempotent shutdown signal through
//! `notify_shutdown`, and finishes through `shutdown`, after which the
//! remaining buffered results can still be drained. In the running system
//! `poll` suspends until a result is available or shutdown has fully
//! drained; here that suspension is the precondition of the transition —
//! the host calls `poll` only at instants where it would have resumed.

use vstd::prelude::*;

use crate::status::TerminalError;

verus! {

/// One delivered poll outcome: a task, or a terminal failure surfaced as
/// data. Transient failures never reach this type; the retry layer
/// resolves them first.
pub type PollResult<T> = Result<T, TerminalError>;

/// A source of polled tasks with an explicit lifecycle. Implemented by
/// [`crate::poll_buffer::PollBuffer`] and by
/// [`crate::workflow_poller::WorkflowTaskPoller`].
pub trait Poller<T>: Sized {
    /// The results buffered and not yet consumed, oldest first.
    spec fn buffered(&self) -> Seq<PollResult<T>>;

    /// Whether shutdown has been signalled.
    spec fn shutdown_requested(&self) -> bool;

    /// Whether every background poll loop has exited.
    spec fn quiescent(&self) -> bool;

    /// Whether any remote poll RPC is still in flight.
    spec fn idle(&self) -> bool;

    /// Whether `shutdown` has completed.
    spec fn closed(&self) -> bool;

    /// The implementation's state invariant.
    spec fn inv(&self) -> bool;

    /// Takes the next available result: the oldest buffered one, or `None`
    /// once shutdown has been signalled and every loop has exited with the
    /// buffer empty. Each call consumes exactly one buffered result — no
    /// duplication, no loss.
    fn poll(&mut self) -> (r: Option<PollResult<T>>)
        requires
            old(self).inv(),
            old(self).buffered().len() > 0 || (old(self).shutdown_requested()
                && old(self).quiescent()),
        ensures
            final(self).inv(),
            old(self).buffered().len() > 0 ==> r == Some(old(self).buffered()[0])
                && final(self).buffered() == old(self).buffered().drop_first(),
            old(self).buffered().len() == 0 ==> r is None && final(self).buffered() == old(
                self,
            ).buffered(),
            final(self).shutdown_requested() == old(self).shutdown_requested(),
            final(self).quiescent() == old(self).quiescent(),
            final(self).idle() == old(self).idle(),
            final(self).closed() == old(self).closed(),
    ;

    /// Signals intent to stop. Non-blocking and idempotent: nothing is
    /// waited for, no buffered result is dropped, and no new remote poll
    /// RPC will be started afterwards — in-flight ones are left to finish.
    fn notify_shutdown(&mut self)
        requires
            old(self).inv(),
        ensures
            final(self).inv(),
            final(self).shutdown_requested(),
            final(self).buffered() == old(self).buffered(),
            final(self).quiescent() == old(self).quiescent(),
            final(self).idle() == old(self).idle(),
            final(self).closed() == old(self).closed(),
    ;

    /// Completes the lifecycle: signals shutdown if not yet signalled,
    /// waits for every loop to observe the flag and exit, and closes the
    /// poller. Callable once per instance — in-flight RPCs must have
    /// finished first (they are never interrupted). Buffered results
    /// survive and are drained by later `poll` calls.
    fn shutdown(&mut self)
        requires
            old(self).inv(),
            !old(self).closed(),
            old(self).idle(),
        ensures
            final(self).inv(),
            final(self).shutdown_requested(),
            final(self).quiescent(),
            final(self).closed(),
            final(self).buffered() == old(self).buffered(),
    ;

    /// The same completion of the lifecycle for a boxed poller, consuming
    /// the box.
    fn shutdown_box(self: Box<Self>)
        requires
            self.inv(),
            !self.closed(),
            self.idle(),
    ;
}

} // verus!
