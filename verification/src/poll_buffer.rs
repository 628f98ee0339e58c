//! The concurrency engine: a bounded pool of poll loops feeding a bounded
//! result buffer.
//!
//! A [`PollBuffer`] owns, for one task queue, a configured number of
//! concurrent poll loops and an ordered output buffer of bounded capacity.
//! Each loop repeatedly checks the shared shutdown flag, issues one remote
//! poll RPC (through the retry gateway), and enqueues the outcome; a full
//! buffer suspends the producer — that backpressure, not an error, is what
//! bounds memory. Consumers dequeue in FIFO order through `poll`.
//!
//! The loops themselves suspend on the RPC and on the full buffer, so they
//! run in the host; the state they share is this one machine, and every
//! step a loop or a consumer can take is a verified transition here:
//! [`PollBuffer::begin_poll`] (a loop at the top of its iteration),
//! [`PollBuffer::complete_poll`] (an RPC returned and its outcome is
//! enqueued), and the lifecycle methods of the [`Poller`] trait.

use vstd::prelude::*;

use crate::poller::PollResult;
use crate::poller::Poller;
use crate::status::TerminalError;

verus! {

/// The abstract state of a [`PollBuffer`]: what the contracts and the laws
/// speak of.
#[verifier::ext_equal]
pub struct PollBufferView<T> {
    /// The queue this pool polls.
    pub task_queue: Seq<char>,
    /// Configured concurrency: the number of poll loops spawned.
    pub concurrency: nat,
    /// Capacity of the output buffer.
    pub capacity: nat,
    /// Completed results not yet consumed, oldest first.
    pub buffer: Seq<PollResult<T>>,
    /// Poll loops whose remote RPC is in flight right now.
    pub outstanding: nat,
    /// Poll loops that have not yet observed shutdown and exited.
    pub active_loops: nat,
    /// The shared shutdown flag.
    pub shutdown_requested: bool,
    /// Whether `shutdown` has completed.
    pub closed: bool,
}

impl<T> PollBufferView<T> {
    /// The state invariant: at most `concurrency` loops exist, of which at
    /// most the existing ones are mid-RPC; the buffer respects its
    /// capacity; a closed pool has signalled shutdown and has no loop
    /// left.
    pub open spec fn wf(self) -> bool {
        &&& 1 <= self.concurrency
        &&& 1 <= self.capacity
        &&& self.outstanding <= self.active_loops
        &&& self.active_loops <= self.concurrency
        &&& self.buffer.len() <= self.capacity
        &&& self.closed ==> self.shutdown_requested && self.active_loops == 0
    }

    /// Whether some loop is idle at the top of its iteration, able to take
    /// the [`PollBuffer::begin_poll`] step.
    pub open spec fn can_begin(self) -> bool {
        self.outstanding < self.active_loops
    }

    /// The state after an idle loop issues a new remote poll RPC.
    pub open spec fn after_begin(self) -> PollBufferView<T> {
        PollBufferView { outstanding: self.outstanding + 1, ..self }
    }

    /// The state after a loop observes the shutdown flag and exits.
    pub open spec fn after_loop_exit(self) -> PollBufferView<T> {
        PollBufferView { active_loops: (self.active_loops - 1) as nat, ..self }
    }

    /// The state after one in-flight RPC's outcome is enqueued.
    pub open spec fn after_complete(self, r: PollResult<T>) -> PollBufferView<T> {
        PollBufferView {
            buffer: self.buffer.push(r),
            outstanding: (self.outstanding - 1) as nat,
            ..self
        }
    }

    /// The state after the shutdown signal, whether first or repeated.
    pub open spec fn after_notify(self) -> PollBufferView<T> {
        PollBufferView { shutdown_requested: true, ..self }
    }

    /// The state once shutdown has completed: every loop has observed the
    /// flag and exited, and the pool is closed. The buffer survives.
    pub open spec fn after_shutdown(self) -> PollBufferView<T> {
        PollBufferView { shutdown_requested: true, active_loops: 0, closed: true, ..self }
    }
}

/// The shared state of one task queue's polling pool.
pub struct PollBuffer<T> {
    /// The queue this pool polls.
    pub task_queue: String,
    /// Configured concurrency: the number of poll loops spawned, and so
    /// the most remote poll RPCs ever outstanding at once.
    pub concurrency: usize,
    /// Capacity of the output buffer; producers suspend when it is full.
    pub capacity: usize,
    /// Completed results not yet consumed, oldest first.
    pub buffer: Vec<PollResult<T>>,
    /// Poll loops whose remote RPC is in flight right now.
    pub outstanding: usize,
    /// Poll loops that have not yet observed shutdown and exited.
    pub active_loops: usize,
    /// The shared shutdown flag: single writer, read by every loop at the
    /// top of each iteration.
    pub shutdown_requested: bool,
    /// Whether `shutdown` has completed.
    pub closed: bool,
}

impl<T> View for PollBuffer<T> {
    type V = PollBufferView<T>;

    open spec fn view(&self) -> PollBufferView<T> {
        PollBufferView {
            task_queue: self.task_queue@,
            concurrency: self.concurrency as nat,
            capacity: self.capacity as nat,
            buffer: self.buffer@,
            outstanding: self.outstanding as nat,
            active_loops: self.active_loops as nat,
            shutdown_requested: self.shutdown_requested,
            closed: self.closed,
        }
    }
}

impl<T> PollBuffer<T> {
    /// Creates the pool for one task queue: `concurrency` loops are
    /// spawned and idle, nothing is in flight, the buffer is empty.
    pub fn new(task_queue: String, concurrency: usize, capacity: usize) -> (r: PollBuffer<T>)
        requires
            1 <= concurrency,
            1 <= capacity,
        ensures
            r@.wf(),
            r@.task_queue == task_queue@,
            r@.concurrency == concurrency as nat,
            r@.capacity == capacity as nat,
            r@.buffer =~= Seq::<PollResult<T>>::empty(),
            r@.outstanding == 0,
            r@.active_loops == concurrency as nat,
            !r@.shutdown_requested,
            !r@.closed,
    {
        PollBuffer {
            task_queue,
            concurrency,
            capacity,
            buffer: Vec::new(),
            outstanding: 0,
            active_loops: concurrency,
            shutdown_requested: false,
            closed: false,
        }
    }

    /// One idle loop reaches the top of its iteration: it reads the shared
    /// shutdown flag, and either issues a new remote poll RPC (`true`) or —
    /// when shutdown has been signalled — exits without issuing one
    /// (`false`). After `notify_shutdown`, no step of any loop ever starts
    /// a new RPC.
    pub fn begin_poll(&mut self) -> (started: bool)
        requires
            old(self)@.wf(),
            old(self)@.can_begin(),
        ensures
            final(self)@.wf(),
            started == !old(self)@.shutdown_requested,
            started ==> final(self)@ == old(self)@.after_begin(),
            !started ==> final(self)@ == old(self)@.after_loop_exit(),
    {
        if self.shutdown_requested {
            self.active_loops = self.active_loops - 1;
            proof {
                assert(self@ =~= old(self)@.after_loop_exit());
            }
            false
        } else {
            self.outstanding = self.outstanding + 1;
            proof {
                assert(self@ =~= old(self)@.after_begin());
            }
            true
        }
    }

    /// One in-flight RPC returns — a task, or a terminal failure the retry
    /// gateway has given up on — and its loop enqueues the outcome. A full
    /// buffer suspends the loop first, so the step fires once there is
    /// room: that is the backpressure bound, not an error. A terminal
    /// failure is enqueued as data and the loop lives on: no single bad
    /// poll stops the pool.
    pub fn complete_poll(&mut self, r: PollResult<T>)
        requires
            old(self)@.wf(),
            old(self)@.outstanding >= 1,
            old(self)@.buffer.len() < old(self)@.capacity,
        ensures
            final(self)@.wf(),
            final(self)@ == old(self)@.after_complete(r),
    {
        self.buffer.push(r);
        self.outstanding = self.outstanding - 1;
        proof {
            assert(self@ =~= old(self)@.after_complete(r));
        }
    }

    /// Drains everything still buffered once the loops have exited:
    /// exactly the buffered results come out, in their buffered order, and
    /// the buffer is left empty, so the next `poll` returns `None`.
    pub fn drain(&mut self) -> (v: Vec<PollResult<T>>)
        requires
            old(self)@.wf(),
            old(self)@.shutdown_requested,
            old(self)@.active_loops == 0,
        ensures
            final(self)@.wf(),
            v@ == old(self)@.buffer,
            final(self)@ == (PollBufferView {
                buffer: Seq::<PollResult<T>>::empty(),
                ..old(self)@
            }),
    {
        let mut v: Vec<PollResult<T>> = Vec::new();
        loop
            invariant
                self@.wf(),
                self@.shutdown_requested,
                self@.active_loops == 0,
                v@ + self@.buffer == old(self)@.buffer,
                self@.task_queue == old(self)@.task_queue,
                self@.concurrency == old(self)@.concurrency,
                self@.capacity == old(self)@.capacity,
                self@.outstanding == old(self)@.outstanding,
                self@.closed == old(self)@.closed,
            ensures
                self@.buffer.len() == 0,
            decreases self@.buffer.len(),
        {
            match self.poll() {
                Some(r) => {
                    v.push(r);
                    proof {
                        assert(v@ + self@.buffer =~= old(self)@.buffer);
                    }
                },
                None => {
                    break ;
                },
            }
        }
        proof {
            assert(v@ =~= old(self)@.buffer);
            assert(self@ =~= (PollBufferView {
                buffer: Seq::<PollResult<T>>::empty(),
                ..old(self)@
            }));
        }
        v
    }
}

impl<T> Poller<T> for PollBuffer<T> {
    open spec fn buffered(&self) -> Seq<PollResult<T>> {
        self@.buffer
    }

    open spec fn shutdown_requested(&self) -> bool {
        self@.shutdown_requested
    }

    open spec fn quiescent(&self) -> bool {
        self@.active_loops == 0
    }

    open spec fn idle(&self) -> bool {
        self@.outstanding == 0
    }

    open spec fn closed(&self) -> bool {
        self@.closed
    }

    open spec fn inv(&self) -> bool {
        self@.wf()
    }

    fn poll(&mut self) -> (r: Option<PollResult<T>>)
        ensures
            final(self)@.task_queue == old(self)@.task_queue,
            final(self)@.concurrency == old(self)@.concurrency,
            final(self)@.capacity == old(self)@.capacity,
            final(self)@.outstanding == old(self)@.outstanding,
            final(self)@.active_loops == old(self)@.active_loops,
    {
        if self.buffer.len() > 0 {
            let item = self.buffer.remove(0);
            proof {
                assert(self@.buffer =~= old(self)@.buffer.drop_first());
            }
            Some(item)
        } else {
            None
        }
    }

    fn notify_shutdown(&mut self) {
        self.shutdown_requested = true;
    }

    fn shutdown(&mut self) {
        self.shutdown_requested = true;
        self.active_loops = 0;
        self.closed = true;
    }

    fn shutdown_box(self: Box<Self>) {
        let mut inner = *self;
        inner.shutdown();
    }
}

/// Law: in every well-formed state, the number of outstanding remote poll
/// RPCs of one pool never exceeds its configured concurrency, and the one
/// step that raises the count — [`PollBuffer::begin_poll`] — preserves the
/// bound.
pub proof fn lemma_bounded_concurrency<T>(s: PollBufferView<T>)
    requires
        s.wf(),
    ensures
        s.outstanding <= s.concurrency,
        s.can_begin() ==> s.after_begin().outstanding <= s.after_begin().concurrency,
{
}

/// Law: the shutdown signal is idempotent — signalling twice reaches the
/// same state as signalling once, and completing shutdown after any number
/// of signals reaches the same terminal state as completing it after none;
/// no signal drops a buffered result.
pub proof fn lemma_shutdown_idempotent<T>(s: PollBufferView<T>)
    ensures
        s.after_notify().after_notify() == s.after_notify(),
        s.after_notify().after_shutdown() == s.after_shutdown(),
        s.after_notify().buffer == s.buffer,
        s.after_shutdown().buffer == s.buffer,
{
    assert(s.after_notify().after_notify() =~= s.after_notify());
    assert(s.after_notify().after_shutdown() =~= s.after_shutdown());
}

/// Law: a terminal error delivered by one poll loop does not stop the
/// others — the step that enqueues it keeps every loop alive, leaves the
/// shutdown flag alone, and, while shutdown has not been signalled, some
/// loop can begin a new remote poll right afterwards.
pub proof fn lemma_terminal_error_isolation<T>(s: PollBufferView<T>, err: TerminalError)
    requires
        s.wf(),
        s.outstanding >= 1,
        s.buffer.len() < s.capacity,
    ensures
        s.after_complete(Err(err)).wf(),
        s.after_complete(Err(err)).active_loops == s.active_loops,
        s.after_complete(Err(err)).shutdown_requested == s.shutdown_requested,
        s.after_complete(Err(err)).can_begin(),
{
}

} // verus!
