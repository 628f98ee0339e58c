//! Task models and the sticky/non-sticky composition layer.
//!
//! A [`WorkflowTaskPoller`] presents one [`Poller`] surface over two
//! polling pools: a sticky-queue pool, registered when the worker holds a
//! warm cache for its workflow runs, and the normal-queue pool. A poll is
//! routed to the sticky pool first when one is registered and has work,
//! falling back to the normal pool; the lifecycle signals fan out to both.

use vstd::prelude::*;

use crate::poll_buffer::PollBuffer;
use crate::poller::PollResult;
use crate::poller::Poller;

verus! {

/// What the logic reads of a polled workflow task: the opaque token the
/// completion must echo back, and the run it belongs to.
#[derive(Clone, Debug, PartialEq, Eq)]
pub struct WorkflowTaskResponse {
    pub task_token: Vec<u8>,
    pub run_id: String,
}

/// What the logic reads of a polled activity task: the opaque token the
/// completion must echo back, and the activity's identifier.
#[derive(Clone, Debug, PartialEq, Eq)]
pub struct ActivityTaskResponse {
    pub task_token: Vec<u8>,
    pub activity_id: String,
}

/// A polling pool of workflow tasks for one queue.
pub type PollWorkflowTaskBuffer = PollBuffer<WorkflowTaskResponse>;

/// A polling pool of activity tasks for one queue.
pub type PollActivityTaskBuffer = PollBuffer<ActivityTaskResponse>;

/// Creates the polling pool of workflow tasks for one queue; see
/// [`PollBuffer::new`].
pub fn new_workflow_task_buffer(task_queue: String, concurrency: usize, buffer_size: usize) -> (r:
    PollWorkflowTaskBuffer)
    requires
        1 <= concurrency,
        1 <= buffer_size,
    ensures
        r@.wf(),
        r@.task_queue == task_queue@,
        r@.concurrency == concurrency as nat,
        r@.capacity == buffer_size as nat,
        r@.buffer =~= Seq::<PollResult<WorkflowTaskResponse>>::empty(),
        r@.outstanding == 0,
        r@.active_loops == concurrency as nat,
        !r@.shutdown_requested,
        !r@.closed,
{
    PollBuffer::new(task_queue, concurrency, buffer_size)
}

/// Creates the polling pool of activity tasks for one queue; see
/// [`PollBuffer::new`].
pub fn new_activity_task_buffer(task_queue: String, concurrency: usize, buffer_size: usize) -> (r:
    PollActivityTaskBuffer)
    requires
        1 <= concurrency,
        1 <= buffer_size,
    ensures
        r@.wf(),
        r@.task_queue == task_queue@,
        r@.concurrency == concurrency as nat,
        r@.capacity == buffer_size as nat,
        r@.buffer =~= Seq::<PollResult<ActivityTaskResponse>>::empty(),
        r@.outstanding == 0,
        r@.active_loops == concurrency as nat,
        !r@.shutdown_requested,
        !r@.closed,
{
    PollBuffer::new(task_queue, concurrency, buffer_size)
}

/// One `Poller` surface over a sticky-queue pool (when registered) and the
/// normal-queue pool. Sticky work is preferred; the normal queue is the
/// fallback; shutdown fans out to both.
pub struct WorkflowTaskPoller {
    /// The pool on the normal task queue.
    pub normal: PollWorkflowTaskBuffer,
    /// The pool on the worker's sticky queue, when one is registered.
    pub sticky: Option<PollWorkflowTaskBuffer>,
}

impl WorkflowTaskPoller {
    /// Composes the normal-queue pool with an optional sticky-queue pool.
    pub fn new(normal: PollWorkflowTaskBuffer, sticky: Option<PollWorkflowTaskBuffer>) -> (r:
        WorkflowTaskPoller)
        ensures
            r.normal == normal,
            r.sticky == sticky,
    {
        WorkflowTaskPoller { normal, sticky }
    }

    /// The execution layer invalidated the worker's sticky cache: from
    /// here on, polls must not rely on the sticky queue and fall back to
    /// the normal one. The sticky pool is detached and handed back for
    /// the caller to wind down.
    pub fn evict_sticky(&mut self) -> (r: Option<PollWorkflowTaskBuffer>)
        ensures
            final(self).sticky is None,
            final(self).normal == old(self).normal,
            r == old(self).sticky,
    {
        self.sticky.take()
    }
}

impl Poller<WorkflowTaskResponse> for WorkflowTaskPoller {
    /// Buffered results as one queue: sticky work first, then normal —
    /// the routing preference made visible.
    open spec fn buffered(&self) -> Seq<PollResult<WorkflowTaskResponse>> {
        match self.sticky {
            Some(s) => s@.buffer + self.normal@.buffer,
            None => self.normal@.buffer,
        }
    }

    open spec fn shutdown_requested(&self) -> bool {
        &&& self.normal@.shutdown_requested
        &&& match self.sticky {
            Some(s) => s@.shutdown_requested,
            None => true,
        }
    }

    open spec fn quiescent(&self) -> bool {
        &&& self.normal@.active_loops == 0
        &&& match self.sticky {
            Some(s) => s@.active_loops == 0,
            None => true,
        }
    }

    open spec fn idle(&self) -> bool {
        &&& self.normal@.outstanding == 0
        &&& match self.sticky {
            Some(s) => s@.outstanding == 0,
            None => true,
        }
    }

    /// The composition counts as closed once either pool is closed: the
    /// lifecycle only ever closes both together.
    open spec fn closed(&self) -> bool {
        ||| self.normal@.closed
        ||| match self.sticky {
            Some(s) => s@.closed,
            None => false,
        }
    }

    open spec fn inv(&self) -> bool {
        &&& self.normal@.wf()
        &&& match self.sticky {
            Some(s) => s@.wf(),
            None => true,
        }
    }

    fn poll(&mut self) -> (r: Option<PollResult<WorkflowTaskResponse>>) {
        let sticky_has_work = match &self.sticky {
            Some(s) => s.buffer.len() > 0,
            None => false,
        };
        if sticky_has_work {
            match &mut self.sticky {
                Some(s) => {
                    let r = s.poll();
                    proof {
                        assert(self.buffered() =~= old(self).buffered().drop_first());
                    }
                    r
                },
                None => None,
            }
        } else if self.normal.buffer.len() > 0 {
            let r = self.normal.poll();
            proof {
                assert(self.buffered() =~= old(self).buffered().drop_first());
                assert(old(self).buffered()[0] == old(self).normal@.buffer[0]);
            }
            r
        } else {
            None
        }
    }

    fn notify_shutdown(&mut self) {
        self.normal.notify_shutdown();
        match &mut self.sticky {
            Some(s) => s.notify_shutdown(),
            None => (),
        }
    }

    fn shutdown(&mut self) {
        self.normal.shutdown();
        match &mut self.sticky {
            Some(s) => s.shutdown(),
            None => (),
        }
    }

    fn shutdown_box(self: Box<Self>) {
        let mut inner = *self;
        inner.shutdown();
    }
}

} // verus!
