//! Worker configuration and its builder.
//!
//! A worker registers one task queue with the core and bounds its own
//! resource use: cached workflows, outstanding tasks, concurrent activity
//! polls. The builder seeds the queue name with a random salt so that
//! concurrently running workers never share a queue. The host takes the
//! finished configuration and performs the registration and the workflow
//! starts, which talk to the remote service.

use vstd::prelude::*;
use base64::Engine;

use vstd::string::StringExecFns;

verus! {

/// Per-queue worker configuration, as the registration call consumes it.
#[derive(Clone, Debug)]
pub struct WorkerConfig {
    /// The task queue this worker polls.
    pub task_queue: String,
    /// Most workflow runs kept warm in the sticky cache.
    pub max_cached_workflows: usize,
    /// Most workflow tasks outstanding at once.
    pub max_outstanding_workflow_tasks: usize,
    /// Most activities outstanding at once.
    pub max_outstanding_activities: usize,
    /// Most concurrent activity-task polls.
    pub max_concurrent_at_polls: usize,
}

/// Length of the random salt appended to a task-queue name, in bytes.
pub const TASK_QUEUE_SALT_BYTES: usize = 6;

/// A name for what the standard base64 encoding returns on given bytes:
/// fixed by the input alone; its length is pinned by the wrapper below.
pub uninterp spec fn base64_of(bytes: Seq<u8>) -> Seq<char>;

/// Relies on `base64::engine::general_purpose::STANDARD.encode`: the text
/// depends on the input bytes alone, and with the standard padded
/// alphabet its length is four characters for every three input bytes,
/// rounded up.
#[verifier::external_body]
fn to_base64(bytes: &Vec<u8>) -> (r: String)
    ensures
        r@ == base64_of(bytes@),
        r@.len() == 4 * ((bytes@.len() + 2) / 3),
{
    base64::engine::general_purpose::STANDARD.encode(bytes)
}

/// Relies on `rand::random` over `u8`: one byte from the thread-local
/// generator. Nothing is assumed of its value.
#[verifier::external_body]
fn random_byte() -> (r: u8) {
    rand::random::<u8>()
}

/// Draws `n` random bytes for a queue-name salt.
fn random_salt_bytes(n: usize) -> (r: Vec<u8>)
    ensures
        r@.len() == n,
{
    let mut v: Vec<u8> = Vec::new();
    let mut i: usize = 0;
    while i < n
        invariant
            v@.len() == i,
            i <= n,
        decreases n - i,
    {
        v.push(random_byte());
        i = i + 1;
    }
    v
}

/// Builds the configuration a test worker registers with: the task queue
/// is the test's name plus a random salt, so concurrent runs of the same
/// test never share a queue.
pub struct CoreWfStarter {
    /// The test's name; doubles as the workflow identifier.
    pub test_name: String,
    /// The worker configuration under construction.
    pub worker_config: WorkerConfig,
    /// Workflow-task timeout handed to started workflows, if set.
    pub wft_timeout_ms: Option<u64>,
}

impl CoreWfStarter {
    /// Starts a configuration for `test_name`: the task queue is
    /// `test_name`, an underscore, and the base64 text of six random
    /// bytes (eight characters); one thousand workflows may be cached;
    /// the remaining bounds start at the worker's defaults.
    pub fn new(test_name: &str) -> (r: CoreWfStarter)
        ensures
            r.test_name@ == test_name@,
            r.wft_timeout_ms is None,
            r.worker_config.max_cached_workflows == 1000,
            r.worker_config.task_queue@.len() == test_name@.len() + 9,
            exists|b: Seq<u8>|
                b.len() == TASK_QUEUE_SALT_BYTES && r.worker_config.task_queue@ == test_name@
                    + "_"@ + base64_of(b),
    {
        let salt_bytes = random_salt_bytes(TASK_QUEUE_SALT_BYTES);
        let salt = to_base64(&salt_bytes);
        let task_queue = String::from_str(test_name).concat("_").concat(salt.as_str());
        proof {
            reveal_strlit("_");
            assert(task_queue@ == test_name@ + "_"@ + base64_of(salt_bytes@));
        }
        CoreWfStarter {
            test_name: String::from_str(test_name),
            worker_config: WorkerConfig {
                task_queue,
                max_cached_workflows: 1000,
                max_outstanding_workflow_tasks: 100,
                max_outstanding_activities: 100,
                max_concurrent_at_polls: 5,
            },
            wft_timeout_ms: None,
        }
    }

    /// The task queue the worker will poll.
    pub fn get_task_queue(&self) -> (r: &str)
        ensures
            r@ == self.worker_config.task_queue@,
    {
        self.worker_config.task_queue.as_str()
    }

    /// The workflow identifier used when starting workflows.
    pub fn get_wf_id(&self) -> (r: &str)
        ensures
            r@ == self.test_name@,
    {
        self.test_name.as_str()
    }

    /// Sets the most workflow runs kept warm in the sticky cache.
    pub fn max_cached_workflows(&mut self, num: usize)
        ensures
            *final(self) == (CoreWfStarter {
                worker_config: WorkerConfig {
                    max_cached_workflows: num,
                    ..old(self).worker_config
                },
                ..*old(self)
            }),
    {
        self.worker_config.max_cached_workflows = num;
    }

    /// Sets the most workflow tasks outstanding at once.
    pub fn max_wft(&mut self, max: usize)
        ensures
            *final(self) == (CoreWfStarter {
                worker_config: WorkerConfig {
                    max_outstanding_workflow_tasks: max,
                    ..old(self).worker_config
                },
                ..*old(self)
            }),
    {
        self.worker_config.max_outstanding_workflow_tasks = max;
    }

    /// Sets the most activities outstanding at once.
    pub fn max_at(&mut self, max: usize)
        ensures
            *final(self) == (CoreWfStarter {
                worker_config: WorkerConfig {
                    max_outstanding_activities: max,
                    ..old(self).worker_config
                },
                ..*old(self)
            }),
    {
        self.worker_config.max_outstanding_activities = max;
    }

    /// Sets the most concurrent activity-task polls.
    pub fn max_at_polls(&mut self, max: usize)
        ensures
            *final(self) == (CoreWfStarter {
                worker_config: WorkerConfig {
                    max_concurrent_at_polls: max,
                    ..old(self).worker_config
                },
                ..*old(self)
            }),
    {
        self.worker_config.max_concurrent_at_polls = max;
    }

    /// Sets the workflow-task timeout handed to started workflows, in
    /// milliseconds.
    pub fn wft_timeout(&mut self, timeout_ms: u64)
        ensures
            *final(self) == (CoreWfStarter { wft_timeout_ms: Some(timeout_ms), ..*old(self) }),
    {
        self.wft_timeout_ms = Some(timeout_ms);
    }
}

} // verus!
