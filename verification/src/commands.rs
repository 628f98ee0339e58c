//! Workflow command values, as consumers hand them back to the core.
//!
//! A consumer completes a workflow activation by sending a list of
//! commands: schedule an activity, start a timer, or complete the
//! execution. These are the values the completion call marshals to the
//! service; building them is plain computation and is verified here —
//! sending them is the host's step.

use vstd::prelude::*;
use vstd::string::StringExecFns;

verus! {

/// The namespace the test workers and workflows live in.
pub fn namespace() -> (r: String)
    ensures
        r@ == "default"@,
{
    String::from_str("default")
}

/// How a scheduled activity behaves when its workflow asks to cancel it.
#[derive(Clone, Copy, Debug, PartialEq, Eq, Structural)]
pub enum ActivityCancellationType {
    /// Ask the service to cancel, but do not wait for the cancellation.
    TryCancel,
    /// Wait until the activity has confirmed the cancellation.
    WaitCancellationCompleted,
    /// Drop the activity without telling the service.
    Abandon,
}

/// A command scheduling one activity on a task queue, with every timeout
/// in milliseconds.
#[derive(Clone, Debug, PartialEq, Eq)]
pub struct ScheduleActivityCommand {
    pub seq: u32,
    pub activity_id: String,
    pub activity_type: String,
    pub namespace: String,
    pub task_queue: String,
    pub schedule_to_start_timeout_ms: u64,
    pub start_to_close_timeout_ms: u64,
    pub schedule_to_close_timeout_ms: u64,
    pub heartbeat_timeout_ms: u64,
    pub cancellation_type: ActivityCancellationType,
}

/// A command starting one timer.
#[derive(Clone, Debug, PartialEq, Eq)]
pub struct StartTimerCommand {
    pub seq: u32,
    pub start_to_fire_timeout_ms: u64,
}

/// A workflow command, as one entry of a completion's command list.
#[derive(Clone, Debug, PartialEq, Eq)]
pub enum WorkflowCommand {
    ScheduleActivity(ScheduleActivityCommand),
    StartTimer(StartTimerCommand),
    /// Complete the workflow execution, with no result payload.
    CompleteWorkflowExecution,
}

/// Builds the command that schedules the test activity `activity_id` on
/// `task_q`: the activity type is `test_activity`, the namespace is the
/// test namespace, and the one activity timeout fills every
/// schedule/start/close timeout, with the heartbeat timeout separate.
pub fn schedule_activity_cmd(
    seq: u32,
    task_q: &str,
    activity_id: &str,
    cancellation_type: ActivityCancellationType,
    activity_timeout_ms: u64,
    heartbeat_timeout_ms: u64,
) -> (r: WorkflowCommand)
    ensures
        r matches WorkflowCommand::ScheduleActivity(c) && {
            &&& c.seq == seq
            &&& c.activity_id@ == activity_id@
            &&& c.activity_type@ == "test_activity"@
            &&& c.namespace@ == "default"@
            &&& c.task_queue@ == task_q@
            &&& c.schedule_to_start_timeout_ms == activity_timeout_ms
            &&& c.start_to_close_timeout_ms == activity_timeout_ms
            &&& c.schedule_to_close_timeout_ms == activity_timeout_ms
            &&& c.heartbeat_timeout_ms == heartbeat_timeout_ms
            &&& c.cancellation_type == cancellation_type
        },
{
    WorkflowCommand::ScheduleActivity(
        ScheduleActivityCommand {
            seq,
            activity_id: String::from_str(activity_id),
            activity_type: String::from_str("test_activity"),
            namespace: namespace(),
            task_queue: String::from_str(task_q),
            schedule_to_start_timeout_ms: activity_timeout_ms,
            start_to_close_timeout_ms: activity_timeout_ms,
            schedule_to_close_timeout_ms: activity_timeout_ms,
            heartbeat_timeout_ms: heartbeat_timeout_ms,
            cancellation_type,
        },
    )
}

/// A workflow activation completion: which run it answers, on which task
/// queue, and the commands it carries.
#[derive(Clone, Debug, PartialEq, Eq)]
pub struct WfActivationCompletion {
    pub task_queue: String,
    pub run_id: String,
    pub commands: Vec<WorkflowCommand>,
}

impl WfActivationCompletion {
    /// Wraps a command list into a completion for `run_id` on
    /// `task_queue`.
    pub fn from_cmds(task_queue: String, run_id: String, commands: Vec<WorkflowCommand>) -> (r:
        WfActivationCompletion)
        ensures
            r.task_queue == task_queue,
            r.run_id == run_id,
            r.commands == commands,
    {
        WfActivationCompletion { task_queue, run_id, commands }
    }
}

/// Builds the completion that finishes a workflow execution with no
/// result: a single complete-execution command.
pub fn complete_execution_completion(task_q: &str, run_id: &str) -> (r: WfActivationCompletion)
    ensures
        r.task_queue@ == task_q@,
        r.run_id@ == run_id@,
        r.commands@.len() == 1,
        r.commands@[0] == WorkflowCommand::CompleteWorkflowExecution,
{
    let mut commands: Vec<WorkflowCommand> = Vec::new();
    commands.push(WorkflowCommand::CompleteWorkflowExecution);
    WfActivationCompletion::from_cmds(
        String::from_str(task_q),
        String::from_str(run_id),
        commands,
    )
}

/// Builds the completion that answers an activation with one started
/// timer of the given duration.
pub fn complete_timer_completion(task_q: &str, run_id: &str, seq: u32, duration_ms: u64) -> (r:
    WfActivationCompletion)
    ensures
        r.task_queue@ == task_q@,
        r.run_id@ == run_id@,
        r.commands@.len() == 1,
        r.commands@[0] == WorkflowCommand::StartTimer(
            StartTimerCommand { seq, start_to_fire_timeout_ms: duration_ms },
        ),
{
    let mut commands: Vec<WorkflowCommand> = Vec::new();
    commands.push(
        WorkflowCommand::StartTimer(StartTimerCommand { seq, start_to_fire_timeout_ms: duration_ms }),
    );
    WfActivationCompletion::from_cmds(
        String::from_str(task_q),
        String::from_str(run_id),
        commands,
    )
}

} // verus!
