//! The task lifecycle: construction at submission and the two state
//! transitions, each a pure function from the old record and a timestamp to
//! the new record. Persistence of the transitions is the store's business;
//! the policy for a persistence failure at either stage lives here too.

use vstd::prelude::*;

use crate::models::{NewTask, Task, TaskParams, TaskStatus};

verus! {

/// Default buffer size for memory-bound tasks whose request named none: 1 MiB.
pub const DEFAULT_MEMORY_USAGE: usize = 1024 * 1024;

/// Largest buffer a memory-bound task is given, in bytes. Far beyond what any
/// host can allocate; it exists so that the byte-sum of the buffer provably
/// fits in a `u64` (`255 * MAX_MEMORY_BYTES < 2^64`).
pub const MAX_MEMORY_BYTES: u64 = 0xFF_FFFF_FFFF_FFFF;

/// Which stage of a task's execution a persistence failure struck.
#[derive(Clone, Copy, Debug, PartialEq, Eq, Structural)]
pub enum Stage {
    Start,
    Finish,
}

/// A mid-execution durability failure. A failure at the start stage is fatal
/// to that task's execution; one at the finish stage leaves the computed
/// result undurable but is reported rather than dropped.
#[derive(Clone, Copy, Debug, PartialEq, Eq, Structural)]
pub enum ExecutionError {
    PersistenceFailure { stage: Stage },
}

/// The buffer size a memory-bound task actually uses: the requested size, or
/// the 1 MiB default when the request named none, capped at the machine bound.
pub open spec fn spec_effective_memory_usage(params: TaskParams) -> int {
    match params.memory_usage {
        Some(m) => if m <= MAX_MEMORY_BYTES {
            m as int
        } else {
            MAX_MEMORY_BYTES as int
        },
        None => DEFAULT_MEMORY_USAGE as int,
    }
}

pub fn effective_memory_usage(params: &TaskParams) -> (m: usize)
    ensures
        m == spec_effective_memory_usage(*params),
        m <= MAX_MEMORY_BYTES,
{
    match params.memory_usage {
        Some(m) => if (m as u64) <= MAX_MEMORY_BYTES {
            m
        } else {
            // Reachable only where `usize` is 64 bits wide, so the cap fits.
            assert(usize::MAX > MAX_MEMORY_BYTES);
            MAX_MEMORY_BYTES as usize
        },
        None => DEFAULT_MEMORY_USAGE,
    }
}

/// The record a submission creates: Pending, stamped with the submission
/// time, with no started/finished timestamps and no result.
pub fn make_pending_task(req: &NewTask, id: u64, now: u64) -> (t: Task)
    ensures
        t == (Task {
            id,
            ty: req.ty,
            blocking: req.blocking,
            params: req.params,
            status: TaskStatus::Pending,
            submitted_at: now,
            started_at: None,
            finished_at: None,
            result: None,
        }),
        t.wf(),
{
    Task {
        id,
        ty: req.ty,
        blocking: req.blocking,
        params: req.params,
        status: TaskStatus::Pending,
        submitted_at: now,
        started_at: None,
        finished_at: None,
        result: None,
    }
}

/// The Pending -> Running transition: records the start time and advances the
/// status. Everything else is kept.
pub fn start_task(task: Task, now: u64) -> (t: Task)
    requires
        task.wf(),
        task.status is Pending,
        task.submitted_at <= now,
    ensures
        t == (Task { status: TaskStatus::Running, started_at: Some(now), ..task }),
        t.wf(),
{
    Task { status: TaskStatus::Running, started_at: Some(now), ..task }
}

/// The Running -> Finished transition: records the finish time and the
/// simulator's checksum, and advances the status. Everything else is kept.
pub fn finish_task(task: Task, now: u64, result: u64) -> (t: Task)
    requires
        task.wf(),
        task.status is Running,
        task.started_at.unwrap() <= now,
    ensures
        t == (Task {
            status: TaskStatus::Finished,
            finished_at: Some(now),
            result: Some(result),
            ..task
        }),
        t.wf(),
{
    Task { status: TaskStatus::Finished, finished_at: Some(now), result: Some(result), ..task }
}

/// What a host does when persisting the start transition: without a durable
/// Running record the engine cannot proceed, so a failure there abandons the
/// task's execution.
pub fn resolve_start_persistence(task: Task, persisted: bool) -> (r: Result<Task, ExecutionError>)
    ensures
        persisted ==> r == Ok::<Task, ExecutionError>(task),
        !persisted ==> r == Err::<Task, ExecutionError>(
            ExecutionError::PersistenceFailure { stage: Stage::Start },
        ),
{
    if persisted {
        Ok(task)
    } else {
        Err(ExecutionError::PersistenceFailure { stage: Stage::Start })
    }
}

/// What a host does when persisting the finish transition: the computation
/// already succeeded, so the finished task is handed back either way, and a
/// failure is reported beside it rather than swallowing the result.
pub fn resolve_finish_persistence(task: Task, persisted: bool) -> (r: (
    Task,
    Option<ExecutionError>,
))
    ensures
        r.0 == task,
        persisted ==> r.1 is None,
        !persisted ==> r.1 == Some(ExecutionError::PersistenceFailure { stage: Stage::Finish }),
{
    if persisted {
        (task, None)
    } else {
        (task, Some(ExecutionError::PersistenceFailure { stage: Stage::Finish }))
    }
}

} // verus!
