//! The data model: tasks, their parameters, and their lifecycle states.
//!
//! Timestamps are milliseconds since the Unix epoch, held as plain `u64`
//! values so that every ordering fact about them is visible to the verifier.

use vstd::prelude::*;

verus! {

/// Which workload simulator a task runs.
#[derive(Clone, Copy, Debug, PartialEq, Eq, Structural)]
pub enum TaskType {
    Cpu,
    Memory,
    Io,
}

/// Where a task stands in its lifecycle. The status only ever advances
/// (Pending -> Running -> Finished) and never skips a stage.
#[derive(Clone, Copy, Debug, PartialEq, Eq, Structural)]
pub enum TaskStatus {
    Pending,
    Running,
    Finished,
}

/// Parameters of the simulated workload.
///
/// `memory_usage` is meaningful only for memory-bound tasks; when absent, a
/// default of 1 MiB applies.
#[derive(Clone, Copy, Debug)]
pub struct TaskParams {
    pub duration_millis: u64,
    pub memory_usage: Option<usize>,
}

/// A submission request: everything the caller chooses about a task.
#[derive(Clone, Copy, Debug)]
pub struct NewTask {
    pub ty: TaskType,
    pub blocking: bool,
    pub params: TaskParams,
}

/// One unit of simulated work, tracked through Pending/Running/Finished.
#[derive(Clone, Copy, Debug)]
pub struct Task {
    /// Unique identifier, assigned at submission, immutable thereafter.
    pub id: u64,
    pub ty: TaskType,
    pub blocking: bool,
    pub params: TaskParams,
    pub status: TaskStatus,
    /// Set at creation, immutable.
    pub submitted_at: u64,
    /// Absent while Pending; set exactly once, at the Pending -> Running
    /// transition.
    pub started_at: Option<u64>,
    /// Absent until Finished; set exactly once, at the Running -> Finished
    /// transition.
    pub finished_at: Option<u64>,
    /// The simulator's checksum; absent until Finished.
    pub result: Option<u64>,
}

impl Task {
    /// Well-formedness of a task record: the lifecycle invariants tying the
    /// status to the optional fields, and the ordering of the timestamps.
    pub open spec fn wf(self) -> bool {
        &&& (self.status is Pending <==> self.started_at is None)
        &&& (self.status is Finished <==> self.finished_at is Some)
        &&& (self.status is Finished <==> self.result is Some)
        &&& (self.finished_at is Some ==> self.started_at is Some)
        &&& (self.started_at is Some ==> self.submitted_at <= self.started_at.unwrap())
        &&& (self.started_at is Some && self.finished_at is Some
            ==> self.started_at.unwrap() <= self.finished_at.unwrap())
    }

    /// Duration between start and finish, defined only once both are set.
    pub open spec fn spec_runtime(self) -> Option<u64> {
        match (self.started_at, self.finished_at) {
            (Some(s), Some(f)) => Some(if f >= s { (f - s) as u64 } else { 0u64 }),
            _ => None,
        }
    }

    /// Duration between submission and finish, defined once the task finished.
    pub open spec fn spec_e2e_time(self) -> Option<u64> {
        match self.finished_at {
            Some(f) => Some(if f >= self.submitted_at { (f - self.submitted_at) as u64 } else { 0u64 }),
            None => None,
        }
    }

    /// Duration between submission and start, defined once the task started.
    pub open spec fn spec_wait_time(self) -> Option<u64> {
        match self.started_at {
            Some(s) => Some(if s >= self.submitted_at { (s - self.submitted_at) as u64 } else { 0u64 }),
            None => None,
        }
    }

    /// Runtime in milliseconds: `finished_at - started_at`, defined only if
    /// both are set. On a well-formed task the difference never underflows;
    /// on an arbitrary record it saturates at zero.
    pub fn runtime(&self) -> (r: Option<u64>)
        ensures
            r == self.spec_runtime(),
    {
        match (self.started_at, self.finished_at) {
            (Some(s), Some(f)) => Some(if f >= s { f - s } else { 0 }),
            _ => None,
        }
    }

    /// End-to-end time in milliseconds: `finished_at - submitted_at`.
    pub fn e2e_time(&self) -> (r: Option<u64>)
        ensures
            r == self.spec_e2e_time(),
    {
        match self.finished_at {
            Some(f) => Some(if f >= self.submitted_at { f - self.submitted_at } else { 0 }),
            None => None,
        }
    }

    /// Wait time in milliseconds: `started_at - submitted_at`.
    pub fn wait_time(&self) -> (r: Option<u64>)
        ensures
            r == self.spec_wait_time(),
    {
        match self.started_at {
            Some(s) => Some(if s >= self.submitted_at { s - self.submitted_at } else { 0 }),
            None => None,
        }
    }
}

/// A listing of every stored task, in submission order.
#[derive(Clone, Debug)]
pub struct TasksList {
    pub tasks: Vec<Task>,
}

/// A user record. Users are plain data here: their storage and retrieval is
/// routing glue around the engine, with no logic beyond a lookup.
#[derive(Clone, Debug)]
pub struct User {
    pub first_name: String,
    pub last_name: String,
    pub username: String,
    pub email: String,
}

impl PartialEq for User {
    fn eq(&self, other: &User) -> (r: bool) {
        self.first_name == other.first_name && self.last_name == other.last_name
            && self.username == other.username && self.email == other.email
    }
}

impl vstd::std_specs::cmp::PartialEqSpecImpl for User {
    open spec fn obeys_eq_spec() -> bool {
        true
    }

    open spec fn eq_spec(&self, other: &User) -> bool {
        self.first_name@ == other.first_name@ && self.last_name@ == other.last_name@
            && self.username@ == other.username@ && self.email@ == other.email@
    }
}

} // verus!
