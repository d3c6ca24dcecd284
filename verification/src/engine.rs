//! The execution engine: the dispatcher admitting submissions, the lifecycle
//! manager running one task to Finished, and the read-side entry points.
//!
//! Ids are minted sequentially, so the record with id `i` sits at position
//! `i` of the store — the strongest form of the store's unique-id constraint.
//! A blocking submission occupies the caller until its task is Finished; a
//! non-blocking one returns the Pending snapshot at once, and the host's
//! detached unit of work drives the rest, either through `execute` or, where
//! the host wants to suspend instead of spin, through `start` and `finish`
//! around its own sleeping and checksum computation.

use vstd::prelude::*;

use crate::host::now_unix_millis;
use crate::lifecycle::{
    effective_memory_usage, finish_task, make_pending_task, spec_effective_memory_usage,
    start_task,
};
use crate::models::{NewTask, Task, TaskStatus, TaskType, TasksList};
use crate::sim::{
    fill_random_bytes, lemma_byte_sum_bounds, prime_pass_sum, spin_primes_until, sum_bytes,
    wait_until_millis,
};
use crate::stats::{
    compute_stats_of, count_samples, count_status, count_type, e2e_sample, mean_samples,
    runtime_sample, wait_sample, TasksStats,
};
use crate::store::{contains_id, ids_unique, Store};

verus! {

/// A failure of an engine operation.
#[derive(Clone, Copy, Debug, PartialEq, Eq, Structural)]
pub enum EngineError {
    /// No stored task carries the id the call named.
    NotFound,
}

/// The engine around one task store.
pub struct Engine {
    store: Store,
}

impl View for Engine {
    type V = Seq<Task>;

    closed spec fn view(&self) -> Seq<Task> {
        self.store@
    }
}

impl Engine {
    /// Every record is well-formed and sits at the position its id names.
    pub open spec fn wf(self) -> bool {
        forall|i: int|
            0 <= i < self@.len() ==> (#[trigger] self@[i]).wf() && self@[i].id == i
    }

    pub fn new() -> (e: Engine)
        ensures
            e@ == Seq::<Task>::empty(),
            e.wf(),
    {
        Engine { store: Store::new() }
    }

    /// How many tasks the store holds.
    pub fn task_count(&self) -> (n: usize)
        ensures
            n == self@.len(),
    {
        self.store.len()
    }

    /// The first step of a submission alone: mints the next id, persists the
    /// Pending record, and returns the snapshot, leaving the dispatch on
    /// `blocking` to the caller. `submit` builds on it; a host with its own
    /// scheduler takes the snapshot from here and drives `execute` — or
    /// `start` and `finish` around its own suspension — in whatever context
    /// the flag calls for.
    pub fn submit_pending(&mut self, req: &NewTask) -> (t: Task)
        requires
            old(self).wf(),
        ensures
            final(self).wf(),
            final(self)@ == old(self)@.push(t),
            t.id == old(self)@.len(),
            forall|i: int| 0 <= i < old(self)@.len() ==> (#[trigger] old(self)@[i]).id != t.id,
            t.wf(),
            t.ty == req.ty,
            t.blocking == req.blocking,
            t.params == req.params,
            t.status is Pending && t.started_at is None && t.finished_at is None
                && t.result is None,
    {
        let now = now_unix_millis();
        let idx = self.store.len();
        let id = idx as u64;
        let task = make_pending_task(req, id, now);
        proof {
            assert(!contains_id(self@, id));
        }
        let inserted = self.store.insert(task);
        proof {
            assert(inserted is Ok);
            assert(self@ == old(self)@.push(task));
            assert(self.wf());
        }
        task
    }

    /// Admits a submission: mints the next id, persists the Pending record,
    /// and dispatches on `blocking`. A blocking submission returns only once
    /// the task is Finished; a non-blocking one returns the Pending snapshot
    /// at once, leaving execution to the host's detached unit of work.
    pub fn submit(&mut self, req: &NewTask) -> (t: Task)
        requires
            old(self).wf(),
        ensures
            final(self).wf(),
            final(self)@.len() == old(self)@.len() + 1,
            forall|i: int| 0 <= i < old(self)@.len() ==> final(self)@[i] == old(self)@[i],
            t == final(self)@[old(self)@.len() as int],
            t.id == old(self)@.len(),
            forall|i: int| 0 <= i < old(self)@.len() ==> (#[trigger] old(self)@[i]).id != t.id,
            t.wf(),
            t.ty == req.ty,
            t.blocking == req.blocking,
            t.params == req.params,
            req.blocking ==> t.status is Finished && t.result is Some,
            req.blocking && t.started_at.unwrap() + t.params.duration_millis <= u64::MAX
                ==> t.spec_runtime().unwrap() >= t.params.duration_millis,
            req.blocking && t.ty is Cpu ==> (t.result.unwrap() == 0 || t.result.unwrap()
                == prime_pass_sum()) && (t.params.duration_millis == 0 ==> t.result == Some(0u64)),
            req.blocking && t.ty is Memory ==> t.result.unwrap() <= 255
                * spec_effective_memory_usage(t.params),
            !req.blocking ==> t.status is Pending && t.started_at is None && t.finished_at is None
                && t.result is None,
    {
        let idx = self.store.len();
        let task = self.submit_pending(req);
        if req.blocking {
            proof {
                assert(self@[idx as int] == task);
            }
            self.execute_at(idx)
        } else {
            task
        }
    }

    /// Runs the Pending task at position `i` through its whole lifecycle:
    /// stamps the start, persists Running, runs the matching simulator,
    /// stamps the finish, persists Finished, and returns the final record.
    fn execute_at(&mut self, i: usize) -> (t: Task)
        requires
            old(self).wf(),
            i < old(self)@.len(),
            old(self)@[i as int].status is Pending,
        ensures
            final(self).wf(),
            final(self)@ == old(self)@.update(i as int, t),
            t.id == old(self)@[i as int].id,
            t.ty == old(self)@[i as int].ty,
            t.blocking == old(self)@[i as int].blocking,
            t.params == old(self)@[i as int].params,
            t.submitted_at == old(self)@[i as int].submitted_at,
            t.wf(),
            t.status is Finished,
            t.started_at is Some && t.finished_at is Some && t.result is Some,
            t.started_at.unwrap() + t.params.duration_millis <= u64::MAX
                ==> t.spec_runtime().unwrap() >= t.params.duration_millis,
            t.ty is Cpu ==> (t.result.unwrap() == 0 || t.result.unwrap() == prime_pass_sum()) && (
            t.params.duration_millis == 0 ==> t.result == Some(0u64)),
            t.ty is Memory ==> t.result.unwrap() <= 255 * spec_effective_memory_usage(t.params),
    {
        let task0 = self.store.get(i);
        // The start stamp never runs behind the submission stamp, even where
        // the wall clock stepped backwards in between.
        let now0 = now_unix_millis();
        let started = if now0 >= task0.submitted_at {
            now0
        } else {
            task0.submitted_at
        };
        let running = start_task(task0, started);
        let persisted_start = self.store.update(running.id, running);
        proof {
            assert(contains_id(old(self)@, running.id));
            assert(persisted_start is Ok);
            assert(self@ =~= old(self)@.update(i as int, running));
        }
        // The workload must occupy at least the requested duration past the
        // recorded start.
        let deadline = started.saturating_add(running.params.duration_millis);
        let (checksum, ended) = match running.ty {
            TaskType::Cpu => {
                if running.params.duration_millis == 0 {
                    let t = wait_until_millis(deadline);
                    (0u64, t)
                } else {
                    spin_primes_until(deadline)
                }
            },
            TaskType::Memory => {
                let mem = effective_memory_usage(&running.params);
                let buffer = fill_random_bytes(mem);
                let t = wait_until_millis(deadline);
                let cs = sum_bytes(&buffer);
                proof {
                    lemma_byte_sum_bounds(buffer@);
                }
                (cs, t)
            },
            TaskType::Io => {
                let t = wait_until_millis(deadline);
                let v = rand::random::<u64>();
                (v, t)
            },
        };
        let done = finish_task(running, ended, checksum);
        let persisted_finish = self.store.update(done.id, done);
        proof {
            assert(old(self)@.update(i as int, running)[i as int] == running);
            assert(contains_id(old(self)@.update(i as int, running), done.id));
            assert(persisted_finish is Ok);
            assert(self@ =~= old(self)@.update(i as int, done));
            assert(self.wf());
        }
        done
    }

    /// Runs the Pending task carrying `id` to Finished; `NotFound` exactly
    /// when no stored task carries `id`.
    pub fn execute(&mut self, id: u64) -> (r: Result<Task, EngineError>)
        requires
            old(self).wf(),
            contains_id(old(self)@, id) ==> old(self)@[id as int].status is Pending,
        ensures
            final(self).wf(),
            r is Err <==> !contains_id(old(self)@, id),
            r is Err ==> r == Err::<Task, EngineError>(EngineError::NotFound) && final(self)@
                == old(self)@,
            r matches Ok(t) ==> final(self)@ == old(self)@.update(id as int, t) && t.id == id
                && t.wf() && t.status is Finished && t.result is Some
                && t.ty == old(self)@[id as int].ty
                && t.blocking == old(self)@[id as int].blocking
                && t.params == old(self)@[id as int].params
                && t.submitted_at == old(self)@[id as int].submitted_at
                && (t.started_at.unwrap() + t.params.duration_millis <= u64::MAX
                    ==> t.spec_runtime().unwrap() >= t.params.duration_millis)
                && (t.ty is Cpu ==> (t.result.unwrap() == 0 || t.result.unwrap()
                    == prime_pass_sum()) && (t.params.duration_millis == 0 ==> t.result == Some(
                    0u64,
                )))
                && (t.ty is Memory ==> t.result.unwrap() <= 255 * spec_effective_memory_usage(
                    t.params,
                )),
    {
        let n = self.store.len();
        if id < n as u64 {
            proof {
                assert(contains_id(self@, id));
            }
            let t = self.execute_at(id as usize);
            Ok(t)
        } else {
            proof {
                assert(!contains_id(self@, id));
            }
            Err(EngineError::NotFound)
        }
    }

    /// The Pending -> Running step alone, stamped and persisted: for a host
    /// that suspends through its own scheduler between `start` and `finish`
    /// instead of letting the engine spin. `NotFound` exactly when no stored
    /// task carries `id`.
    pub fn start(&mut self, id: u64) -> (r: Result<Task, EngineError>)
        requires
            old(self).wf(),
            contains_id(old(self)@, id) ==> old(self)@[id as int].status is Pending,
        ensures
            final(self).wf(),
            r is Err <==> !contains_id(old(self)@, id),
            r is Err ==> r == Err::<Task, EngineError>(EngineError::NotFound) && final(self)@
                == old(self)@,
            r matches Ok(t) ==> final(self)@ == old(self)@.update(id as int, t) && t.id == id
                && t.wf() && t.status is Running && t.started_at is Some
                && t == (Task {
                    status: TaskStatus::Running,
                    started_at: t.started_at,
                    ..old(self)@[id as int]
                }),
    {
        let n = self.store.len();
        if id < n as u64 {
            let task0 = self.store.get(id as usize);
            let now0 = now_unix_millis();
            let started = if now0 >= task0.submitted_at {
                now0
            } else {
                task0.submitted_at
            };
            let running = start_task(task0, started);
            let persisted = self.store.update(running.id, running);
            proof {
                assert(contains_id(old(self)@, running.id));
                assert(persisted is Ok);
                assert(self@ =~= old(self)@.update(id as int, running));
                assert(self.wf());
            }
            Ok(running)
        } else {
            proof {
                assert(!contains_id(self@, id));
            }
            Err(EngineError::NotFound)
        }
    }

    /// The Running -> Finished step alone, recording the host's checksum,
    /// stamped and persisted. `NotFound` exactly when no stored task carries
    /// `id`.
    pub fn finish(&mut self, id: u64, result: u64) -> (r: Result<Task, EngineError>)
        requires
            old(self).wf(),
            contains_id(old(self)@, id) ==> old(self)@[id as int].status is Running,
        ensures
            final(self).wf(),
            r is Err <==> !contains_id(old(self)@, id),
            r is Err ==> r == Err::<Task, EngineError>(EngineError::NotFound) && final(self)@
                == old(self)@,
            r matches Ok(t) ==> final(self)@ == old(self)@.update(id as int, t) && t.id == id
                && t.wf() && t.status is Finished && t.result == Some(result)
                && t.finished_at is Some
                && t == (Task {
                    status: TaskStatus::Finished,
                    finished_at: t.finished_at,
                    result: Some(result),
                    ..old(self)@[id as int]
                }),
    {
        let n = self.store.len();
        if id < n as u64 {
            let task0 = self.store.get(id as usize);
            let now0 = now_unix_millis();
            let started = task0.started_at.unwrap();
            let finished = if now0 >= started {
                now0
            } else {
                started
            };
            let done = finish_task(task0, finished, result);
            let persisted = self.store.update(done.id, done);
            proof {
                assert(contains_id(old(self)@, done.id));
                assert(persisted is Ok);
                assert(self@ =~= old(self)@.update(id as int, done));
                assert(self.wf());
            }
            Ok(done)
        } else {
            proof {
                assert(!contains_id(self@, id));
            }
            Err(EngineError::NotFound)
        }
    }

    /// Looks up a task by id; `None` exactly when no stored task carries it.
    pub fn find_by_id(&self, id: u64) -> (r: Option<Task>)
        requires
            self.wf(),
        ensures
            r is Some <==> id < self@.len(),
            r matches Some(t) ==> t == self@[id as int],
    {
        match self.store.find_by_id(id) {
            Some(t) => {
                proof {
                    assert(t == self@[id as int]);
                }
                Some(t)
            },
            None => None,
        }
    }

    /// Every stored task, in submission order.
    pub fn list(&self) -> (l: TasksList)
        ensures
            l.tasks@ == self@,
    {
        TasksList { tasks: self.store.find_all() }
    }

    /// The stats aggregator entry point: a read-only pass over the whole
    /// store.
    pub fn compute_stats(&self) -> (stats: TasksStats)
        ensures
            stats.total == self@.len(),
            stats.pending == count_status(self@, TaskStatus::Pending),
            stats.running == count_status(self@, TaskStatus::Running),
            stats.finished == count_status(self@, TaskStatus::Finished),
            stats.pending + stats.running + stats.finished == stats.total,
            stats.types.cpu == count_type(self@, TaskType::Cpu),
            stats.types.memory == count_type(self@, TaskType::Memory),
            stats.types.io == count_type(self@, TaskType::Io),
            stats.types.cpu + stats.types.memory + stats.types.io == stats.total,
            stats.avg_runtime_millis == mean_samples(self@, runtime_sample()),
            stats.avg_e2e_time_millis == mean_samples(self@, e2e_sample()),
            stats.avg_wait_time_millis == mean_samples(self@, wait_sample()),
            count_samples(self@, runtime_sample()) == 0 ==> stats.avg_runtime_millis == 0,
    {
        compute_stats_of(self.store.tasks())
    }

    /// For every persisted task, Finished holds exactly when the start and
    /// finish timestamps and the result are all present, and Pending holds
    /// exactly when the start timestamp is absent.
    pub proof fn lemma_persisted_lifecycle_shape(self, i: int)
        requires
            self.wf(),
            0 <= i < self@.len(),
        ensures
            self@[i].status is Finished <==> (self@[i].started_at is Some
                && self@[i].finished_at is Some && self@[i].result is Some),
            self@[i].status is Pending <==> self@[i].started_at is None,
    {
    }

    /// Every finished task's timestamps are ordered:
    /// `submitted_at <= started_at <= finished_at`.
    pub proof fn lemma_finished_timestamps_ordered(self, i: int)
        requires
            self.wf(),
            0 <= i < self@.len(),
            self@[i].status is Finished,
        ensures
            self@[i].submitted_at <= self@[i].started_at.unwrap(),
            self@[i].started_at.unwrap() <= self@[i].finished_at.unwrap(),
    {
    }

    /// No two persisted tasks ever share an id: each submission's id is the
    /// store's size at admission, and the store only grows.
    pub proof fn lemma_stored_ids_unique(self)
        requires
            self.wf(),
        ensures
            ids_unique(self@),
    {
    }
}

} // verus!
