use task_engine::engine::{Engine, EngineError};
use task_engine::models::{NewTask, TaskParams, TaskStatus, TaskType};

fn req(ty: TaskType, blocking: bool, duration_millis: u64, memory_usage: Option<usize>) -> NewTask {
    NewTask { ty, blocking, params: TaskParams { duration_millis, memory_usage } }
}

/// A blocking CPU submission runs to Finished before returning; the stored
/// record, the listing and the aggregate all reflect it.
#[test]
fn tasks_test() {
    let mut engine = Engine::new();

    let task = engine.submit(&req(TaskType::Cpu, true, 1000, None));
    assert_eq!(task.status, TaskStatus::Finished);
    assert!(task.result.is_some());

    let response = engine.find_by_id(task.id).expect("task must be stored");
    assert_eq!(response.id, task.id);
    assert_eq!(response.status, TaskStatus::Finished);

    let listing = engine.list();
    assert_eq!(listing.tasks.len(), 1);

    let stats = engine.compute_stats();
    assert_eq!(stats.total, 1);
    assert_eq!(stats.pending, 0);
    assert_eq!(stats.running, 0);
    assert_eq!(stats.finished, 1);
    // The engine guarantees runtime >= the requested duration. The strict
    // inequality would also rest on dispatch overhead, which with millisecond
    // stamps can round to zero, so the bound itself is what is asserted.
    assert!(stats.avg_runtime_millis >= 1000);
}

#[test]
fn blocking_submission_returns_finished() {
    let mut engine = Engine::new();
    let task = engine.submit(&req(TaskType::Io, true, 0, None));
    assert_eq!(task.status, TaskStatus::Finished);
    assert!(task.started_at.is_some());
    assert!(task.finished_at.is_some());
    assert!(task.result.is_some());
}

#[test]
fn nonblocking_submission_returns_pending() {
    let mut engine = Engine::new();
    let task = engine.submit(&req(TaskType::Cpu, false, 0, None));
    assert_eq!(task.status, TaskStatus::Pending);
    assert!(task.started_at.is_none());
    assert!(task.finished_at.is_none());
    assert!(task.result.is_none());
}

/// An Io task asked to block for a second reports a runtime of at least that
/// second on fetch.
#[test]
fn blocking_io_runtime_lower_bound() {
    let mut engine = Engine::new();
    let task = engine.submit(&req(TaskType::Io, true, 1000, None));
    let fetched = engine.find_by_id(task.id).expect("task must be stored");
    let runtime = fetched.runtime().expect("finished task has a runtime");
    assert!(runtime >= 1000);
}

/// A detached memory-bound task is Pending on submission and Finished with a
/// result once its execution has run.
#[test]
fn nonblocking_memory_task_finishes_on_execute() {
    let mut engine = Engine::new();
    let task = engine.submit(&req(TaskType::Memory, false, 500, Some(2048)));
    assert_eq!(task.status, TaskStatus::Pending);

    engine.execute(task.id).expect("the stored task must execute");

    let fetched = engine.find_by_id(task.id).expect("task must be stored");
    assert_eq!(fetched.status, TaskStatus::Finished);
    assert!(fetched.result.is_some());
    assert!(fetched.runtime().expect("finished task has a runtime") >= 500);
    // The checksum sums 2048 pseudo-random bytes.
    assert!(fetched.result.unwrap() <= 255 * 2048);
}

/// `submit_pending` persists the Pending snapshot and leaves the dispatch to
/// the caller, whatever the request's blocking flag says.
#[test]
fn submit_pending_leaves_dispatch_to_the_caller() {
    let mut engine = Engine::new();
    let task = engine.submit_pending(&req(TaskType::Cpu, true, 0, None));
    assert!(task.blocking);
    assert_eq!(task.status, TaskStatus::Pending);
    assert!(task.result.is_none());

    let done = engine.execute(task.id).expect("the stored task must execute");
    assert_eq!(done.status, TaskStatus::Finished);
    // A zero-duration CPU task runs no primality pass.
    assert_eq!(done.result, Some(0));
    assert!(done.blocking);
}

/// The cooperative path: start and finish as separate persisted steps around
/// a checksum the host computed itself.
#[test]
fn start_then_finish_drives_lifecycle() {
    let mut engine = Engine::new();
    let task = engine.submit(&req(TaskType::Io, false, 0, None));

    let running = engine.start(task.id).expect("start must find the task");
    assert_eq!(running.status, TaskStatus::Running);
    assert!(running.started_at.is_some());
    assert!(running.finished_at.is_none());

    let done = engine.finish(task.id, 42).expect("finish must find the task");
    assert_eq!(done.status, TaskStatus::Finished);
    assert_eq!(done.result, Some(42));

    let fetched = engine.find_by_id(task.id).expect("task must be stored");
    assert_eq!(fetched.status, TaskStatus::Finished);
    assert_eq!(fetched.result, Some(42));
}

#[test]
fn submissions_never_share_an_id() {
    let mut engine = Engine::new();
    let mut ids = Vec::new();
    for i in 0..8 {
        let ty = match i % 3 {
            0 => TaskType::Cpu,
            1 => TaskType::Memory,
            _ => TaskType::Io,
        };
        ids.push(engine.submit(&req(ty, false, 0, None)).id);
    }
    for a in 0..ids.len() {
        for b in (a + 1)..ids.len() {
            assert_ne!(ids[a], ids[b]);
        }
    }
}

#[test]
fn execute_unknown_id_is_not_found() {
    let mut engine = Engine::new();
    assert!(matches!(engine.execute(7), Err(EngineError::NotFound)));
    assert!(matches!(engine.start(0), Err(EngineError::NotFound)));
    assert!(matches!(engine.finish(0, 1), Err(EngineError::NotFound)));
}

#[test]
fn find_unknown_id_is_none() {
    let mut engine = Engine::new();
    assert!(engine.find_by_id(0).is_none());
    engine.submit(&req(TaskType::Io, false, 0, None));
    assert!(engine.find_by_id(0).is_some());
    assert!(engine.find_by_id(1).is_none());
}

#[test]
fn listing_reflects_submission_order() {
    let mut engine = Engine::new();
    let a = engine.submit(&req(TaskType::Cpu, false, 0, None));
    let b = engine.submit(&req(TaskType::Memory, false, 0, Some(16)));
    let listing = engine.list();
    assert_eq!(listing.tasks.len(), 2);
    assert_eq!(listing.tasks[0].id, a.id);
    assert_eq!(listing.tasks[1].id, b.id);
    assert_eq!(engine.task_count(), 2);
}
