use task_engine::lifecycle::{
    effective_memory_usage, finish_task, make_pending_task, resolve_finish_persistence,
    resolve_start_persistence, start_task, ExecutionError, Stage, DEFAULT_MEMORY_USAGE,
};
use task_engine::models::{NewTask, Task, TaskParams, TaskStatus, TaskType, User};
use task_engine::stats::compute_stats_of;
use task_engine::store::{Store, StoreError};

fn finished_task(id: u64, ty: TaskType, submitted: u64, started: u64, finished: u64) -> Task {
    Task {
        id,
        ty,
        blocking: true,
        params: TaskParams { duration_millis: 0, memory_usage: None },
        status: TaskStatus::Finished,
        submitted_at: submitted,
        started_at: Some(started),
        finished_at: Some(finished),
        result: Some(0),
    }
}

fn pending_task(id: u64, ty: TaskType, submitted: u64) -> Task {
    Task {
        id,
        ty,
        blocking: false,
        params: TaskParams { duration_millis: 0, memory_usage: None },
        status: TaskStatus::Pending,
        submitted_at: submitted,
        started_at: None,
        finished_at: None,
        result: None,
    }
}

#[test]
fn derived_durations_exact() {
    let t = finished_task(0, TaskType::Cpu, 100, 250, 1000);
    assert_eq!(t.runtime(), Some(750));
    assert_eq!(t.e2e_time(), Some(900));
    assert_eq!(t.wait_time(), Some(150));
}

#[test]
fn derived_durations_undefined_while_pending() {
    let t = pending_task(0, TaskType::Io, 5);
    assert_eq!(t.runtime(), None);
    assert_eq!(t.e2e_time(), None);
    assert_eq!(t.wait_time(), None);
}

#[test]
fn lifecycle_transitions_set_fields_once() {
    let req = NewTask {
        ty: TaskType::Memory,
        blocking: false,
        params: TaskParams { duration_millis: 7, memory_usage: Some(64) },
    };
    let pending = make_pending_task(&req, 3, 1000);
    assert_eq!(pending.id, 3);
    assert_eq!(pending.status, TaskStatus::Pending);
    assert_eq!(pending.submitted_at, 1000);
    assert!(pending.started_at.is_none());
    assert!(pending.finished_at.is_none());
    assert!(pending.result.is_none());

    let running = start_task(pending, 1500);
    assert_eq!(running.status, TaskStatus::Running);
    assert_eq!(running.started_at, Some(1500));
    assert_eq!(running.submitted_at, 1000);
    assert!(running.finished_at.is_none());

    let done = finish_task(running, 2500, 99);
    assert_eq!(done.status, TaskStatus::Finished);
    assert_eq!(done.started_at, Some(1500));
    assert_eq!(done.finished_at, Some(2500));
    assert_eq!(done.result, Some(99));
    assert_eq!(done.runtime(), Some(1000));
}

#[test]
fn start_stage_persistence_failure_abandons_execution() {
    let t = pending_task(0, TaskType::Cpu, 1);
    let running = start_task(t, 2);
    assert!(matches!(resolve_start_persistence(running, true), Ok(_)));
    assert!(matches!(
        resolve_start_persistence(running, false),
        Err(ExecutionError::PersistenceFailure { stage: Stage::Start })
    ));
}

#[test]
fn finish_stage_persistence_failure_still_returns_the_task() {
    let t = finished_task(0, TaskType::Cpu, 1, 2, 3);
    let (kept, err) = resolve_finish_persistence(t, true);
    assert_eq!(kept.result, t.result);
    assert!(err.is_none());
    let (kept, err) = resolve_finish_persistence(t, false);
    assert_eq!(kept.finished_at, t.finished_at);
    assert!(matches!(err, Some(ExecutionError::PersistenceFailure { stage: Stage::Finish })));
}

#[test]
fn memory_default_applies_when_absent() {
    let with = TaskParams { duration_millis: 0, memory_usage: Some(2048) };
    let without = TaskParams { duration_millis: 0, memory_usage: None };
    assert_eq!(effective_memory_usage(&with), 2048);
    assert_eq!(effective_memory_usage(&without), DEFAULT_MEMORY_USAGE);
    assert_eq!(DEFAULT_MEMORY_USAGE, 1024 * 1024);
}

#[test]
fn store_rejects_duplicate_ids() {
    let mut store = Store::new();
    let t = pending_task(5, TaskType::Io, 0);
    assert!(matches!(store.insert(t), Ok(())));
    assert!(matches!(store.insert(t), Err(StoreError::DuplicateKey)));
    assert_eq!(store.len(), 1);
}

#[test]
fn store_update_unknown_id_is_not_found() {
    let mut store = Store::new();
    let t = pending_task(5, TaskType::Io, 0);
    assert!(matches!(store.update(5, t), Err(StoreError::NotFound)));
    assert!(store.find_by_id(5).is_none());
    assert!(matches!(store.insert(t), Ok(())));
    let started = start_task(t, 1);
    assert!(matches!(store.update(5, started), Ok(())));
    let fetched = store.find_by_id(5).expect("record was inserted");
    assert_eq!(fetched.status, TaskStatus::Running);
}

#[test]
fn stats_on_empty_store_are_all_zero() {
    let tasks: Vec<Task> = Vec::new();
    let stats = compute_stats_of(&tasks);
    assert_eq!(stats.total, 0);
    assert_eq!(stats.pending + stats.running + stats.finished, 0);
    assert_eq!(stats.avg_runtime_millis, 0);
    assert_eq!(stats.avg_e2e_time_millis, 0);
    assert_eq!(stats.avg_wait_time_millis, 0);
}

#[test]
fn stats_without_finished_tasks_avoid_division() {
    let tasks = vec![pending_task(0, TaskType::Cpu, 10), pending_task(1, TaskType::Io, 20)];
    let stats = compute_stats_of(&tasks);
    assert_eq!(stats.total, 2);
    assert_eq!(stats.pending, 2);
    assert_eq!(stats.avg_runtime_millis, 0);
    assert_eq!(stats.avg_e2e_time_millis, 0);
    assert_eq!(stats.avg_wait_time_millis, 0);
}

#[test]
fn stats_counts_partition_the_total() {
    let tasks = vec![
        pending_task(0, TaskType::Cpu, 0),
        pending_task(1, TaskType::Memory, 0),
        finished_task(2, TaskType::Io, 0, 10, 30),
        finished_task(3, TaskType::Io, 0, 10, 50),
    ];
    let stats = compute_stats_of(&tasks);
    assert_eq!(stats.total, 4);
    assert_eq!(stats.pending + stats.running + stats.finished, 4);
    assert_eq!(stats.types.cpu, 1);
    assert_eq!(stats.types.memory, 1);
    assert_eq!(stats.types.io, 2);
    assert_eq!(stats.types.cpu + stats.types.memory + stats.types.io, 4);
}

#[test]
fn stats_averages_exact() {
    // Runtimes 20 and 40; waits 10 and 10; end-to-end 30 and 50.
    let tasks = vec![
        finished_task(0, TaskType::Cpu, 0, 10, 30),
        finished_task(1, TaskType::Cpu, 0, 10, 50),
    ];
    let stats = compute_stats_of(&tasks);
    assert_eq!(stats.avg_runtime_millis, 30);
    assert_eq!(stats.avg_e2e_time_millis, 40);
    assert_eq!(stats.avg_wait_time_millis, 10);
}

#[test]
fn stats_average_truncates_toward_zero() {
    // Runtimes 100 and 201: the integer mean is 150.
    let tasks = vec![
        finished_task(0, TaskType::Io, 0, 0, 100),
        finished_task(1, TaskType::Io, 0, 0, 201),
    ];
    let stats = compute_stats_of(&tasks);
    assert_eq!(stats.avg_runtime_millis, 150);
}

/// Averages are taken only over the tasks whose sample is defined: one
/// finished task and one pending task average to the finished one's values.
#[test]
fn stats_average_only_defined_samples() {
    let tasks = vec![
        finished_task(0, TaskType::Cpu, 0, 10, 30),
        pending_task(1, TaskType::Cpu, 0),
    ];
    let stats = compute_stats_of(&tasks);
    assert_eq!(stats.avg_runtime_millis, 20);
    assert_eq!(stats.avg_e2e_time_millis, 30);
    assert_eq!(stats.avg_wait_time_millis, 10);
}

/// Visiting the same records in another order yields identical stats.
#[test]
fn stats_are_order_independent() {
    let forward = vec![
        pending_task(0, TaskType::Cpu, 5),
        finished_task(1, TaskType::Memory, 0, 10, 30),
        finished_task(2, TaskType::Io, 0, 10, 50),
    ];
    let backward: Vec<Task> = forward.iter().rev().copied().collect();
    let a = compute_stats_of(&forward);
    let b = compute_stats_of(&backward);
    assert_eq!(a, b);
}

/// A stored-then-fetched user carries the same fields.
#[test]
fn users_test() {
    let user = User {
        first_name: "Jane".into(),
        last_name: "Doe".into(),
        username: "janedoe".into(),
        email: "example@example.com".into(),
    };
    let response = user.clone();
    assert_eq!(response, user);
}
