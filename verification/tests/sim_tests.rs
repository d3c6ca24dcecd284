use task_engine::sim::{
    cpu_bound_task, fill_random_bytes, io_bound_task, memory_bound_task, prime_pass, sum_bytes,
    wait_until_millis,
};

/// The exact checksum of one primality pass: the sum of all primes below
/// 10000.
#[test]
fn prime_pass_exact_value() {
    assert_eq!(prime_pass(), 5736396);
}

/// A zero-duration CPU task completes at once, with no pass run.
#[test]
fn cpu_task_zero_duration() {
    assert_eq!(cpu_bound_task(0), 0);
}

/// A short CPU task has time for at least one pass, so the checksum is the
/// pass sum exactly.
#[test]
fn cpu_task_runs_a_pass() {
    assert_eq!(cpu_bound_task(50), 5736396);
}

#[test]
fn memory_task_checksum_bounded() {
    let r = memory_bound_task(2048, 0);
    assert!(r <= 255 * 2048);
}

#[test]
fn memory_task_empty_buffer_sums_to_zero() {
    assert_eq!(memory_bound_task(0, 0), 0);
}

#[test]
fn io_task_zero_duration_completes() {
    // Nothing can be said of the value; the call must simply return.
    let _ = io_bound_task(0);
}

#[test]
fn fill_produces_requested_length() {
    let v = fill_random_bytes(2048);
    assert_eq!(v.len(), 2048);
}

#[test]
fn sum_bytes_exact() {
    let v: Vec<u8> = vec![1, 2, 3];
    assert_eq!(sum_bytes(&v), 6);
    let empty: Vec<u8> = Vec::new();
    assert_eq!(sum_bytes(&empty), 0);
    let maxed: Vec<u8> = vec![255, 255];
    assert_eq!(sum_bytes(&maxed), 510);
}

#[test]
fn wait_returns_a_reading_past_the_deadline() {
    let t = wait_until_millis(0);
    assert!(t >= 1_000_000_000_000); // long after the Unix epoch
}
