//! The stats aggregator: one streaming pass over a fixed set of task records,
//! producing status and type counts and the three average durations. The
//! averages are integer means in milliseconds; an average with no defined
//! samples is reported as zero, never as an error.

use vstd::prelude::*;

use vstd::arithmetic::div_mod::{lemma_div_is_ordered, lemma_div_multiples_vanish};

use crate::models::{Task, TaskStatus, TaskType};

verus! {

/// Count of stored tasks per workload type.
#[derive(Clone, Copy, Debug, PartialEq, Eq, Structural)]
pub struct TypeCounts {
    pub cpu: usize,
    pub memory: usize,
    pub io: usize,
}

/// The ephemeral aggregate over the whole store: recomputed on request,
/// never persisted.
#[derive(Clone, Copy, Debug, PartialEq, Eq, Structural)]
pub struct TasksStats {
    pub total: usize,
    pub pending: usize,
    pub running: usize,
    pub finished: usize,
    pub types: TypeCounts,
    /// Mean runtime over the tasks whose runtime is defined; zero if none is.
    pub avg_runtime_millis: u64,
    /// Mean end-to-end time over the tasks that finished; zero if none did.
    pub avg_e2e_time_millis: u64,
    /// Mean wait time over the tasks that started; zero if none did.
    pub avg_wait_time_millis: u64,
}

/// How many records in `s` carry `status`.
pub open spec fn count_status(s: Seq<Task>, status: TaskStatus) -> nat
    decreases s.len(),
{
    if s.len() == 0 {
        0
    } else {
        count_status(s.drop_last(), status) + if s.last().status == status {
            1nat
        } else {
            0nat
        }
    }
}

/// How many records in `s` carry `ty`.
pub open spec fn count_type(s: Seq<Task>, ty: TaskType) -> nat
    decreases s.len(),
{
    if s.len() == 0 {
        0
    } else {
        count_type(s.drop_last(), ty) + if s.last().ty == ty {
            1nat
        } else {
            0nat
        }
    }
}

/// Sum of the samples `f` draws from the records of `s`, taking an undefined
/// sample as zero.
pub open spec fn sum_samples(s: Seq<Task>, f: spec_fn(Task) -> Option<u64>) -> int
    decreases s.len(),
{
    if s.len() == 0 {
        0
    } else {
        sum_samples(s.drop_last(), f) + match f(s.last()) {
            Some(v) => v as int,
            None => 0,
        }
    }
}

/// How many records of `s` have a defined sample under `f`.
pub open spec fn count_samples(s: Seq<Task>, f: spec_fn(Task) -> Option<u64>) -> nat
    decreases s.len(),
{
    if s.len() == 0 {
        0
    } else {
        count_samples(s.drop_last(), f) + if f(s.last()) is Some {
            1nat
        } else {
            0nat
        }
    }
}

/// The integer mean of the defined samples, zero when none is defined.
pub open spec fn mean_samples(s: Seq<Task>, f: spec_fn(Task) -> Option<u64>) -> int {
    if count_samples(s, f) == 0 {
        0
    } else {
        sum_samples(s, f) / count_samples(s, f) as int
    }
}

/// The runtime of a record, where defined.
pub open spec fn runtime_sample() -> spec_fn(Task) -> Option<u64> {
    |t: Task| t.spec_runtime()
}

/// The end-to-end time of a record, where defined.
pub open spec fn e2e_sample() -> spec_fn(Task) -> Option<u64> {
    |t: Task| t.spec_e2e_time()
}

/// The wait time of a record, where defined.
pub open spec fn wait_sample() -> spec_fn(Task) -> Option<u64> {
    |t: Task| t.spec_wait_time()
}

/// Fold of a per-record contribution over a sequence of records.
spec fn sum_by(s: Seq<Task>, g: spec_fn(Task) -> int) -> int
    decreases s.len(),
{
    if s.len() == 0 {
        0
    } else {
        sum_by(s.drop_last(), g) + g(s.last())
    }
}

spec fn status_contrib(status: TaskStatus) -> spec_fn(Task) -> int {
    |t: Task| if t.status == status {
        1int
    } else {
        0int
    }
}

spec fn type_contrib(ty: TaskType) -> spec_fn(Task) -> int {
    |t: Task| if t.ty == ty {
        1int
    } else {
        0int
    }
}

spec fn sample_sum_contrib(f: spec_fn(Task) -> Option<u64>) -> spec_fn(Task) -> int {
    |t: Task| match f(t) {
        Some(v) => v as int,
        None => 0,
    }
}

spec fn sample_count_contrib(f: spec_fn(Task) -> Option<u64>) -> spec_fn(Task) -> int {
    |t: Task| if f(t) is Some {
        1int
    } else {
        0int
    }
}

/// Removing one record removes exactly its contribution from the fold.
proof fn lemma_sum_by_remove(s: Seq<Task>, g: spec_fn(Task) -> int, i: int)
    requires
        0 <= i < s.len(),
    ensures
        sum_by(s, g) == sum_by(s.remove(i), g) + g(s[i]),
    decreases s.len(),
{
    if i == s.len() - 1 {
        assert(s.remove(i) =~= s.drop_last());
    } else {
        lemma_sum_by_remove(s.drop_last(), g, i);
        assert(s.remove(i).drop_last() =~= s.drop_last().remove(i));
        assert(s.remove(i).last() == s.last());
    }
}

/// Two sequences holding the same records, in any order, fold to the same
/// value.
proof fn lemma_sum_by_permutation(s1: Seq<Task>, s2: Seq<Task>, g: spec_fn(Task) -> int)
    requires
        s1.to_multiset() == s2.to_multiset(),
    ensures
        sum_by(s1, g) == sum_by(s2, g),
    decreases s1.len(),
{
    broadcast use vstd::seq_lib::group_to_multiset_ensures;

    if s1.len() == 0 {
        assert(s1.to_multiset().len() == s1.len());
        assert(s2.to_multiset().len() == s2.len());
        assert(s2.len() == 0);
    } else {
        let x = s1.last();
        let s1r = s1.drop_last();
        assert(s1[s1.len() - 1] == x);
        assert(s1.contains(x));
        assert(s1.to_multiset().count(x) > 0);
        assert(s2.to_multiset().count(x) > 0);
        assert(s2.contains(x));
        let j = choose|i: int| 0 <= i < s2.len() && s2[i] == x;
        let s2r = s2.remove(j);
        assert(s1.remove(s1.len() - 1) =~= s1r);
        assert(s1r.to_multiset() =~= s1.to_multiset().remove(x));
        assert(s2r.to_multiset() =~= s2.to_multiset().remove(x));
        lemma_sum_by_permutation(s1r, s2r, g);
        lemma_sum_by_remove(s2, g, j);
    }
}

proof fn lemma_count_status_as_sum_by(s: Seq<Task>, status: TaskStatus)
    ensures
        count_status(s, status) == sum_by(s, status_contrib(status)),
    decreases s.len(),
{
    if s.len() > 0 {
        lemma_count_status_as_sum_by(s.drop_last(), status);
    }
}

proof fn lemma_count_type_as_sum_by(s: Seq<Task>, ty: TaskType)
    ensures
        count_type(s, ty) == sum_by(s, type_contrib(ty)),
    decreases s.len(),
{
    if s.len() > 0 {
        lemma_count_type_as_sum_by(s.drop_last(), ty);
    }
}

proof fn lemma_samples_as_sum_by(s: Seq<Task>, f: spec_fn(Task) -> Option<u64>)
    ensures
        sum_samples(s, f) == sum_by(s, sample_sum_contrib(f)),
        count_samples(s, f) == sum_by(s, sample_count_contrib(f)),
    decreases s.len(),
{
    if s.len() > 0 {
        lemma_samples_as_sum_by(s.drop_last(), f);
    }
}

/// Aggregation is order-independent: two stores holding the same records, in
/// whatever order a pass happens to visit them, yield identical counts, sums
/// and means. Summation here is exact integer arithmetic, so no rounding
/// difference can arise either.
pub proof fn lemma_stats_order_independent(s1: Seq<Task>, s2: Seq<Task>)
    requires
        s1.to_multiset() == s2.to_multiset(),
    ensures
        s1.len() == s2.len(),
        forall|status: TaskStatus| #[trigger] count_status(s1, status) == count_status(s2, status),
        forall|ty: TaskType| #[trigger] count_type(s1, ty) == count_type(s2, ty),
        forall|f: spec_fn(Task) -> Option<u64>| #[trigger] sum_samples(s1, f) == sum_samples(s2, f),
        forall|f: spec_fn(Task) -> Option<u64>| #[trigger] count_samples(s1, f) == count_samples(
            s2,
            f,
        ),
        forall|f: spec_fn(Task) -> Option<u64>| #[trigger] mean_samples(s1, f) == mean_samples(
            s2,
            f,
        ),
{
    broadcast use vstd::seq_lib::group_to_multiset_ensures;

    assert(s1.to_multiset().len() == s1.len());
    assert(s2.to_multiset().len() == s2.len());
    assert forall|status: TaskStatus| #[trigger] count_status(s1, status) == count_status(
        s2,
        status,
    ) by {
        lemma_count_status_as_sum_by(s1, status);
        lemma_count_status_as_sum_by(s2, status);
        lemma_sum_by_permutation(s1, s2, status_contrib(status));
    }
    assert forall|ty: TaskType| #[trigger] count_type(s1, ty) == count_type(s2, ty) by {
        lemma_count_type_as_sum_by(s1, ty);
        lemma_count_type_as_sum_by(s2, ty);
        lemma_sum_by_permutation(s1, s2, type_contrib(ty));
    }
    assert forall|f: spec_fn(Task) -> Option<u64>| #[trigger] sum_samples(s1, f) == sum_samples(
        s2,
        f,
    ) by {
        lemma_samples_as_sum_by(s1, f);
        lemma_samples_as_sum_by(s2, f);
        lemma_sum_by_permutation(s1, s2, sample_sum_contrib(f));
    }
    assert forall|f: spec_fn(Task) -> Option<u64>| #[trigger] count_samples(s1, f)
        == count_samples(s2, f) by {
        lemma_samples_as_sum_by(s1, f);
        lemma_samples_as_sum_by(s2, f);
        lemma_sum_by_permutation(s1, s2, sample_count_contrib(f));
    }
    assert forall|f: spec_fn(Task) -> Option<u64>| #[trigger] mean_samples(s1, f) == mean_samples(
        s2,
        f,
    ) by {
        assert(sum_samples(s1, f) == sum_samples(s2, f));
        assert(count_samples(s1, f) == count_samples(s2, f));
    }
}

/// Every sample is at most `u64::MAX`, so the sum is bounded by the count.
pub proof fn lemma_sample_bounds(s: Seq<Task>, f: spec_fn(Task) -> Option<u64>)
    ensures
        count_samples(s, f) <= s.len(),
        0 <= sum_samples(s, f) <= count_samples(s, f) * (u64::MAX as int),
    decreases s.len(),
{
    if s.len() > 0 {
        lemma_sample_bounds(s.drop_last(), f);
    }
}

/// The integer mean: `sum / cnt`, or zero for an empty sample set.
fn mean_u128(sum: u128, cnt: usize) -> (avg: u64)
    requires
        sum as int <= cnt as int * (u64::MAX as int),
    ensures
        avg as int == if cnt == 0 {
            0int
        } else {
            sum as int / cnt as int
        },
{
    if cnt == 0 {
        0
    } else {
        let q = sum / (cnt as u128);
        proof {
            lemma_div_is_ordered(sum as int, cnt as int * (u64::MAX as int), cnt as int);
            lemma_div_multiples_vanish(u64::MAX as int, cnt as int);
        }
        q as u64
    }
}

/// One streaming pass over a fixed set of task records: counts per status and
/// per type, and the three average durations, each the mean over only the
/// records for which the duration is defined. The visiting order cannot
/// affect the result (`lemma_stats_order_independent`), and a mean with no
/// contributing samples is zero, never a division by zero.
pub fn compute_stats_of(tasks: &Vec<Task>) -> (stats: TasksStats)
    ensures
        stats.total == tasks@.len(),
        stats.pending == count_status(tasks@, TaskStatus::Pending),
        stats.running == count_status(tasks@, TaskStatus::Running),
        stats.finished == count_status(tasks@, TaskStatus::Finished),
        stats.pending + stats.running + stats.finished == stats.total,
        stats.types.cpu == count_type(tasks@, TaskType::Cpu),
        stats.types.memory == count_type(tasks@, TaskType::Memory),
        stats.types.io == count_type(tasks@, TaskType::Io),
        stats.types.cpu + stats.types.memory + stats.types.io == stats.total,
        stats.avg_runtime_millis == mean_samples(tasks@, runtime_sample()),
        stats.avg_e2e_time_millis == mean_samples(tasks@, e2e_sample()),
        stats.avg_wait_time_millis == mean_samples(tasks@, wait_sample()),
        count_samples(tasks@, runtime_sample()) == 0 ==> stats.avg_runtime_millis == 0,
{
    let n = tasks.len();
    let mut pending: usize = 0;
    let mut running: usize = 0;
    let mut finished: usize = 0;
    let mut cpu: usize = 0;
    let mut memory: usize = 0;
    let mut io: usize = 0;
    let mut runtime_sum: u128 = 0;
    let mut runtime_cnt: usize = 0;
    let mut e2e_sum: u128 = 0;
    let mut e2e_cnt: usize = 0;
    let mut wait_sum: u128 = 0;
    let mut wait_cnt: usize = 0;
    let mut i: usize = 0;
    while i < n
        invariant
            i <= n,
            n == tasks@.len(),
            pending == count_status(tasks@.take(i as int), TaskStatus::Pending),
            running == count_status(tasks@.take(i as int), TaskStatus::Running),
            finished == count_status(tasks@.take(i as int), TaskStatus::Finished),
            pending + running + finished == i,
            cpu == count_type(tasks@.take(i as int), TaskType::Cpu),
            memory == count_type(tasks@.take(i as int), TaskType::Memory),
            io == count_type(tasks@.take(i as int), TaskType::Io),
            cpu + memory + io == i,
            runtime_cnt == count_samples(tasks@.take(i as int), runtime_sample()),
            runtime_sum == sum_samples(tasks@.take(i as int), runtime_sample()),
            runtime_sum as int <= runtime_cnt as int * (u64::MAX as int),
            runtime_cnt <= i,
            e2e_cnt == count_samples(tasks@.take(i as int), e2e_sample()),
            e2e_sum == sum_samples(tasks@.take(i as int), e2e_sample()),
            e2e_sum as int <= e2e_cnt as int * (u64::MAX as int),
            e2e_cnt <= i,
            wait_cnt == count_samples(tasks@.take(i as int), wait_sample()),
            wait_sum == sum_samples(tasks@.take(i as int), wait_sample()),
            wait_sum as int <= wait_cnt as int * (u64::MAX as int),
            wait_cnt <= i,
        decreases n - i,
    {
        let t = tasks[i];
        proof {
            assert(tasks@.take(i as int + 1).drop_last() =~= tasks@.take(i as int));
            assert(tasks@.take(i as int + 1).last() == tasks@[i as int]);
        }
        match t.status {
            TaskStatus::Pending => { pending = pending + 1; },
            TaskStatus::Running => { running = running + 1; },
            TaskStatus::Finished => { finished = finished + 1; },
        }
        match t.ty {
            TaskType::Cpu => { cpu = cpu + 1; },
            TaskType::Memory => { memory = memory + 1; },
            TaskType::Io => { io = io + 1; },
        }
        match t.runtime() {
            Some(v) => {
                runtime_sum = runtime_sum + v as u128;
                runtime_cnt = runtime_cnt + 1;
            },
            None => {},
        }
        match t.e2e_time() {
            Some(v) => {
                e2e_sum = e2e_sum + v as u128;
                e2e_cnt = e2e_cnt + 1;
            },
            None => {},
        }
        match t.wait_time() {
            Some(v) => {
                wait_sum = wait_sum + v as u128;
                wait_cnt = wait_cnt + 1;
            },
            None => {},
        }
        i = i + 1;
    }
    proof {
        assert(tasks@.take(n as int) =~= tasks@);
    }
    let avg_runtime_millis = mean_u128(runtime_sum, runtime_cnt);
    let avg_e2e_time_millis = mean_u128(e2e_sum, e2e_cnt);
    let avg_wait_time_millis = mean_u128(wait_sum, wait_cnt);
    TasksStats {
        total: n,
        pending,
        running,
        finished,
        types: TypeCounts { cpu, memory, io },
        avg_runtime_millis,
        avg_e2e_time_millis,
        avg_wait_time_millis,
    }
}

} // verus!
