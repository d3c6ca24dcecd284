//! The three workload simulators.
//!
//! Each consumes wall-clock time and returns a checksum. The CPU-bound one
//! busy-spins over a trial-division primality pass; the memory-bound one
//! fills a buffer with pseudo-random bytes and returns their sum; the
//! I/O-bound one just waits out its duration and returns a pseudo-random
//! value. None of them can fail.

use vstd::prelude::*;

use crate::host::now_unix_millis;
use crate::lifecycle::MAX_MEMORY_BYTES;

verus! {

/// Upper end (exclusive) of the range one primality pass sweeps.
pub const PRIME_PASS_END: u64 = 10000;

/// `n` has no divisor strictly between 1 and itself.
pub open spec fn is_prime(n: int) -> bool {
    n >= 2 && forall|i: int| 2 <= i < n ==> #[trigger] (n % i) != 0
}

/// Sum of the primes below `n`.
pub open spec fn sum_primes_below(n: nat) -> nat
    decreases n,
{
    if n <= 2 {
        0
    } else {
        sum_primes_below((n - 1) as nat) + if is_prime(n - 1) {
            (n - 1) as nat
        } else {
            0
        }
    }
}

/// The checksum that one full primality pass produces.
pub open spec fn prime_pass_sum() -> nat {
    sum_primes_below(PRIME_PASS_END as nat)
}

/// Trial-division primality check.
fn check_prime(n: u64) -> (r: bool)
    requires
        n >= 2,
    ensures
        r == is_prime(n as int),
{
    let mut i: u64 = 2;
    while i < n
        invariant
            2 <= i <= n,
            forall|j: int| 2 <= j < i ==> #[trigger] ((n as int) % j) != 0,
        decreases n - i,
    {
        if n % i == 0 {
            assert((n as int) % (i as int) == 0);
            return false;
        }
        i = i + 1;
    }
    true
}

/// One full pass: the sum of all primes below `PRIME_PASS_END`.
pub fn prime_pass() -> (r: u64)
    ensures
        r == prime_pass_sum(),
{
    let mut sum: u64 = 0;
    let mut n: u64 = 2;
    while n < PRIME_PASS_END
        invariant
            2 <= n <= PRIME_PASS_END,
            sum == sum_primes_below(n as nat),
            sum as int <= (n as int) * (n as int),
        decreases PRIME_PASS_END - n,
    {
        proof {
            assert((n as int) * (n as int) + n as int <= (n as int + 1) * (n as int + 1)
                && (n as int) * (n as int) <= 100000000int) by (nonlinear_arith)
                requires
                    2 <= n as int <= 10000int,
            ;
        }
        if check_prime(n) {
            sum = sum + n;
        }
        n = n + 1;
    }
    sum
}

/// Busy-waits until the wall clock reads at least `deadline_millis` and
/// returns that reading. The iteration bound exists only to state termination;
/// no real clock exhausts it, and if one did, the deadline itself would be
/// returned as the reading.
pub fn wait_until_millis(deadline_millis: u64) -> (t: u64)
    ensures
        t >= deadline_millis,
{
    let mut fuel: u64 = u64::MAX;
    while fuel > 0
        decreases fuel,
    {
        let n = now_unix_millis();
        if n >= deadline_millis {
            return n;
        }
        fuel = fuel - 1;
    }
    deadline_millis
}

/// Busy-spins running primality passes until the wall clock reads at least
/// `deadline_millis`. Returns the final pass's checksum (zero if the deadline
/// had already passed before the first pass) and the clock reading that ended
/// the spin.
pub fn spin_primes_until(deadline_millis: u64) -> (r: (u64, u64))
    ensures
        r.1 >= deadline_millis,
        r.0 == 0 || r.0 == prime_pass_sum(),
{
    let mut checksum: u64 = 0;
    let mut fuel: u64 = u64::MAX;
    while fuel > 0
        invariant
            checksum == 0 || checksum == prime_pass_sum(),
        decreases fuel,
    {
        let n = now_unix_millis();
        if n >= deadline_millis {
            return (checksum, n);
        }
        checksum = prime_pass();
        fuel = fuel - 1;
    }
    (checksum, deadline_millis)
}

/// Mathematical sum of a byte sequence.
pub open spec fn byte_sum(s: Seq<u8>) -> int
    decreases s.len(),
{
    if s.len() == 0 {
        0
    } else {
        byte_sum(s.drop_last()) + s.last()
    }
}

pub proof fn lemma_byte_sum_bounds(s: Seq<u8>)
    ensures
        0 <= byte_sum(s) <= 255 * s.len(),
    decreases s.len(),
{
    if s.len() > 0 {
        lemma_byte_sum_bounds(s.drop_last());
    }
}

/// A buffer of `len` pseudo-random bytes.
pub fn fill_random_bytes(len: usize) -> (v: Vec<u8>)
    ensures
        v@.len() == len,
{
    let mut v: Vec<u8> = Vec::new();
    while v.len() < len
        invariant
            v@.len() <= len,
        decreases len - v@.len(),
    {
        let b: u8 = rand::random::<u8>();
        v.push(b);
    }
    v
}

/// The exact sum of the buffer's bytes.
pub fn sum_bytes(bytes: &Vec<u8>) -> (r: u64)
    requires
        bytes@.len() <= MAX_MEMORY_BYTES,
    ensures
        r == byte_sum(bytes@),
{
    let n = bytes.len();
    let mut sum: u64 = 0;
    let mut i: usize = 0;
    while i < n
        invariant
            i <= n,
            n == bytes@.len(),
            bytes@.len() <= MAX_MEMORY_BYTES,
            sum == byte_sum(bytes@.take(i as int)),
            sum as int <= 255 * i as int,
        decreases n - i,
    {
        proof {
            assert(bytes@.take(i as int + 1).drop_last() =~= bytes@.take(i as int));
        }
        sum = sum + (bytes[i] as u64);
        i = i + 1;
    }
    proof {
        assert(bytes@.take(n as int) =~= bytes@);
    }
    sum
}

/// CPU-bound simulator: repeatedly runs the primality pass, busy-spinning the
/// calling thread, until the requested duration has elapsed; returns the sum
/// of the primes found in the final pass. A zero duration completes at once
/// with no pass run and a checksum of zero.
pub fn cpu_bound_task(duration_millis: u64) -> (r: u64)
    ensures
        r == 0 || r == prime_pass_sum(),
        duration_millis == 0 ==> r == 0,
{
    if duration_millis == 0 {
        return 0;
    }
    let begin = now_unix_millis();
    let deadline = begin.saturating_add(duration_millis);
    let (checksum, _end) = spin_primes_until(deadline);
    checksum
}

/// Memory-bound simulator: allocates a buffer of the requested size, fills it
/// with pseudo-random bytes, waits out the requested duration, and returns
/// the sum of the buffer's bytes. The buffer is released on return.
pub fn memory_bound_task(memory_usage: usize, duration_millis: u64) -> (r: u64)
    requires
        memory_usage <= MAX_MEMORY_BYTES,
    ensures
        r <= 255 * memory_usage as int,
        memory_usage == 0 ==> r == 0,
{
    let buffer = fill_random_bytes(memory_usage);
    let begin = now_unix_millis();
    let deadline = begin.saturating_add(duration_millis);
    let _end = wait_until_millis(deadline);
    proof {
        lemma_byte_sum_bounds(buffer@);
    }
    sum_bytes(&buffer)
}

/// I/O-bound simulator: waits out the requested duration without allocating,
/// then returns a pseudo-random value, of which nothing further can be said.
pub fn io_bound_task(duration_millis: u64) -> (r: u64) {
    let begin = now_unix_millis();
    let deadline = begin.saturating_add(duration_millis);
    let _end = wait_until_millis(deadline);
    rand::random::<u64>()
}

} // verus!
