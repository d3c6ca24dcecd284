//! Bindings to the host's wall clock and entropy source.
//!
//! These are the only places where the library reaches outside itself during
//! execution. Nothing is assumed about what the clock or the random source
//! return: every caller states what holds of its own result whatever value
//! came back.

use vstd::prelude::*;

verus! {

/// Relies on chrono's `From<SystemTime>` conversion and
/// `DateTime::timestamp_millis`: the host clock, read once, as milliseconds
/// since the Unix epoch. A clock set before 1970 yields a negative reading
/// (the conversion negates the distance instead of failing); only a clock
/// beyond chrono's representable range of years would make it panic, a host
/// fault of the same kind as an allocation failure. Nothing is assumed of
/// the value: a wall clock can step forwards or backwards between any two
/// reads.
#[verifier::external_body]
fn now_unix_millis_raw() -> i64 {
    chrono::DateTime::<chrono::Utc>::from(std::time::SystemTime::now()).timestamp_millis()
}

/// The current wall-clock time in milliseconds since the Unix epoch, clamped
/// to zero for clocks set before 1970.
pub fn now_unix_millis() -> (t: u64) {
    let raw = now_unix_millis_raw();
    if raw < 0 {
        0
    } else {
        raw as u64
    }
}

/// Relies on rand::random: one value drawn from the thread-local generator.
/// The result depends on entropy, so nothing can be promised of it.
pub assume_specification<T>[ rand::random::<T> ]() -> (r: T)
    where
        rand::distributions::Standard: rand::distributions::Distribution<T>,
;

} // verus!
