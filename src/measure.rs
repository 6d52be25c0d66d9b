use crate::models::{BenchError, BenchmarkResult, Throughput, Timestamp};
use vstd::prelude::*;

verus! {

/// std::time::Instant, carried opaque from one clock reading to the next.
#[verifier::external_type_specification]
#[verifier::external_body]
pub struct ExInstant(std::time::Instant);

/// Relies on std::time::Instant::now: a reading of the monotonic clock.
#[verifier::external_body]
fn clock_start() -> (r: std::time::Instant) {
    std::time::Instant::now()
}

/// Relies on std::time::Instant::elapsed: the whole milliseconds since `start`.
#[verifier::external_body]
fn elapsed_millis(start: &std::time::Instant) -> (r: u128) {
    start.elapsed().as_millis()
}

/// Relies on chrono::Utc::now: the current wall-clock time.
#[verifier::external_body]
pub(crate) fn now_timestamp() -> (r: Timestamp) {
    Timestamp { micros: chrono::Utc::now().timestamp_micros() }
}

/// The throughput of `operations` completed in `duration_ms` milliseconds:
/// `operations / (duration_ms / 1000)`, or `operations` itself when the batch
/// finished within the same millisecond.
pub open spec fn throughput_of(operations: nat, duration_ms: nat) -> Throughput {
    if duration_ms == 0 {
        Throughput { numerator: operations as u128, denominator: 1 }
    } else {
        Throughput { numerator: (operations * 1000) as u128, denominator: duration_ms as u64 }
    }
}

/// Operations per second for a batch of `operations` that took `duration_ms`.
pub fn operations_per_second(operations: usize, duration_ms: u64) -> (r: Throughput)
    ensures
        r == throughput_of(operations as nat, duration_ms as nat),
        duration_ms == 0 ==> r.numerator == operations && r.denominator == 1,
        duration_ms > 0 ==> r.numerator == operations * 1000 && r.denominator == duration_ms,
{
    if duration_ms == 0 {
        Throughput { numerator: operations as u128, denominator: 1 }
    } else {
        Throughput { numerator: operations as u128 * 1000, denominator: duration_ms }
    }
}

/// Elapsed milliseconds as stored in a result, saturating at the largest `u64`.
pub open spec fn clamp_millis(elapsed: nat) -> nat {
    if elapsed > u64::MAX { u64::MAX as nat } else { elapsed }
}

/// The record of a batch of `operations` that took `elapsed_ms` milliseconds.
pub fn finish_measurement(
    database_name: &str,
    test_name: &str,
    operations: usize,
    cpu_count: usize,
    elapsed_ms: u128,
    timestamp: Timestamp,
) -> (r: BenchmarkResult)
    ensures
        r.database@ == database_name@,
        r.test_name@ == test_name@,
        r.operations == operations,
        r.duration_ms == clamp_millis(elapsed_ms as nat),
        r.operations_per_second == throughput_of(operations as nat, r.duration_ms as nat),
        r.cpu_count == cpu_count,
        r.timestamp == timestamp,
{
    let duration_ms: u64 = if elapsed_ms > u64::MAX as u128 {
        u64::MAX
    } else {
        elapsed_ms as u64
    };
    BenchmarkResult {
        database: database_name.to_owned(),
        test_name: test_name.to_owned(),
        operations,
        duration_ms,
        operations_per_second: operations_per_second(operations, duration_ms),
        cpu_count,
        timestamp,
    }
}

/// Times the unit of work `f` and packages the measurement; an error of `f`
/// is handed back unchanged and produces no result.
pub fn measure_execution<F: FnOnce() -> Result<(), BenchError>>(
    database_name: &str,
    test_name: &str,
    operations: usize,
    cpu_count: usize,
    f: F,
) -> (r: Result<BenchmarkResult, BenchError>)
    requires
        f.requires(()),
    ensures
        r matches Err(e) ==> f.ensures((), Err(e)),
        r matches Ok(res) ==> {
            &&& exists|done: Result<(), BenchError>| done is Ok && f.ensures((), done)
            &&& res.database@ == database_name@
            &&& res.test_name@ == test_name@
            &&& res.operations == operations
            &&& res.operations_per_second == throughput_of(
                operations as nat,
                res.duration_ms as nat,
            )
            &&& res.cpu_count == cpu_count
        },
{
    let start = clock_start();
    let outcome = f();
    match outcome {
        Err(e) => Err(e),
        Ok(()) => {
            let elapsed = elapsed_millis(&start);
            let timestamp = now_timestamp();
            Ok(finish_measurement(database_name, test_name, operations, cpu_count, elapsed, timestamp))
        },
    }
}

} // verus!
