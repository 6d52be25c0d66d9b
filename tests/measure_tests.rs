use db_benchmark::measure::{finish_measurement, measure_execution, operations_per_second};
use db_benchmark::models::{BenchError, Throughput, Timestamp};

#[test]
fn zero_duration_rate_is_the_operation_count() {
    let r = operations_per_second(2000, 0);
    assert_eq!(r, Throughput { numerator: 2000, denominator: 1 });
    let r = operations_per_second(0, 0);
    assert_eq!(r, Throughput { numerator: 0, denominator: 1 });
}

#[test]
fn positive_duration_rate_is_operations_per_second() {
    let r = operations_per_second(2000, 500);
    assert_eq!(r, Throughput { numerator: 2_000_000, denominator: 500 });
    assert_eq!(r.numerator / r.denominator as u128, 4000);
    let r = operations_per_second(1000, 3);
    assert_eq!(r, Throughput { numerator: 1_000_000, denominator: 3 });
}

#[test]
fn largest_operation_count_does_not_overflow() {
    let r = operations_per_second(usize::MAX, 1);
    assert_eq!(r.numerator, usize::MAX as u128 * 1000);
    assert_eq!(r.denominator, 1);
}

#[test]
fn finished_measurement_keeps_its_inputs() {
    let t = Timestamp { micros: 1_700_000_000_000_000 };
    let r = finish_measurement("SQLite", "Read Many By IDs", 2000, 4, 250, t);
    assert_eq!(r.database, "SQLite");
    assert_eq!(r.test_name, "Read Many By IDs");
    assert_eq!(r.operations, 2000);
    assert_eq!(r.duration_ms, 250);
    assert_eq!(r.operations_per_second, Throughput { numerator: 2_000_000, denominator: 250 });
    assert_eq!(r.cpu_count, 4);
    assert_eq!(r.timestamp, t);
}

#[test]
fn elapsed_time_beyond_u64_saturates() {
    let t = Timestamp { micros: 0 };
    let r = finish_measurement("X", "Y", 5, 1, u64::MAX as u128 + 10, t);
    assert_eq!(r.duration_ms, u64::MAX);
    let r = finish_measurement("X", "Y", 5, 1, 0, t);
    assert_eq!(r.duration_ms, 0);
    assert_eq!(r.operations_per_second, Throughput { numerator: 5, denominator: 1 });
}

#[test]
fn measured_batch_reports_its_elapsed_time() {
    let r = measure_execution("SQLite", "Insert Many At Once", 1000, 2, || {
        let start = std::time::Instant::now();
        while start.elapsed().as_millis() < 5 {}
        Ok(())
    })
    .unwrap();
    assert_eq!(r.database, "SQLite");
    assert_eq!(r.test_name, "Insert Many At Once");
    assert_eq!(r.operations, 1000);
    assert_eq!(r.cpu_count, 2);
    assert!(r.duration_ms >= 5);
    assert_eq!(r.operations_per_second, operations_per_second(1000, r.duration_ms));
    assert!(r.timestamp.micros > 1_600_000_000_000_000);
}

#[test]
fn failed_batch_hands_back_its_error() {
    let r = measure_execution("SQLite", "Insert Many At Once", 1000, 2, || {
        Err(BenchError { message: "disk full".to_string() })
    });
    assert_eq!(r, Err(BenchError { message: "disk full".to_string() }));
}
