use vstd::prelude::*;

verus! {

/// An instant in UTC, as microseconds since the Unix epoch.
#[derive(Clone, Copy, Debug, PartialEq, Eq)]
pub struct Timestamp {
    pub micros: i64,
}

/// A user, identified by a 128-bit random identifier.
#[derive(Clone, Debug, PartialEq, Eq)]
pub struct User {
    pub id: u128,
    pub name: String,
    pub email: String,
    pub created_at: Timestamp,
    pub active: bool,
}

/// A product; its price is held in whole cents.
#[derive(Clone, Debug, PartialEq, Eq)]
pub struct Product {
    pub id: u128,
    pub name: String,
    pub description: String,
    pub price_cents: u64,
    pub stock: i32,
    pub created_at: Timestamp,
}

/// An order of one product by one user; its total is held in whole cents.
#[derive(Clone, Debug, PartialEq, Eq)]
pub struct Order {
    pub id: u128,
    pub user_id: u128,
    pub product_id: u128,
    pub quantity: i32,
    pub total_price_cents: u64,
    pub created_at: Timestamp,
}

/// An order joined with the user and the product it refers to.
#[derive(Clone, Debug, PartialEq, Eq)]
pub struct OrderWithDetails {
    pub id: u128,
    pub quantity: i32,
    pub total_price_cents: u64,
    pub created_at: Timestamp,
    pub user: User,
    pub product: Product,
}

/// A rate of operations per second, kept exact as `numerator / denominator`.
#[derive(Clone, Copy, Debug, PartialEq, Eq)]
pub struct Throughput {
    pub numerator: u128,
    pub denominator: u64,
}

/// The measurement of one timed operation batch.
#[derive(Clone, Debug, PartialEq, Eq)]
pub struct BenchmarkResult {
    pub database: String,
    pub test_name: String,
    pub operations: usize,
    pub duration_ms: u64,
    pub operations_per_second: Throughput,
    pub cpu_count: usize,
    pub timestamp: Timestamp,
}

/// One complete run: the results of all operations, in execution order.
#[derive(Clone, Debug, PartialEq, Eq)]
pub struct BenchmarkResults {
    pub database: String,
    pub results: Vec<BenchmarkResult>,
    pub timestamp: Timestamp,
}

/// A failure reported by a storage backend.
#[derive(Clone, Debug, PartialEq, Eq)]
pub struct BenchError {
    pub message: String,
}

} // verus!
