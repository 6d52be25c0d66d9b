use crate::benchmark::{is_canonical_run, DatabaseBenchmark};
use crate::models::{BenchError, BenchmarkResults};
use vstd::prelude::*;

verus! {

/// The number of users, products and orders generated before a run.
pub const RUN_DATA_SIZE: usize = 1000;

/// The step of a run at which a backend failed.
#[derive(Clone, Copy, Debug, PartialEq, Eq, Structural)]
pub enum RunStep {
    Init,
    Cleanup,
    GenerateTestData,
    RunBenchmarks,
}

/// A failed run: the step that failed and the backend's error.
#[derive(Clone, Debug, PartialEq, Eq)]
pub struct RunFailure {
    pub step: RunStep,
    pub error: BenchError,
}

/// A step that returned `Ok(())`.
pub open spec fn step_succeeded(outcome: Result<(), BenchError>) -> bool {
    outcome is Ok
}

/// One full run against `benchmark`: `init`, `cleanup`, generation of
/// `RUN_DATA_SIZE` entities of each kind, then all operations. The first
/// failing step ends the run with its own error; a run in which every step
/// succeeds returns the snapshot of `run_all_benchmarks`.
pub fn run_benchmark<T: DatabaseBenchmark>(benchmark: &T) -> (r: Result<
    BenchmarkResults,
    RunFailure,
>)
    ensures
        r matches Ok(s) ==> {
            &&& is_canonical_run(s.results@)
            &&& exists|o: Result<(), BenchError>|
                step_succeeded(o) && #[trigger] call_ensures(T::init, (benchmark,), o)
            &&& exists|o: Result<(), BenchError>|
                step_succeeded(o) && #[trigger] call_ensures(T::cleanup, (benchmark,), o)
            &&& exists|o: Result<(), BenchError>|
                step_succeeded(o) && #[trigger] call_ensures(
                    T::generate_test_data,
                    (benchmark, RUN_DATA_SIZE),
                    o,
                )
            &&& call_ensures(T::run_all_benchmarks, (benchmark,), Ok::<BenchmarkResults, BenchError>(s))
        },
        r matches Err(f) ==> {
            ||| f.step == RunStep::Init && call_ensures(
                T::init,
                (benchmark,),
                Err::<(), BenchError>(f.error),
            )
            ||| f.step == RunStep::Cleanup && call_ensures(
                T::cleanup,
                (benchmark,),
                Err::<(), BenchError>(f.error),
            )
            ||| f.step == RunStep::GenerateTestData && call_ensures(
                T::generate_test_data,
                (benchmark, RUN_DATA_SIZE),
                Err::<(), BenchError>(f.error),
            )
            ||| f.step == RunStep::RunBenchmarks && call_ensures(
                T::run_all_benchmarks,
                (benchmark,),
                Err::<BenchmarkResults, BenchError>(f.error),
            )
        },
{
    let init = benchmark.init();
    if let Err(error) = init {
        return Err(RunFailure { step: RunStep::Init, error });
    }
    let cleanup = benchmark.cleanup();
    if let Err(error) = cleanup {
        return Err(RunFailure { step: RunStep::Cleanup, error });
    }
    let generated = benchmark.generate_test_data(RUN_DATA_SIZE);
    if let Err(error) = generated {
        return Err(RunFailure { step: RunStep::GenerateTestData, error });
    }
    assert(step_succeeded(init) && step_succeeded(cleanup) && step_succeeded(generated));
    match benchmark.run_all_benchmarks() {
        Ok(results) => Ok(results),
        Err(error) => Err(RunFailure { step: RunStep::RunBenchmarks, error }),
    }
}

/// The snapshot held after a run with `outcome`, when `prev` was held
/// before: a successful run replaces it whole, a failed one leaves it.
pub open spec fn after_run(
    prev: Option<BenchmarkResults>,
    outcome: Result<BenchmarkResults, RunFailure>,
) -> Option<BenchmarkResults> {
    match outcome {
        Ok(s) => Some(s),
        Err(_) => prev,
    }
}

/// The slot that keeps the last successful run: empty until the first one,
/// then overwritten by each later one.
#[derive(Clone, Debug)]
pub struct ResultsSlot {
    latest: Option<BenchmarkResults>,
}

impl View for ResultsSlot {
    type V = Option<BenchmarkResults>;

    closed spec fn view(&self) -> Option<BenchmarkResults> {
        self.latest
    }
}

impl ResultsSlot {
    /// An empty slot.
    pub fn new() -> (r: Self)
        ensures
            r@ is None,
    {
        ResultsSlot { latest: None }
    }

    /// Records the outcome of a run: a snapshot replaces the one held, a
    /// failure is handed back and changes nothing.
    pub fn record_run(&mut self, outcome: Result<BenchmarkResults, RunFailure>) -> (r: Result<
        (),
        RunFailure,
    >)
        ensures
            final(self)@ == after_run(old(self)@, outcome),
            outcome matches Err(f) ==> r == Err::<(), RunFailure>(f),
            outcome is Ok ==> r is Ok,
    {
        match outcome {
            Ok(results) => {
                self.latest = Some(results);
                Ok(())
            },
            Err(failure) => Err(failure),
        }
    }

    /// The snapshot held, or `None` (not found) before the first successful run.
    pub fn latest(&self) -> (r: Option<&BenchmarkResults>)
        ensures
            r is None <==> self@ is None,
            r matches Some(s) ==> self@ == Some(*s),
    {
        match &self.latest {
            Some(s) => Some(s),
            None => None,
        }
    }
}

/// A failed run leaves the snapshot that was held before it, or none.
pub proof fn lemma_failed_run_keeps_snapshot(prev: Option<BenchmarkResults>, failure: RunFailure)
    ensures
        after_run(prev, Err(failure)) == prev,
{
}

/// Two successful runs recorded in either order leave exactly the snapshot of
/// the one recorded last: never a mix of the two.
pub proof fn lemma_racing_runs_leave_one_snapshot(
    prev: Option<BenchmarkResults>,
    a: BenchmarkResults,
    b: BenchmarkResults,
)
    ensures
        after_run(after_run(prev, Ok(a)), Ok(b)) == Some(b),
        after_run(after_run(prev, Ok(b)), Ok(a)) == Some(a),
{
}

} // verus!
