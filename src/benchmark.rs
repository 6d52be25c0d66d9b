use crate::measure::now_timestamp;
use crate::models::{BenchError, BenchmarkResult, BenchmarkResults};
use vstd::prelude::*;

verus! {

/// The eleven benchmark operations, declared in their canonical run order.
#[derive(Clone, Copy, Debug, PartialEq, Eq, Structural)]
pub enum Operation {
    InsertSingleManyTimes,
    InsertManyAtOnce,
    ReadByIdManyTimes,
    ReadManyByIds,
    ReadByColumnSearch,
    ReadWithOneJoin,
    ReadWithTwoJoins,
    UpdateSingleFieldOneEntry,
    UpdateSingleFieldManyEntries,
    UpdateMultipleFieldsOneEntry,
    UpdateMultipleFieldsManyEntries,
}

/// The number of operations in a full run.
pub const OPERATION_COUNT: usize = 11;

/// The operation at position `i` of a full run.
pub open spec fn canonical_operation(i: int) -> Operation {
    if i == 0 {
        Operation::InsertSingleManyTimes
    } else if i == 1 {
        Operation::InsertManyAtOnce
    } else if i == 2 {
        Operation::ReadByIdManyTimes
    } else if i == 3 {
        Operation::ReadManyByIds
    } else if i == 4 {
        Operation::ReadByColumnSearch
    } else if i == 5 {
        Operation::ReadWithOneJoin
    } else if i == 6 {
        Operation::ReadWithTwoJoins
    } else if i == 7 {
        Operation::UpdateSingleFieldOneEntry
    } else if i == 8 {
        Operation::UpdateSingleFieldManyEntries
    } else if i == 9 {
        Operation::UpdateMultipleFieldsOneEntry
    } else {
        Operation::UpdateMultipleFieldsManyEntries
    }
}

impl Operation {
    /// The name under which results of this operation are reported.
    pub open spec fn name_spec(self) -> Seq<char> {
        match self {
            Operation::InsertSingleManyTimes => "Insert Single Many Times"@,
            Operation::InsertManyAtOnce => "Insert Many At Once"@,
            Operation::ReadByIdManyTimes => "Read By ID Many Times"@,
            Operation::ReadManyByIds => "Read Many By IDs"@,
            Operation::ReadByColumnSearch => "Read By Column Search"@,
            Operation::ReadWithOneJoin => "Read With One Join"@,
            Operation::ReadWithTwoJoins => "Read With Two Joins"@,
            Operation::UpdateSingleFieldOneEntry => "Update Single Field One Entry"@,
            Operation::UpdateSingleFieldManyEntries => "Update Single Field Many Entries"@,
            Operation::UpdateMultipleFieldsOneEntry => "Update Multiple Fields One Entry"@,
            Operation::UpdateMultipleFieldsManyEntries => "Update Multiple Fields Many Entries"@,
        }
    }

    /// The operation count of this operation in a full run, the same for
    /// every backend.
    pub open spec fn count_spec(self) -> nat {
        match self {
            Operation::InsertSingleManyTimes => 2000,
            Operation::InsertManyAtOnce => 1000,
            Operation::ReadByIdManyTimes => 1000,
            Operation::ReadManyByIds => 2000,
            Operation::ReadByColumnSearch => 2000,
            Operation::ReadWithOneJoin => 2000,
            Operation::ReadWithTwoJoins => 2000,
            Operation::UpdateSingleFieldOneEntry => 500,
            Operation::UpdateSingleFieldManyEntries => 1000,
            Operation::UpdateMultipleFieldsOneEntry => 200,
            Operation::UpdateMultipleFieldsManyEntries => 5000,
        }
    }

    /// The name under which results of this operation are reported.
    pub fn test_name(&self) -> (r: &'static str)
        ensures
            r@ == self.name_spec(),
    {
        match self {
            Operation::InsertSingleManyTimes => "Insert Single Many Times",
            Operation::InsertManyAtOnce => "Insert Many At Once",
            Operation::ReadByIdManyTimes => "Read By ID Many Times",
            Operation::ReadManyByIds => "Read Many By IDs",
            Operation::ReadByColumnSearch => "Read By Column Search",
            Operation::ReadWithOneJoin => "Read With One Join",
            Operation::ReadWithTwoJoins => "Read With Two Joins",
            Operation::UpdateSingleFieldOneEntry => "Update Single Field One Entry",
            Operation::UpdateSingleFieldManyEntries => "Update Single Field Many Entries",
            Operation::UpdateMultipleFieldsOneEntry => "Update Multiple Fields One Entry",
            Operation::UpdateMultipleFieldsManyEntries => "Update Multiple Fields Many Entries",
        }
    }

    /// The operation count of this operation in a full run.
    pub fn operation_count(&self) -> (r: usize)
        ensures
            r == self.count_spec(),
    {
        match self {
            Operation::InsertSingleManyTimes => 2000,
            Operation::InsertManyAtOnce => 1000,
            Operation::ReadByIdManyTimes => 1000,
            Operation::ReadManyByIds => 2000,
            Operation::ReadByColumnSearch => 2000,
            Operation::ReadWithOneJoin => 2000,
            Operation::ReadWithTwoJoins => 2000,
            Operation::UpdateSingleFieldOneEntry => 500,
            Operation::UpdateSingleFieldManyEntries => 1000,
            Operation::UpdateMultipleFieldsOneEntry => 200,
            Operation::UpdateMultipleFieldsManyEntries => 5000,
        }
    }
}

/// `res` reports a batch of `count` runs of `op`.
pub open spec fn reports(res: BenchmarkResult, op: Operation, count: nat) -> bool {
    res.test_name@ == op.name_spec() && res.operations == count
}

/// `results` holds one result per operation, in the canonical order, each
/// with the canonical operation count.
pub open spec fn is_canonical_run(results: Seq<BenchmarkResult>) -> bool {
    &&& results.len() == OPERATION_COUNT
    &&& forall|i: int|
        0 <= i < OPERATION_COUNT ==> reports(
            #[trigger] results[i],
            canonical_operation(i),
            canonical_operation(i).count_spec(),
        )
}

/// The capability set of a storage backend under benchmark. Each timed
/// operation reports its batch under the operation's own name and count.
pub trait DatabaseBenchmark {
    /// Sets up schema and structures; safe to call more than once.
    fn init(&self) -> Result<(), BenchError>;

    /// Creates `count` users, `count` products and `count` orders, all or none.
    fn generate_test_data(&self, count: usize) -> Result<(), BenchError>;

    /// Removes all benchmark data; succeeds on an empty store.
    fn cleanup(&self) -> Result<(), BenchError>;

    /// The backend's name.
    fn database_name(&self) -> String;

    /// Declares the number of CPU cores to use; a backend may apply it later.
    fn set_cpu_count(&mut self, count: usize);

    /// The declared number of CPU cores.
    fn get_cpu_count(&self) -> usize;

    fn insert_single_many_times(&self, count: usize) -> (r: Result<BenchmarkResult, BenchError>)
        ensures
            r matches Ok(res) ==> reports(res, Operation::InsertSingleManyTimes, count as nat),
    ;

    fn insert_many_at_once(&self, count: usize) -> (r: Result<BenchmarkResult, BenchError>)
        ensures
            r matches Ok(res) ==> reports(res, Operation::InsertManyAtOnce, count as nat),
    ;

    fn read_by_id_many_times(&self, count: usize) -> (r: Result<BenchmarkResult, BenchError>)
        ensures
            r matches Ok(res) ==> reports(res, Operation::ReadByIdManyTimes, count as nat),
    ;

    fn read_many_by_ids(&self, count: usize) -> (r: Result<BenchmarkResult, BenchError>)
        ensures
            r matches Ok(res) ==> reports(res, Operation::ReadManyByIds, count as nat),
    ;

    fn read_by_column_search(&self, count: usize) -> (r: Result<BenchmarkResult, BenchError>)
        ensures
            r matches Ok(res) ==> reports(res, Operation::ReadByColumnSearch, count as nat),
    ;

    fn read_with_one_join(&self, count: usize) -> (r: Result<BenchmarkResult, BenchError>)
        ensures
            r matches Ok(res) ==> reports(res, Operation::ReadWithOneJoin, count as nat),
    ;

    fn read_with_two_joins(&self, count: usize) -> (r: Result<BenchmarkResult, BenchError>)
        ensures
            r matches Ok(res) ==> reports(res, Operation::ReadWithTwoJoins, count as nat),
    ;

    fn update_single_field_one_entry(&self, count: usize) -> (r: Result<
        BenchmarkResult,
        BenchError,
    >)
        ensures
            r matches Ok(res) ==> reports(res, Operation::UpdateSingleFieldOneEntry, count as nat),
    ;

    fn update_single_field_many_entries(&self, count: usize) -> (r: Result<
        BenchmarkResult,
        BenchError,
    >)
        ensures
            r matches Ok(res) ==> reports(
                res,
                Operation::UpdateSingleFieldManyEntries,
                count as nat,
            ),
    ;

    fn update_multiple_fields_one_entry(&self, count: usize) -> (r: Result<
        BenchmarkResult,
        BenchError,
    >)
        ensures
            r matches Ok(res) ==> reports(
                res,
                Operation::UpdateMultipleFieldsOneEntry,
                count as nat,
            ),
    ;

    fn update_multiple_fields_many_entries(&self, count: usize) -> (r: Result<
        BenchmarkResult,
        BenchError,
    >)
        ensures
            r matches Ok(res) ==> reports(
                res,
                Operation::UpdateMultipleFieldsManyEntries,
                count as nat,
            ),
    ;

    /// Runs the eleven operations strictly in the canonical order with the
    /// canonical counts; the first failure ends the run with that operation's
    /// error, and a full run returns the operations' own results in order,
    /// under the backend's name.
    fn run_all_benchmarks(&self) -> (r: Result<BenchmarkResults, BenchError>)
        ensures
            r matches Ok(s) ==> {
            &&& is_canonical_run(s.results@)
            &&& call_ensures(Self::insert_single_many_times, (self, 2000usize), Ok::<BenchmarkResult, BenchError>(s.results@[0]))
            &&& call_ensures(Self::insert_many_at_once, (self, 1000usize), Ok::<BenchmarkResult, BenchError>(s.results@[1]))
            &&& call_ensures(Self::read_by_id_many_times, (self, 1000usize), Ok::<BenchmarkResult, BenchError>(s.results@[2]))
            &&& call_ensures(Self::read_many_by_ids, (self, 2000usize), Ok::<BenchmarkResult, BenchError>(s.results@[3]))
            &&& call_ensures(Self::read_by_column_search, (self, 2000usize), Ok::<BenchmarkResult, BenchError>(s.results@[4]))
            &&& call_ensures(Self::read_with_one_join, (self, 2000usize), Ok::<BenchmarkResult, BenchError>(s.results@[5]))
            &&& call_ensures(Self::read_with_two_joins, (self, 2000usize), Ok::<BenchmarkResult, BenchError>(s.results@[6]))
            &&& call_ensures(Self::update_single_field_one_entry, (self, 500usize), Ok::<BenchmarkResult, BenchError>(s.results@[7]))
            &&& call_ensures(Self::update_single_field_many_entries, (self, 1000usize), Ok::<BenchmarkResult, BenchError>(s.results@[8]))
            &&& call_ensures(Self::update_multiple_fields_one_entry, (self, 200usize), Ok::<BenchmarkResult, BenchError>(s.results@[9]))
            &&& call_ensures(Self::update_multiple_fields_many_entries, (self, 5000usize), Ok::<BenchmarkResult, BenchError>(s.results@[10]))
            &&& call_ensures(Self::database_name, (self,), s.database)
            },
            r matches Err(e) ==> {
                ||| call_ensures(Self::insert_single_many_times, (self, 2000usize), Err::<BenchmarkResult, BenchError>(e))
                ||| call_ensures(Self::insert_many_at_once, (self, 1000usize), Err::<BenchmarkResult, BenchError>(e))
                ||| call_ensures(Self::read_by_id_many_times, (self, 1000usize), Err::<BenchmarkResult, BenchError>(e))
                ||| call_ensures(Self::read_many_by_ids, (self, 2000usize), Err::<BenchmarkResult, BenchError>(e))
                ||| call_ensures(Self::read_by_column_search, (self, 2000usize), Err::<BenchmarkResult, BenchError>(e))
                ||| call_ensures(Self::read_with_one_join, (self, 2000usize), Err::<BenchmarkResult, BenchError>(e))
                ||| call_ensures(Self::read_with_two_joins, (self, 2000usize), Err::<BenchmarkResult, BenchError>(e))
                ||| call_ensures(Self::update_single_field_one_entry, (self, 500usize), Err::<BenchmarkResult, BenchError>(e))
                ||| call_ensures(Self::update_single_field_many_entries, (self, 1000usize), Err::<BenchmarkResult, BenchError>(e))
                ||| call_ensures(Self::update_multiple_fields_one_entry, (self, 200usize), Err::<BenchmarkResult, BenchError>(e))
                ||| call_ensures(Self::update_multiple_fields_many_entries, (self, 5000usize), Err::<BenchmarkResult, BenchError>(e))
            },
    {
        let mut results: Vec<BenchmarkResult> = Vec::new();
        results.push(self.insert_single_many_times(Operation::InsertSingleManyTimes.operation_count())?);
        results.push(self.insert_many_at_once(Operation::InsertManyAtOnce.operation_count())?);
        results.push(self.read_by_id_many_times(Operation::ReadByIdManyTimes.operation_count())?);
        results.push(self.read_many_by_ids(Operation::ReadManyByIds.operation_count())?);
        results.push(self.read_by_column_search(Operation::ReadByColumnSearch.operation_count())?);
        results.push(self.read_with_one_join(Operation::ReadWithOneJoin.operation_count())?);
        results.push(self.read_with_two_joins(Operation::ReadWithTwoJoins.operation_count())?);
        results.push(
            self.update_single_field_one_entry(
                Operation::UpdateSingleFieldOneEntry.operation_count(),
            )?,
        );
        results.push(
            self.update_single_field_many_entries(
                Operation::UpdateSingleFieldManyEntries.operation_count(),
            )?,
        );
        results.push(
            self.update_multiple_fields_one_entry(
                Operation::UpdateMultipleFieldsOneEntry.operation_count(),
            )?,
        );
        results.push(
            self.update_multiple_fields_many_entries(
                Operation::UpdateMultipleFieldsManyEntries.operation_count(),
            )?,
        );
        let database = self.database_name();
        let timestamp = now_timestamp();
        Ok(BenchmarkResults { database, results, timestamp })
    }
}

} // verus!
