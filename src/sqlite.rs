use vstd::prelude::*;

verus! {

/// The SQL that reads the users whose identifiers fill `n` placeholders.
pub open spec fn users_by_ids_sql(n: nat) -> Seq<char> {
    "SELECT id, name, email, created_at, active FROM users WHERE id IN ("@ + placeholder_list(n)
        + ")"@
}

/// `n` placeholders separated by commas.
pub open spec fn placeholder_list(n: nat) -> Seq<char>
    decreases n,
{
    if n == 0 {
        seq![]
    } else if n == 1 {
        seq!['?']
    } else {
        placeholder_list((n - 1) as nat) + seq![',', '?']
    }
}

/// The settings of the SQLite backend: where its database file lies and the
/// declared number of CPU cores.
pub struct SqliteBenchmark {
    db_path: String,
    cpu_count: usize,
}

impl SqliteBenchmark {
    pub closed spec fn path_spec(&self) -> Seq<char> {
        self.db_path@
    }

    pub closed spec fn cpu_count_spec(&self) -> nat {
        self.cpu_count as nat
    }

    /// Settings for the database file `./data/sqlite-benchmark.db`.
    pub fn new(cpu_count: usize) -> (r: Self)
        ensures
            r.path_spec() == "./data/sqlite-benchmark.db"@,
            r.cpu_count_spec() == cpu_count,
    {
        SqliteBenchmark { db_path: "./data/sqlite-benchmark.db".to_owned(), cpu_count }
    }

    /// The path of the database file.
    pub fn db_path(&self) -> (r: &str)
        ensures
            r@ == self.path_spec(),
    {
        self.db_path.as_str()
    }

    /// The backend's name, `SQLite`.
    pub fn database_name(&self) -> (r: String)
        ensures
            r@ == "SQLite"@,
    {
        "SQLite".to_owned()
    }

    /// Declares the number of CPU cores; SQLite takes no such setting, so it
    /// is only recorded.
    pub fn set_cpu_count(&mut self, count: usize)
        ensures
            final(self).cpu_count_spec() == count,
            final(self).path_spec() == old(self).path_spec(),
    {
        self.cpu_count = count;
    }

    /// The declared number of CPU cores.
    pub fn get_cpu_count(&self) -> (r: usize)
        ensures
            r == self.cpu_count_spec(),
    {
        self.cpu_count
    }

    /// The query that reads the users with `n` given identifiers at once.
    pub fn users_by_ids_query(n: usize) -> (r: String)
        ensures
            r@ == users_by_ids_sql(n as nat),
    {
        let mut list = String::new();
        let mut i: usize = 0;
        while i < n
            invariant
                i <= n,
                list@ == placeholder_list(i as nat),
            decreases n - i,
        {
            if i == 0 {
                list = list.concat("?");
            } else {
                list = list.concat(",?");
            }
            proof {
                reveal_strlit("?");
                reveal_strlit(",?");
                assert(list@ =~= placeholder_list((i + 1) as nat));
            }
            i = i + 1;
        }
        let head = "SELECT id, name, email, created_at, active FROM users WHERE id IN (".to_owned()
            .concat(list.as_str());
        head.concat(")")
    }
}

} // verus!
