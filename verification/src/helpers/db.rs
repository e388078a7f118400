use vstd::prelude::*;
use vstd::string::StringExecFns;

verus! {

/// Sets the timeout behaviour of each SQLite connection as it is acquired.
#[derive(Debug, Clone, Copy)]
pub struct BusyWaitConnectionCustomizer;

impl BusyWaitConnectionCustomizer {
    /// The statements run on every connection: wait up to a second for a
    /// busy database, and use write-ahead logging.
    pub fn statements(&self) -> (r: Vec<String>)
        ensures
            r@.len() == 2,
            r@[0]@ == "PRAGMA busy_timeout = 1000;"@,
            r@[1]@ == "PRAGMA journal_mode = WAL;"@,
    {
        let mut r: Vec<String> = Vec::new();
        r.push(String::from_str("PRAGMA busy_timeout = 1000;"));
        r.push(String::from_str("PRAGMA journal_mode = WAL;"));
        r
    }
}

} // verus!
