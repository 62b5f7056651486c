//! What the program's surroundings answer when the decision logic asks
//! for outside work: the contents of a line-oriented file, and the outcome
//! of an SQL query.
use vstd::prelude::*;

verus! {

/// A text file read line by line: absent, or the lines read (each with
/// its line end) and, where reading stopped on an error, that error's text.
pub enum ListFile {
    Missing,
    Read(Vec<String>, Option<String>),
}

/// An SQL error as the program prints it: with `{}` (`shown`) and with
/// `{:?}` (`debug`).
pub struct SqlError {
    pub shown: String,
    pub debug: String,
}

/// The outcome of an SQL query: preparing the statement failed, running it
/// failed, or it produced rows (of type `T`).
pub enum QueryReply<T> {
    PrepareFailed(SqlError),
    QueryFailed(SqlError),
    Rows(T),
}

} // verus!
