//! The progress ticker: a pause of some seconds after which the panel
//! looks for a progress report, and the reading of such a report
//! (`Progress|<done>|<total>|<text>`).
use vstd::prelude::*;
use crate::text::{
    chars_of, parse_i32, parse_i32_spec, split_bars, split_fields, string_of,
};

verus! {

/// The error of a background step. No step of the program produces one.
#[derive(Debug, Clone)]
pub enum Error {
    Failed,
}

/// The result of a finished pause.
#[derive(Debug, Clone)]
pub struct Progstart {}

impl Progstart {
    /// The result of a pause of `numsecs` seconds, once it is over (the
    /// waiting itself is done by the caller: none when `numsecs` is 0).
    pub fn pstart(numsecs: u64) -> (r: Result<Progstart, Error>)
        ensures
            r is Ok,
    {
        Ok(Progstart {})
    }
}

/// A progress report as the panel reads it.
#[derive(Debug)]
pub enum ProgressReading {
    /// `done` of `total`, and the report's text.
    Step { done: i32, total: i32, text: String },
    /// A report whose numbers do not parse.
    NotNumeric,
    /// Not a progress report.
    NotProgress,
}

/// The value of a number field: its `i32` value, or `-9999` when it does
/// not parse.
pub open spec fn number_field(s: Seq<char>) -> i32 {
    match parse_i32_spec(s) {
        Some(v) => v,
        None => -9999i32,
    }
}

/// How the panel reads the message `m`: four `|`-separated fields, the
/// first `Progress`, the next two numbers (where a number reads as -9999,
/// the report counts as not numeric).
pub open spec fn reading_of(m: Seq<char>) -> (u8, i32, i32, Seq<char>) {
    let f = split_fields(m);
    if f.len() != 4 || f[0] != "Progress"@ {
        (2, 0, 0, Seq::empty())
    } else if number_field(f[1]) == -9999 || number_field(f[2]) == -9999 {
        (1, 0, 0, Seq::empty())
    } else {
        (0, number_field(f[1]), number_field(f[2]), f[3])
    }
}

/// The shape of a `ProgressReading`, in the form of `reading_of`.
pub open spec fn reading_view(r: ProgressReading) -> (u8, i32, i32, Seq<char>) {
    match r {
        ProgressReading::Step { done, total, text } => (0, done, total, text@),
        ProgressReading::NotNumeric => (1, 0, 0, Seq::empty()),
        ProgressReading::NotProgress => (2, 0, 0, Seq::empty()),
    }
}

fn number_of(s: &Vec<char>) -> (r: i32)
    ensures
        r == number_field(s@),
{
    match parse_i32(s) {
        Some(v) => v,
        None => -9999,
    }
}

/// Reads a progress message.
pub fn read_progress(message: &String) -> (r: ProgressReading)
    ensures
        reading_view(r) == reading_of(message@),
{
    let fields = split_bars(&chars_of(message.as_str()));
    if fields.len() != 4 {
        return ProgressReading::NotProgress;
    }
    let head = string_of(fields[0].clone());
    let word = String::from_str("Progress");
    if !head.eq(&word) {
        return ProgressReading::NotProgress;
    }
    let done = number_of(&fields[1]);
    if done == -9999 {
        return ProgressReading::NotNumeric;
    }
    let total = number_of(&fields[2]);
    if total == -9999 {
        return ProgressReading::NotNumeric;
    }
    ProgressReading::Step { done, total, text: string_of(fields[3].clone()) }
}

} // verus!
