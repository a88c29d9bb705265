//! The failures that cross the boundary with the engine, and how a
//! command-line caller reports them.

use vstd::prelude::*;

verus! {

/// A recoverable failure. Each one surfaces at the call that produced it;
/// nothing is retried.
#[derive(Debug, PartialEq, Eq)]
pub enum Error {
    /// The engine could not read its input, or the input was malformed. Holds
    /// the engine's message as it was given.
    Parse(String),
    /// The engine could not write its output. Holds the engine's message as
    /// it was given.
    Write(String),
    /// A host argument has no NUL-terminated form: the argument at index
    /// `argument` holds a NUL byte at byte offset `position`.
    ArgumentConversion { argument: usize, position: usize },
}

/// The exit status of a run that ended in `outcome`: zero for success, one
/// for every failure.
pub open spec fn status_of(outcome: Result<(), Error>) -> int {
    if outcome is Ok {
        0
    } else {
        1
    }
}

/// The process exit status with which a command-line caller ends after
/// `outcome`.
pub fn exit_status(outcome: &Result<(), Error>) -> (code: i32)
    ensures
        code == status_of(*outcome),
{
    match outcome {
        Ok(_) => 0,
        Err(_) => 1,
    }
}

} // verus!
