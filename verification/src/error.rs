//! The ways in which a lookup can fail.

use vstd::prelude::*;

verus! {

/// Why a lookup failed, as a mathematical value: the view of a
/// [`LookupError`].
pub enum LookupFailure {
    UnsupportedPlatform,
    CommandExecutionFailed,
    CommandNonZeroExit { code: Option<i32> },
    PidColumnMissing { line: Seq<char>, offset: nat },
    PidParseError { token: Seq<char> },
    NoProcessForPort { port: u16 },
}

/// Why a lookup failed. Every failure ends the lookup: nothing is tried
/// again.
#[derive(Debug, Clone, PartialEq, Eq)]
pub enum LookupError {
    /// No connection-listing command is known for the platform.
    UnsupportedPlatform,
    /// The command could not be started.
    CommandExecutionFailed,
    /// The command ran and reported failure. `code` is its exit code, if it
    /// had one.
    CommandNonZeroExit { code: Option<i32> },
    /// A row names the port, but ends before the column that holds the
    /// process identifier. `offset` counts the tokens that were expected
    /// between the port's token and that column.
    PidColumnMissing { line: String, offset: usize },
    /// A row names the port, but the token in the process identifier's
    /// column is not an unsigned number.
    PidParseError { token: String },
    /// No row names the port.
    NoProcessForPort { port: u16 },
}

impl View for LookupError {
    type V = LookupFailure;

    open spec fn view(&self) -> LookupFailure {
        match *self {
            LookupError::UnsupportedPlatform => LookupFailure::UnsupportedPlatform,
            LookupError::CommandExecutionFailed => LookupFailure::CommandExecutionFailed,
            LookupError::CommandNonZeroExit { code } => LookupFailure::CommandNonZeroExit { code },
            LookupError::PidColumnMissing { line, offset } => LookupFailure::PidColumnMissing {
                line: line@,
                offset: offset as nat,
            },
            LookupError::PidParseError { token } => LookupFailure::PidParseError { token: token@ },
            LookupError::NoProcessForPort { port } => LookupFailure::NoProcessForPort { port },
        }
    }
}

/// The view of a lookup's result: the process identifier as it is, a failure
/// by its view.
pub open spec fn result_view(r: Result<u32, LookupError>) -> Result<u32, LookupFailure> {
    match r {
        Ok(pid) => Ok(pid),
        Err(e) => Err(e@),
    }
}

} // verus!
