use vstd::prelude::*;

verus! {

/// How a run can fail.
#[derive(Debug, Clone, Copy, PartialEq, Eq, Structural)]
pub enum Failure {
    /// The command line could not be read (missing URL, bad pair, ...).
    CliParse,
    /// The transport could not complete the exchange.
    Transport,
    /// The response could not be read as text.
    Encoding,
    /// The response declared JSON but its body is not JSON.
    InvalidJsonBody,
}

/// The process exit code for a run that ended in `failure`, or succeeded.
/// A command line that cannot be read ends the run with a diagnostic and
/// code 0; a failure after the request was built gives a non-zero code.
pub open spec fn exit_code_of(failure: Option<Failure>) -> i32 {
    match failure {
        None => 0,
        Some(Failure::CliParse) => 0,
        Some(Failure::Transport) => 1,
        Some(Failure::Encoding) => 1,
        Some(Failure::InvalidJsonBody) => 2,
    }
}

pub fn exit_code(failure: Option<Failure>) -> (r: i32)
    ensures
        r == exit_code_of(failure),
{
    match failure {
        None => 0,
        Some(Failure::CliParse) => 0,
        Some(Failure::Transport) => 1,
        Some(Failure::Encoding) => 1,
        Some(Failure::InvalidJsonBody) => 2,
    }
}

} // verus!
