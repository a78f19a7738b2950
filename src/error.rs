//! The errors that asking a question can end in.
use vstd::prelude::*;

verus! {

/// std's `io::Error`, the failure of a read, carried through unopened.
#[verifier::external_type_specification]
#[verifier::external_body]
pub struct ExIoError(std::io::Error);

/// Why a question produced no answer.
#[derive(Debug)]
pub enum PromptError {
    /// The answer was rejected; the text says why and is shown to the user.
    ValidateError(String),
    /// The ask loop ended without accepting or failing: a defect, never a
    /// condition that callers are meant to handle.
    InconcievableError(),
    /// Reading the answer failed.
    InputError(std::io::Error),
}

/// `out` is a rejection whose message is `msg`.
pub open spec fn rejects_with(out: Result<String, PromptError>, msg: Seq<char>) -> bool {
    out matches Err(PromptError::ValidateError(m)) && m@ == msg
}

} // verus!
