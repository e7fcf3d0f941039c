//! The ways in which a resolver can fail.

use vstd::prelude::*;

verus! {

/// Why a resolver produced no answer.
#[derive(Clone, Copy, Debug, PartialEq, Eq, Structural)]
pub enum ResolveError {
    /// The request could not be completed.
    Transport,
    /// The response body is not JSON, or not JSON of the expected shape.
    Decode,
    /// The response is well formed and lists no candidate.
    NotFound,
}

/// The model of what a resolver returns: the text it found, or why it found
/// none.
pub open spec fn resolved(outcome: Result<String, ResolveError>) -> Result<
    Seq<char>,
    ResolveError,
> {
    match outcome {
        Ok(text) => Ok(text@),
        Err(error) => Err(error),
    }
}

/// The selection policy of both resolvers: the first candidate, whatever
/// follows it.
pub open spec fn first_candidate(candidates: Seq<Seq<char>>) -> Result<Seq<char>, ResolveError> {
    if candidates.len() > 0 {
        Ok(candidates[0])
    } else {
        Err(ResolveError::NotFound)
    }
}

} // verus!
