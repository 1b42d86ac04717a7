//! The origin fetcher's decisions. The request itself is made by the caller,
//! once and without a retry; what came of it is judged here.

use vstd::prelude::*;
use crate::error::PipelineError;

verus! {

/// What came of the one request to the origin.
#[derive(Debug)]
pub enum FetchOutcome {
    /// The origin answered.
    Responded { status: u16, body: Vec<u8> },
    /// No answer arrived: the name did not resolve, the connection or the
    /// handshake failed, or time ran out.
    Unreachable,
}

/// A status that reports success: 200 to 299.
pub open spec fn is_success(status: u16) -> bool {
    200 <= status <= 299
}

/// Takes the body of a successful answer as the raw image, and turns every
/// other outcome into its error.
pub fn classify(outcome: FetchOutcome) -> (r: Result<Vec<u8>, PipelineError>)
    ensures
        match outcome {
            FetchOutcome::Responded { status, body } => if is_success(status) {
                r matches Ok(raw) && raw@ == body@
            } else {
                r matches Err(e) && e == PipelineError::OriginFetchFailed(status)
            },
            FetchOutcome::Unreachable => r matches Err(e) && e == PipelineError::OriginUnreachable,
        },
{
    match outcome {
        FetchOutcome::Responded { status, body } => if 200 <= status && status <= 299 {
            Ok(body)
        } else {
            Err(PipelineError::OriginFetchFailed(status))
        },
        FetchOutcome::Unreachable => Err(PipelineError::OriginUnreachable),
    }
}

} // verus!
