use vstd::prelude::*;

verus! {

/// Indicate whether the service loop should continue accepting new work.
#[derive(Clone, Copy, Debug, PartialEq, Eq, Structural)]
pub enum LoopState {
    /// Accept more work.
    Continue,
    /// Stop accepting work and return.
    Break,
}

/// What a loop does with the outcome of one step: `None` where it goes on to the
/// next step, and otherwise the result that the whole loop ends with.
///
/// `Continue` goes on, `Break` ends the loop in success, and an error ends it with
/// that same error.
pub open spec fn settled<E>(outcome: Result<LoopState, E>) -> Option<Result<(), E>> {
    match outcome {
        Ok(LoopState::Continue) => None,
        Ok(LoopState::Break) => Some(Ok(())),
        Err(e) => Some(Err(e)),
    }
}

/// Decide from the outcome of one step whether the loop goes on (`None`) or ends,
/// and with which result.
pub fn settle<E>(outcome: Result<LoopState, E>) -> (r: Option<Result<(), E>>)
    ensures
        r == settled(outcome),
{
    match outcome {
        Ok(LoopState::Continue) => None,
        Ok(LoopState::Break) => Some(Ok(())),
        Err(e) => Some(Err(e)),
    }
}

} // verus!
