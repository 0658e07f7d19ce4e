use crate::outcome::{settled, LoopState};
use vstd::prelude::*;

verus! {

/// Whether a step that returned `outcome` keeps to a declared budget: from a state
/// with a budget, a `Continue` leads to a state with a smaller one.
pub open spec fn spends<E>(
    before: Option<nat>,
    after: Option<nat>,
    outcome: Result<LoopState, E>,
) -> bool {
    before is Some && outcome == Ok::<LoopState, E>(LoopState::Continue) ==> after is Some
        && after.unwrap() < before.unwrap()
}

/// Whether each state of `states` but the last leads to the one after it by a step
/// that returned `Continue`.
pub open spec fn continues<T, E>(
    step: spec_fn(T, T, Result<LoopState, E>) -> bool,
    states: Seq<T>,
) -> bool {
    forall|i: int|
        0 <= i < states.len() - 1 ==> step(
            #[trigger] states[i],
            states[i + 1],
            Ok(LoopState::Continue),
        )
}

/// Whether one step may take `pre` to `post` with an outcome that a loop settles as
/// `r`: `None` to go on, or the result that it ends with.
pub open spec fn stepped<T, E>(
    step: spec_fn(T, T, Result<LoopState, E>) -> bool,
    pre: T,
    post: T,
    r: Option<Result<(), E>>,
) -> bool {
    exists|outcome: Result<LoopState, E>|
        step(pre, post, outcome) && #[trigger] settled(outcome) == r
}

/// Whether a loop of steps that started in `pre` may end in `post` with result `r`:
/// after any number of steps that returned `Continue`, one more step returned `Break`
/// (for `Ok`) or the error of `r`, and nothing was done after it.
///
/// The witness holds the state before each step, so it is as long as the number of
/// steps taken.
pub open spec fn ran<T, E>(
    step: spec_fn(T, T, Result<LoopState, E>) -> bool,
    pre: T,
    post: T,
    r: Result<(), E>,
) -> bool {
    exists|states: Seq<T>|
        #[trigger] continues(step, states) && states.len() > 0 && states[0] == pre && stepped(
            step,
            states.last(),
            post,
            Some(r),
        )
}

/// Whether a cancellable loop of steps that started in `pre` may end in `post` with
/// result `r`: after any number of steps that returned `Continue`, either the loop
/// was found cancelled and ended in success without another step, or one more step
/// ended it as in [`ran`].
pub open spec fn ran_until_cancelled<T, E>(
    step: spec_fn(T, T, Result<LoopState, E>) -> bool,
    pre: T,
    post: T,
    r: Result<(), E>,
) -> bool {
    exists|states: Seq<T>|
        #[trigger] continues(step, states) && states.len() > 0 && states[0] == pre && ({
            ||| (post == states.last() && r == Ok::<(), E>(()))
            ||| stepped(step, states.last(), post, Some(r))
        })
}

/// Whether one turn of a cancellable loop may take `pre` to `post` and give `r`, where
/// the flag read `keep_running` at the start of the turn.
///
/// A cancelled turn takes no step: the state stays and the loop ends in success.
/// Any other turn takes exactly one step, and what that step returned decides alone
/// whether the loop goes on (`None`) or ends, and with which result.
pub open spec fn advanced<T, E>(
    step: spec_fn(T, T, Result<LoopState, E>) -> bool,
    pre: T,
    post: T,
    keep_running: bool,
    r: Option<Result<(), E>>,
) -> bool {
    if keep_running {
        stepped(step, pre, post, r)
    } else {
        post == pre && r == Some(Ok::<(), E>(()))
    }
}

} // verus!
