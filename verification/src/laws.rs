use crate::outcome::{settled, LoopState};
use crate::trace::{advanced, continues, ran, ran_until_cancelled, stepped};
use vstd::prelude::*;

verus! {

/// Putting a state in front of a chain of `Continue` steps, where a `Continue` step
/// leads from it to the chain's first state, gives such a chain again.
proof fn chain_after_step<T, E>(
    step: spec_fn(T, T, Result<LoopState, E>) -> bool,
    pre: T,
    states: Seq<T>,
)
    requires
        continues(step, states),
        states.len() > 0,
        step(pre, states[0], Ok(LoopState::Continue)),
    ensures
        continues(step, seq![pre] + states),
        (seq![pre] + states).last() == states.last(),
{
    let longer = seq![pre] + states;
    assert forall|i: int| 0 <= i < longer.len() - 1 implies step(
        #[trigger] longer[i],
        longer[i + 1],
        Ok(LoopState::Continue),
    ) by {
        if i > 0 {
            assert(longer[i] == states[i - 1]);
            assert(longer[i + 1] == states[i - 1 + 1]);
        }
    }
}

/// Dropping the first state of a chain of `Continue` steps that has a second one
/// gives such a chain again.
proof fn chain_without_first<T, E>(
    step: spec_fn(T, T, Result<LoopState, E>) -> bool,
    states: Seq<T>,
)
    requires
        continues(step, states),
        states.len() > 1,
    ensures
        continues(step, states.subrange(1, states.len() as int)),
        states.subrange(1, states.len() as int).last() == states.last(),
        step(states[0], states[1], Ok(LoopState::Continue)),
{
    let shorter = states.subrange(1, states.len() as int);
    assert forall|i: int| 0 <= i < shorter.len() - 1 implies step(
        #[trigger] shorter[i],
        shorter[i + 1],
        Ok(LoopState::Continue),
    ) by {
        assert(shorter[i] == states[i + 1]);
        assert(shorter[i + 1] == states[i + 1 + 1]);
    }
    assert(step(states[0], states[0int + 1], Ok(LoopState::Continue)));
}

/// A loop ends in `post` with `r` exactly if its first step ends it so, or its first
/// step returns `Continue` and the loop from the state after that step ends so.
pub proof fn ran_unfolds<T, E>(
    step: spec_fn(T, T, Result<LoopState, E>) -> bool,
    pre: T,
    post: T,
    r: Result<(), E>,
)
    ensures
        ran(step, pre, post, r) <==> {
            ||| stepped(step, pre, post, Some(r))
            ||| exists|mid: T|
                step(pre, mid, Ok(LoopState::Continue)) && #[trigger] ran(step, mid, post, r)
        },
{
    if ran(step, pre, post, r) {
        let states = choose|states: Seq<T>|
            #[trigger] continues(step, states) && states.len() > 0 && states[0] == pre && stepped(
                step,
                states.last(),
                post,
                Some(r),
            );
        if states.len() > 1 {
            chain_without_first(step, states);
            let rest = states.subrange(1, states.len() as int);
            assert(rest[0] == states[1]);
            assert(ran(step, states[1], post, r));
        }
    }
    if stepped(step, pre, post, Some(r)) {
        assert(continues(step, seq![pre]));
        assert(seq![pre].last() == pre);
    }
    if exists|mid: T|
        step(pre, mid, Ok(LoopState::Continue)) && #[trigger] ran(step, mid, post, r) {
        let mid = choose|mid: T|
            step(pre, mid, Ok(LoopState::Continue)) && #[trigger] ran(step, mid, post, r);
        let states = choose|states: Seq<T>|
            #[trigger] continues(step, states) && states.len() > 0 && states[0] == mid && stepped(
                step,
                states.last(),
                post,
                Some(r),
            );
        chain_after_step(step, pre, states);
        assert((seq![pre] + states)[0] == pre);
    }
}

/// A cancellable loop ends in `post` with `r` exactly if it is found cancelled at
/// once, so that it ends in success where it started; or its first step ends it so;
/// or its first step returns `Continue` and the cancellable loop from the state
/// after that step ends so.
pub proof fn ran_until_cancelled_unfolds<T, E>(
    step: spec_fn(T, T, Result<LoopState, E>) -> bool,
    pre: T,
    post: T,
    r: Result<(), E>,
)
    ensures
        ran_until_cancelled(step, pre, post, r) <==> {
            ||| (post == pre && r == Ok::<(), E>(()))
            ||| stepped(step, pre, post, Some(r))
            ||| exists|mid: T|
                step(pre, mid, Ok(LoopState::Continue)) && #[trigger] ran_until_cancelled(
                    step,
                    mid,
                    post,
                    r,
                )
        },
{
    if ran_until_cancelled(step, pre, post, r) {
        let states = choose|states: Seq<T>|
            #[trigger] continues(step, states) && states.len() > 0 && states[0] == pre && ({
                ||| (post == states.last() && r == Ok::<(), E>(()))
                ||| stepped(step, states.last(), post, Some(r))
            });
        if states.len() > 1 {
            chain_without_first(step, states);
            let rest = states.subrange(1, states.len() as int);
            assert(rest[0] == states[1]);
            assert(ran_until_cancelled(step, states[1], post, r));
        }
    }
    if (post == pre && r == Ok::<(), E>(())) || stepped(step, pre, post, Some(r)) {
        assert(continues(step, seq![pre]));
        assert(seq![pre].last() == pre);
    }
    if exists|mid: T|
        step(pre, mid, Ok(LoopState::Continue)) && #[trigger] ran_until_cancelled(
            step,
            mid,
            post,
            r,
        ) {
        let mid = choose|mid: T|
            step(pre, mid, Ok(LoopState::Continue)) && #[trigger] ran_until_cancelled(
                step,
                mid,
                post,
                r,
            );
        let states = choose|states: Seq<T>|
            #[trigger] continues(step, states) && states.len() > 0 && states[0] == mid && ({
                ||| (post == states.last() && r == Ok::<(), E>(()))
                ||| stepped(step, states.last(), post, Some(r))
            });
        chain_after_step(step, pre, states);
        assert((seq![pre] + states)[0] == pre);
    }
}

/// Whatever a loop may do, a cancellable loop may do as well: the one that is never
/// found cancelled.
pub proof fn ran_is_ran_until_cancelled<T, E>(
    step: spec_fn(T, T, Result<LoopState, E>) -> bool,
    pre: T,
    post: T,
    r: Result<(), E>,
)
    requires
        ran(step, pre, post, r),
    ensures
        ran_until_cancelled(step, pre, post, r),
{
}

/// A turn that ends the loop with `r` is by itself a cancellable loop that ends with
/// `r`; where the flag said "keep running" it is a loop that ends with `r` because of
/// its step, and where it did not, the loop ends in success with the service untouched.
pub proof fn last_turn<T, E>(
    step: spec_fn(T, T, Result<LoopState, E>) -> bool,
    pre: T,
    post: T,
    keep_running: bool,
    r: Result<(), E>,
)
    requires
        advanced(step, pre, post, keep_running, Some(r)),
    ensures
        ran_until_cancelled(step, pre, post, r),
        keep_running ==> ran(step, pre, post, r),
        !keep_running ==> post == pre && r == Ok::<(), E>(()),
{
    ran_unfolds(step, pre, post, r);
    ran_until_cancelled_unfolds(step, pre, post, r);
}

/// A turn after which the loop goes on has taken one step that returned `Continue`,
/// and whatever the cancellable loop does from there, the loop with that turn in
/// front does too.
pub proof fn turn_then_loop<T, E>(
    step: spec_fn(T, T, Result<LoopState, E>) -> bool,
    pre: T,
    mid: T,
    post: T,
    keep_running: bool,
    r: Result<(), E>,
)
    requires
        advanced(step, pre, mid, keep_running, None),
        ran_until_cancelled(step, mid, post, r),
    ensures
        keep_running,
        step(pre, mid, Ok(LoopState::Continue)),
        ran_until_cancelled(step, pre, post, r),
{
    let outcome = choose|outcome: Result<LoopState, E>|
        step(pre, mid, outcome) && #[trigger] settled(outcome) == None::<Result<(), E>>;
    assert(outcome == Ok::<LoopState, E>(LoopState::Continue));
    ran_until_cancelled_unfolds(step, pre, post, r);
}

} // verus!
