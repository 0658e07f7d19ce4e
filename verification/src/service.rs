use crate::canceller::Canceller;
use crate::outcome::{settle, LoopState};
use crate::trace::{advanced, continues, ran, ran_until_cancelled, spends};
use vstd::prelude::*;

verus! {

/// A service that implements `Cancellable` can be told to stop accepting new work at
/// any time, and will return at the first following opportunity.
///
/// More concretely, it emulates a loop that fetches some work and does it, where the
/// work might fail, but where the loop can be cancelled: after the piece of work that
/// is under way, no more work is handled, and the loop returns.
///
/// An implementor writes [`Cancellable::for_each`], one step of the loop, and may say
/// in [`Cancellable::step`] what a step does and in [`Cancellable::budget`] how long
/// the service goes on. What the loops of this trait promise is stated over these
/// two. Left as they are, they say that a step may do anything and that the service
/// may go on forever.
pub trait Cancellable: Sized {
    /// Error type for [`Cancellable::for_each`].
    type Error;

    /// Whether one step may take the service from `pre` to `post` and return `outcome`.
    open spec fn step(pre: Self, post: Self, outcome: Result<LoopState, Self::Error>) -> bool {
        true
    }

    /// An upper bound on the number of steps that may still return `Continue`, where
    /// the service declares one. A service that may go on forever has none.
    open spec fn budget(&self) -> Option<nat> {
        None
    }

    /// This method is called once for every iteration of the loop.
    ///
    /// If it errors, the service loop returns with that same error. If it returns a
    /// `LoopState`, the service loop continues or breaks accordingly.
    fn for_each(&mut self) -> (outcome: Result<LoopState, Self::Error>)
        ensures
            Self::step(*old(self), *final(self), outcome),
            spends(old(self).budget(), final(self).budget(), outcome),
    ;

    /// Continuously execute [`Cancellable::for_each`] until it returns an error or a
    /// [`LoopState::Break`].
    ///
    /// The loop is shown to end for a service with a budget. It runs on the current
    /// thread and returns only when the service breaks or fails.
    fn run(&mut self) -> (r: Result<(), Self::Error>)
        requires
            old(self).budget() is Some,
        ensures
            ran(
                |a: Self, b: Self, o: Result<LoopState, Self::Error>| Self::step(a, b, o),
                *old(self),
                *final(self),
                r,
            ),
    {
        let ghost mut states: Seq<Self> = seq![*self];
        loop
            invariant
                continues(
                    |a: Self, b: Self, o: Result<LoopState, Self::Error>| Self::step(a, b, o),
                    states,
                ),
                states.len() > 0,
                states[0] == *old(self),
                states.last() == *self,
                self.budget() is Some,
            decreases self.budget().unwrap(),
        {
            let outcome = self.for_each();
            match settle(outcome) {
                Some(r) => {
                    return r;
                },
                None => {
                    proof {
                        states = states.push(*self);
                    }
                },
            }
        }
    }

    /// Take one turn of a cancellable loop, given what the flag read at its start.
    ///
    /// Where `keep_running` is `false` the service is left alone and the loop ends in
    /// success. Otherwise [`Cancellable::for_each`] is called once, and its outcome
    /// decides whether the loop goes on (`None`) or ends (`Some`). The flag is not
    /// looked at again during the turn: a step that has begun is carried through.
    fn advance(&mut self, keep_running: bool) -> (r: Option<Result<(), Self::Error>>)
        ensures
            advanced(
                |a: Self, b: Self, o: Result<LoopState, Self::Error>| Self::step(a, b, o),
                *old(self),
                *final(self),
                keep_running,
                r,
            ),
            r is None ==> spends(
                old(self).budget(),
                final(self).budget(),
                Ok::<LoopState, Self::Error>(LoopState::Continue),
            ),
    {
        if keep_running {
            let outcome = self.for_each();
            settle(outcome)
        } else {
            Some(Ok(()))
        }
    }

    /// Continuously execute [`Cancellable::for_each`] until it returns an error or a
    /// [`LoopState::Break`], or until `canceller` is found cancelled between two steps.
    ///
    /// Cancellation is no error: a loop that ends because of it returns `Ok(())`.
    /// When the flag is read, and what it reads, is not for this loop to know, so the
    /// promise holds whatever was read; [`Cancellable::advance`] says what each
    /// reading leads to.
    fn run_cancellable(&mut self, canceller: &Canceller) -> (r: Result<(), Self::Error>)
        requires
            old(self).budget() is Some,
        ensures
            ran_until_cancelled(
                |a: Self, b: Self, o: Result<LoopState, Self::Error>| Self::step(a, b, o),
                *old(self),
                *final(self),
                r,
            ),
    {
        let ghost mut states: Seq<Self> = seq![*self];
        loop
            invariant
                continues(
                    |a: Self, b: Self, o: Result<LoopState, Self::Error>| Self::step(a, b, o),
                    states,
                ),
                states.len() > 0,
                states[0] == *old(self),
                states.last() == *self,
                self.budget() is Some,
            decreases self.budget().unwrap(),
        {
            let keep_running = !canceller.is_cancelled();
            match self.advance(keep_running) {
                Some(r) => {
                    return r;
                },
                None => {
                    proof {
                        states = states.push(*self);
                    }
                },
            }
        }
    }
}

} // verus!
