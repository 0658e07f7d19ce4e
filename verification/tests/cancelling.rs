use minion::{Cancellable, Canceller, LoopState};

/// Handles one event per step and never stops by itself. While it handles the event
/// with number `cancel_at`, its own loop gets cancelled; the event with number
/// `fail_at` makes the step fail once it has been handled.
struct Listener {
    handled: Vec<u32>,
    cancel_at: u32,
    fail_at: u32,
    canceller: Canceller,
}

impl Listener {
    fn new(canceller: &Canceller, cancel_at: u32, fail_at: u32) -> Listener {
        Listener { handled: Vec::new(), cancel_at, fail_at, canceller: canceller.clone() }
    }
}

impl Cancellable for Listener {
    type Error = String;

    fn for_each(&mut self) -> Result<LoopState, String> {
        let event = self.handled.len() as u32 + 1;
        if event == self.cancel_at {
            self.canceller.cancel();
        }
        self.handled.push(event);
        if event == self.fail_at {
            Err(format!("event {}", event))
        } else {
            Ok(LoopState::Continue)
        }
    }
}

/// Replays a fixed list of outcomes, one per step, and counts the steps taken.
struct Script {
    outcomes: Vec<Result<LoopState, String>>,
    calls: usize,
}

impl Cancellable for Script {
    type Error = String;

    fn for_each(&mut self) -> Result<LoopState, String> {
        let outcome = self.outcomes[self.calls].clone();
        self.calls += 1;
        outcome
    }
}

fn script(outcomes: Vec<Result<LoopState, String>>) -> Script {
    Script { outcomes, calls: 0 }
}

#[test]
fn new_canceller_says_keep_running() {
    let canceller = Canceller::new();
    assert!(!canceller.is_cancelled());
}

#[test]
fn cancel_is_seen_afterwards() {
    let canceller = Canceller::new();
    canceller.cancel();
    assert!(canceller.is_cancelled());
}

#[test]
fn cancel_twice_is_cancel_once() {
    let once = Canceller::new();
    once.cancel();
    let twice = Canceller::new();
    twice.cancel();
    twice.cancel();
    assert_eq!(once.is_cancelled(), twice.is_cancelled());
    assert!(twice.is_cancelled());

    let mut unit = script(vec![Ok(LoopState::Break)]);
    assert_eq!(unit.run_cancellable(&twice), Ok(()));
    assert_eq!(unit.calls, 0);
}

#[test]
fn every_clone_cancels_the_same_loop() {
    for chosen in 0..4 {
        let canceller = Canceller::new();
        let clones = vec![canceller.clone(), canceller.clone(), canceller.clone().clone()];
        if chosen < 3 {
            clones[chosen].cancel();
        } else {
            canceller.cancel();
        }
        assert!(canceller.is_cancelled());
        for clone in &clones {
            assert!(clone.is_cancelled());
        }
        let mut unit = script(vec![Ok(LoopState::Continue), Ok(LoopState::Break)]);
        assert_eq!(unit.run_cancellable(&canceller), Ok(()));
        assert_eq!(unit.calls, 0);
    }
}

#[test]
fn cancellers_of_their_own_do_not_share_a_flag() {
    let first = Canceller::new();
    let second = Canceller::new();
    first.cancel();
    assert!(first.is_cancelled());
    assert!(!second.is_cancelled());
}

#[test]
fn advance_takes_no_step_once_cancelled() {
    let mut unit = script(vec![Err("never reached".to_string())]);
    assert_eq!(unit.advance(false), Some(Ok(())));
    assert_eq!(unit.calls, 0);
}

#[test]
fn advance_goes_on_after_continue() {
    let mut unit = script(vec![Ok(LoopState::Continue)]);
    assert_eq!(unit.advance(true), None);
    assert_eq!(unit.calls, 1);
}

#[test]
fn advance_ends_in_success_after_break() {
    let mut unit = script(vec![Ok(LoopState::Break)]);
    assert_eq!(unit.advance(true), Some(Ok(())));
    assert_eq!(unit.calls, 1);
}

#[test]
fn advance_ends_with_the_error() {
    let mut unit = script(vec![Err("boom".to_string())]);
    assert_eq!(unit.advance(true), Some(Err("boom".to_string())));
    assert_eq!(unit.calls, 1);
}

#[test]
fn cancelled_before_the_first_step() {
    let canceller = Canceller::new();
    canceller.cancel();
    let mut unit = Listener::new(&canceller, 0, 0);
    assert_eq!(unit.run_cancellable(&canceller), Ok(()));
    assert_eq!(unit.handled, Vec::<u32>::new());
}

#[test]
fn cancel_lets_the_step_under_way_finish() {
    let canceller = Canceller::new();
    let mut unit = Listener::new(&canceller, 3, 0);
    assert_eq!(unit.run_cancellable(&canceller), Ok(()));
    assert_eq!(unit.handled, vec![1, 2, 3]);
}

#[test]
fn cancel_during_the_first_step_allows_no_second() {
    let canceller = Canceller::new();
    let mut unit = Listener::new(&canceller, 1, 0);
    assert_eq!(unit.run_cancellable(&canceller), Ok(()));
    assert_eq!(unit.handled, vec![1]);
}

#[test]
fn error_of_a_cancelled_step_is_still_returned() {
    let canceller = Canceller::new();
    let mut unit = Listener::new(&canceller, 2, 2);
    assert_eq!(unit.run_cancellable(&canceller), Err("event 2".to_string()));
    assert_eq!(unit.handled, vec![1, 2]);
}

#[test]
fn uncancelled_loop_ends_at_break() {
    let canceller = Canceller::new();
    let mut unit = script(vec![
        Ok(LoopState::Continue),
        Ok(LoopState::Continue),
        Ok(LoopState::Break),
        Ok(LoopState::Continue),
    ]);
    assert_eq!(unit.run_cancellable(&canceller), Ok(()));
    assert_eq!(unit.calls, 3);
    assert!(!canceller.is_cancelled());
}

#[test]
fn uncancelled_loop_ends_at_error() {
    let canceller = Canceller::new();
    let mut unit = script(vec![Err("boom".to_string()), Ok(LoopState::Break)]);
    assert_eq!(unit.run_cancellable(&canceller), Err("boom".to_string()));
    assert_eq!(unit.calls, 1);
}

#[test]
fn cancel_after_the_loop_ended_is_harmless() {
    let canceller = Canceller::new();
    let mut unit = script(vec![Ok(LoopState::Break)]);
    assert_eq!(unit.run_cancellable(&canceller), Ok(()));
    canceller.cancel();
    canceller.cancel();
    assert!(canceller.is_cancelled());
    assert_eq!(unit.calls, 1);
}

#[test]
fn turns_taken_by_hand_make_the_same_loop() {
    let canceller = Canceller::new();
    let mut by_hand = Listener::new(&canceller, 3, 0);
    let result = loop {
        if let Some(r) = by_hand.advance(!canceller.is_cancelled()) {
            break r;
        }
    };

    let other = Canceller::new();
    let mut whole = Listener::new(&other, 3, 0);
    assert_eq!(whole.run_cancellable(&other), result);
    assert_eq!(whole.handled, by_hand.handled);
    assert_eq!(result, Ok(()));
    assert_eq!(by_hand.handled, vec![1, 2, 3]);
}
