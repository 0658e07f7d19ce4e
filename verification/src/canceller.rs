use std::sync::atomic::{AtomicBool, Ordering};
use std::sync::Arc;
use vstd::prelude::*;

verus! {

/// A handle that allows the cancellation of a running service loop.
///
/// Every clone refers to the same flag. The flag starts out as "keep running" and
/// nothing ever sets it back once it has been cancelled.
#[derive(Clone)]
pub struct Canceller {
    keep_running: Arc<AtomicBool>,
}

impl Canceller {
    /// A canceller with a flag of its own, which says "keep running".
    pub fn new() -> Canceller {
        Canceller { keep_running: Arc::new(AtomicBool::new(true)) }
    }

    /// Cancel the service loop that watches this flag.
    ///
    /// This does not interrupt a step that is under way: the loop returns the next
    /// time it would have started one.
    pub fn cancel(&self) {
        self.keep_running.store(false, Ordering::SeqCst);
    }

    /// Whether the flag has been cancelled, as far as this moment shows.
    pub fn is_cancelled(&self) -> bool {
        !self.keep_running.load(Ordering::SeqCst)
    }
}

} // verus!
