//! Cooperative cancellation: a one-way flag shared by every clone of a token.
use vstd::prelude::*;
use std::sync::Arc;
use std::sync::atomic::{AtomicBool, Ordering};

verus! {

/// A clonable cancellation signal. Clones share one flag, which only ever goes
/// from active to cancelled. The flag is shared with other clones and threads,
/// so no call can promise what a later `is_cancelled` sees.
#[derive(Clone, Debug)]
pub struct CancellationToken {
    cancelled: Arc<AtomicBool>,
}

impl CancellationToken {
    /// A new, active token.
    pub fn new() -> (r: Self) {
        CancellationToken { cancelled: Arc::new(AtomicBool::new(false)) }
    }

    /// Cancels the token for every clone. Calling it again changes nothing:
    /// the only value ever stored is `true`.
    pub fn cancel(&self) {
        self.cancelled.store(true, Ordering::SeqCst);
    }

    /// Whether any clone has cancelled the token; never suspends.
    pub fn is_cancelled(&self) -> (r: bool) {
        self.cancelled.load(Ordering::SeqCst)
    }
}

} // verus!
