//! The shutdown signal that the loops of one process share.

use vstd::prelude::*;
use std::sync::atomic::AtomicBool;
use std::sync::atomic::Ordering;
use std::sync::Arc;

verus! {

/// A flag that stays up until someone asks for shutdown. Every holder of a
/// share sees the request; a loop looks at the flag between two receives.
///
/// The flag is read and written by several threads at once, so no contract
/// ties what one call reads to what another wrote.
pub struct RunFlag {
    flag: Arc<AtomicBool>,
}

impl RunFlag {
    /// A flag that is up.
    pub fn new() -> RunFlag {
        RunFlag { flag: Arc::new(AtomicBool::new(true)) }
    }

    /// Whether no shutdown has been asked for yet.
    pub fn is_up(&self) -> bool {
        self.flag.load(Ordering::Relaxed)
    }

    /// Asks for shutdown.
    pub fn lower(&self) {
        self.flag.store(false, Ordering::Relaxed);
    }

    /// Another handle on the same flag: the two cannot be told apart.
    pub fn share(&self) -> (shared: RunFlag)
        ensures
            shared == *self,
    {
        RunFlag { flag: self.flag.clone() }
    }
}

} // verus!
