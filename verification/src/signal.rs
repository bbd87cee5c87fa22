//! A cooperative stop indicator shared between a job's owner and its workers.

use std::sync::atomic::AtomicBool;
use std::sync::atomic::Ordering;
use std::sync::Arc;
use vstd::prelude::*;

verus! {

/// A flag that can be raised once and read from any thread. Every clone
/// shares the same flag.
///
/// Other threads may raise the flag at any moment, so no contract can say
/// what a read returns: callers are verified for both answers.
pub struct CancellationSignal {
    flag: Arc<AtomicBool>,
}

/// `Arc::clone` of std: a second handle to the same allocation, hence to the
/// same value.
#[verifier::external_body]
fn share_flag(flag: &Arc<AtomicBool>) -> (r: Arc<AtomicBool>)
    ensures
        r == *flag,
{
    Arc::clone(flag)
}

impl CancellationSignal {
    /// A signal that has not been raised.
    pub fn new() -> CancellationSignal {
        CancellationSignal { flag: Arc::new(AtomicBool::new(false)) }
    }

    /// Raises the signal. Raising it again changes nothing.
    pub fn request(&self) {
        self.flag.store(true, Ordering::Relaxed);
    }

    /// Whether the signal was raised by the time of the call.
    pub fn is_requested(&self) -> bool {
        self.flag.load(Ordering::Relaxed)
    }

    /// Another handle to the same signal.
    pub fn share(&self) -> (r: CancellationSignal)
        ensures
            r == *self,
    {
        CancellationSignal { flag: share_flag(&self.flag) }
    }
}

} // verus!
