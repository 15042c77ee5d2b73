//! The trivial wake capability. All resumption happens synchronously inside
//! the drive loop, which never waits on an outside event, so the notifier
//! satisfying the suspension-polling contract has nothing to do.

use vstd::prelude::*;

verus! {

/// A notifier whose wakeups go nowhere: the drive loop re-resumes the top of
/// its stack by itself and never blocks.
pub struct NoopWaker {}

impl NoopWaker {
    /// Waking is a no-op: there is no blocked party to notify.
    pub fn wake(&self) {
    }
}

/// The raw form of the no-op notifier.
pub fn noop_raw_waker() -> (w: NoopWaker)
    ensures
        w == (NoopWaker {}),
{
    NoopWaker {}
}

/// The notifier every resumption is performed with.
pub fn noop_waker() -> (w: NoopWaker)
    ensures
        w == (NoopWaker {}),
{
    noop_raw_waker()
}

} // verus!
