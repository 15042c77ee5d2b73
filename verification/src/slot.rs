//! The handoff slot: a single-item mailbox through which a call site hands
//! the next nested unit of work to the drive loop.

use vstd::prelude::*;

verus! {

/// The one way the trampoline can be misused: a frame registered a second
/// nested call before the driver had drained the first one, instead of
/// suspending between the two calls.
#[derive(Clone, Copy, Debug, PartialEq, Eq, Structural)]
pub enum RecursionError {
    IncorrectRecursion,
}

/// A single-slot mailbox holding at most one pending unit of work, from the
/// moment a frame registers its nested call until the driver drains it.
pub struct HandoffSlot<W> {
    item: Option<W>,
}

impl<W> View for HandoffSlot<W> {
    type V = Option<W>;

    closed spec fn view(&self) -> Option<W> {
        self.item
    }
}

impl<W> HandoffSlot<W> {
    /// A fresh, empty slot.
    pub fn new() -> (s: Self)
        ensures
            s@ is None,
    {
        HandoffSlot { item: None }
    }

    /// Register the next nested unit of work. Refused with the
    /// incorrect-recursion error, leaving the slot untouched, when a prior
    /// occupant has not been drained yet.
    pub fn offer(&mut self, item: W) -> (r: Result<(), RecursionError>)
        ensures
            old(self)@ is None ==> r is Ok && final(self)@ == Some(item),
            old(self)@ is Some ==> r == Err::<(), RecursionError>(RecursionError::IncorrectRecursion)
                && final(self)@ == old(self)@,
    {
        if self.item.is_some() {
            Err(RecursionError::IncorrectRecursion)
        } else {
            self.item = Some(item);
            Ok(())
        }
    }

    /// Take and clear the current occupant, if any.
    pub fn drain(&mut self) -> (r: Option<W>)
        ensures
            r == old(self)@,
            final(self)@ is None,
    {
        self.item.take()
    }

    /// Put previously drained contents back, so a nested drive can leave the
    /// slot exactly as it found it.
    pub fn restore(&mut self, saved: Option<W>)
        requires
            old(self)@ is None,
        ensures
            final(self)@ == saved,
    {
        self.item = saved;
    }
}

} // verus!
