//! The single-slot result cell a suspended frame polls, and the poll outcome
//! type shared by every suspendable computation.

use vstd::prelude::*;

verus! {

/// The outcome of one resumption or poll: either the final value, or "not
/// yet finished, try again once the dependency has been serviced".
pub enum Poll<T> {
    Ready(T),
    Pending,
}

/// What a take out of a result cell in state `state` returns: the stored
/// value when one is present, pending otherwise.
pub open spec fn take_result<T>(state: Option<T>) -> Poll<T> {
    match state {
        Some(v) => Poll::Ready(v),
        None => Poll::Pending,
    }
}

/// What a take out of a result cell leaves behind: an empty cell, whatever
/// was stored before.
pub open spec fn take_rest<T>(state: Option<T>) -> Option<T> {
    None
}

/// A single-slot, write-once/read-once value holder: the suspension handle
/// bridging a child computation's completion to its consumer's resumption.
/// It is written at most once ([`Output::put`] requires an empty cell) and a
/// stored value is taken out at most once (a successful [`Output::poll`]
/// empties the cell).
pub struct Output<T> {
    state: Option<T>,
}

impl<T> View for Output<T> {
    type V = Option<T>;

    closed spec fn view(&self) -> Option<T> {
        self.state
    }
}

impl<T> Default for Output<T> {
    /// A fresh, still-empty result cell.
    fn default() -> (r: Self)
        ensures
            r@ is None,
    {
        Output { state: None }
    }
}

impl<T> Output<T> {
    /// Take the stored value if one is present, reporting pending otherwise.
    /// Taking empties the cell, so a value is yielded at most once.
    pub fn poll(&mut self) -> (r: Poll<T>)
        ensures
            r == take_result(old(self)@),
            final(self)@ == take_rest(old(self)@),
    {
        match self.state.take() {
            Some(v) => Poll::Ready(v),
            None => Poll::Pending,
        }
    }

    /// Deposit the computed value into the cell. A cell is written at most
    /// once, so it must still be empty.
    pub fn put(&mut self, v: T)
        requires
            old(self)@ is None,
        ensures
            final(self)@ == Some(v),
    {
        self.state = Some(v);
    }
}

/// A result cell hands its value out exactly once: the first take of a
/// filled cell returns the stored value, and a take of what any take leaves
/// behind is pending.
pub proof fn lemma_single_consumption<T>(state: Option<T>)
    ensures
        state matches Some(v) ==> take_result(state) == Poll::Ready(v),
        take_result(take_rest(state)) is Pending,
{
}

} // verus!
