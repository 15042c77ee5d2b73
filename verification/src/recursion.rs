//! The heart of the trampoline: the suspendable-computation trait, the
//! wrapper that deposits a finished frame's value into its result cell, the
//! recursive-call operation, and the drive loop with its explicit stack.

use vstd::prelude::*;

use crate::cell::{Output, Poll};
use crate::notifier::noop_waker;
use crate::slot::{HandoffSlot, RecursionError};

verus! {

/// Adapts a computation producing a value into a unit of work producing
/// nothing: when the inner frame finishes, its value is deposited into the
/// wrapper's own result cell as a side effect of completion.
pub struct FutureWrapper<C, T> {
    /// The wrapped recursion frame.
    pub future: C,
    /// The result cell the frame's value is deposited into on completion.
    pub state: Output<T>,
}

/// One recursion frame: a unit of work that is resumed repeatedly and either
/// finishes with a value or suspends after registering exactly one nested
/// call in the handoff slot.
pub trait FutureRecursion: Sized {
    /// The type of value the computation produces.
    type Output;

    /// The frame states on which it is valid to resume the frame.
    spec fn inv(&self) -> bool;

    /// The value this frame will produce when driven to completion.
    spec fn goal(&self) -> Self::Output;

    /// The nested call's result this frame is suspended on, if any. A frame
    /// that has not been started yet expects nothing.
    spec fn expecting(&self) -> Option<Self::Output>;

    /// Bound on how deeply the recursion below this frame can still nest:
    /// every nested call the frame registers lies strictly below its own
    /// depth, so a drive never stacks more than `depth() + 1` frames.
    spec fn depth(&self) -> nat;

    /// Termination potential: one suspension pays for the whole nested frame
    /// it registers and still strictly shrinks, so every drive ends.
    spec fn fuel(&self) -> nat;

    /// Advance this frame. `handle` carries exactly the value the frame is
    /// suspended on (nothing for a fresh frame); `slot` is the already
    /// drained handoff slot the frame may register one nested call in.
    /// A suspension always coincides with a registered nested call, and a
    /// finished frame leaves the slot empty.
    fn resume(
        &mut self,
        handle: &mut Output<Self::Output>,
        slot: &mut HandoffSlot<FutureWrapper<Self, Self::Output>>,
    ) -> (r: Poll<Self::Output>)
        requires
            old(self).inv(),
            old(handle)@ == old(self).expecting(),
            old(slot)@ is None,
        ensures
            final(self).inv(),
            final(self).goal() == old(self).goal(),
            r matches Poll::Ready(v) ==> v == old(self).goal() && final(slot)@ is None,
            r is Pending ==> (final(slot)@ matches Some(w)
                && w.state@ is None
                && w.future.inv()
                && w.future.expecting() is None
                && final(self).expecting() == Some(w.future.goal())
                && w.future.depth() < old(self).depth()
                && final(self).depth() <= old(self).depth()
                && w.future.fuel() + final(self).fuel() < old(self).fuel()),
    ;
}

/// What holds of a frame that suspended after registering the nested unit of
/// work `w`: the child starts fresh and well formed, the parent now awaits
/// exactly the child's value, the child sits strictly deeper, and together
/// the two hold strictly less termination potential than the parent held.
pub open spec fn spawn_ok<C: FutureRecursion>(
    pre: C,
    post: C,
    w: FutureWrapper<C, C::Output>,
) -> bool {
    &&& w.state@ is None
    &&& w.future.inv()
    &&& w.future.expecting() is None
    &&& post.expecting() == Some(w.future.goal())
    &&& w.future.depth() < pre.depth()
    &&& post.depth() <= pre.depth()
    &&& w.future.fuel() + post.fuel() < pre.fuel()
}

impl<C, T> FutureWrapper<C, T> {
    /// Wrap a computation together with a fresh, empty result cell.
    pub fn new(f: C) -> (w: FutureWrapper<C, T>)
        ensures
            w.future == f,
            w.state@ is None,
    {
        FutureWrapper { future: f, state: Output::default() }
    }
}

impl<C: FutureRecursion> FutureWrapper<C, C::Output> {
    /// Resume the wrapped frame: deposit a produced value into the result
    /// cell and report bare completion; propagate a suspension unchanged.
    pub fn poll(
        &mut self,
        handle: &mut Output<C::Output>,
        slot: &mut HandoffSlot<FutureWrapper<C, C::Output>>,
    ) -> (r: Poll<()>)
        requires
            old(self).future.inv(),
            old(self).state@ is None,
            old(handle)@ == old(self).future.expecting(),
            old(slot)@ is None,
        ensures
            final(self).future.inv(),
            final(self).future.goal() == old(self).future.goal(),
            r is Ready ==> final(self).state@ == Some(old(self).future.goal())
                && final(slot)@ is None,
            r is Pending ==> final(self).state@ is None && (final(slot)@ matches Some(w)
                && spawn_ok(old(self).future, final(self).future, w)),
    {
        match self.future.resume(handle, slot) {
            Poll::Ready(v) => {
                self.state.put(v);
                Poll::Ready(())
            },
            Poll::Pending => Poll::Pending,
        }
    }
}

/// Issue one nested recursive call: wrap `child` with a fresh result cell
/// and register it in the handoff slot for the drive loop to pick up. The
/// calling frame must then suspend until the driver has run the child and
/// delivered its value. Registering a second nested call before the first
/// was drained is the incorrect-recursion usage error; the slot then keeps
/// its current occupant.
pub fn recurse<C, T>(
    child: C,
    slot: &mut HandoffSlot<FutureWrapper<C, T>>,
) -> (r: Result<(), RecursionError>)
    ensures
        old(slot)@ is None ==> r is Ok && (final(slot)@ matches Some(w)
            && w.future == child && w.state@ is None),
        old(slot)@ is Some ==> r == Err::<(), RecursionError>(RecursionError::IncorrectRecursion)
            && final(slot)@ == old(slot)@,
{
    slot.offer(FutureWrapper::new(child))
}

/// The termination potential held by a whole explicit stack: the sum of its
/// frames' fuel.
pub open spec fn sum_fuel<C: FutureRecursion>(s: Seq<FutureWrapper<C, C::Output>>) -> nat
    decreases s.len(),
{
    if s.len() == 0 {
        0
    } else {
        sum_fuel(s.drop_last()) + s.last().future.fuel()
    }
}

/// Pushing one unit of work onto a stack adds exactly its frame's fuel to
/// the stack's termination potential.
pub proof fn lemma_sum_fuel_push<C: FutureRecursion>(
    s: Seq<FutureWrapper<C, C::Output>>,
    w: FutureWrapper<C, C::Output>,
)
    ensures
        sum_fuel(s.push(w)) == sum_fuel(s) + w.future.fuel(),
{
    assert(s.push(w).drop_last() =~= s);
    assert(s.push(w).last() == w);
}

/// Drive `c` to completion and also report the peak length the explicit
/// stack reached, which is how deep the recursion actually nested (counting
/// the frame of `c` itself). The peak never exceeds `c.depth() + 1`, and the
/// stack is fully drained again by the time the drive returns.
///
/// The handoff slot is saved on entry and restored on exit, so a drive
/// started from inside an already running drive leaves the outer drive's
/// slot exactly as it found it.
pub fn start_recursion_with_peak<C: FutureRecursion>(
    c: C,
    slot: &mut HandoffSlot<FutureWrapper<C, C::Output>>,
) -> (r: (C::Output, usize))
    requires
        c.inv(),
        c.expecting() is None,
    ensures
        r.0 == c.goal(),
        final(slot)@ == old(slot)@,
        1 <= r.1 <= c.depth() + 1,
{
    let ghost g_goal = c.goal();
    let ghost g_depth = c.depth();
    let saved = slot.drain();
    let waker = noop_waker();
    let mut cur: Output<C::Output> = Output::default();
    let mut stack: Vec<FutureWrapper<C, C::Output>> = Vec::new();
    let mut peak: usize = 1;
    stack.push(FutureWrapper::new(c));
    while stack.len() > 0
        invariant
            slot@ is None,
            forall|i: int| 0 <= i < stack@.len()
                ==> (#[trigger] stack@[i]).future.inv() && stack@[i].state@ is None,
            forall|i: int| 0 <= i < stack@.len() - 1
                ==> (#[trigger] stack@[i]).future.expecting() == Some(stack@[i + 1].future.goal()),
            stack@.len() > 0 ==> stack@[0].future.goal() == g_goal,
            stack@.len() > 0 ==> cur@ == stack@[stack@.len() - 1].future.expecting(),
            stack@.len() == 0 ==> cur@ == Some(g_goal),
            forall|i: int| 0 <= i < stack@.len()
                ==> (#[trigger] stack@[i]).future.depth() + i <= g_depth,
            1 <= peak <= g_depth + 1,
        decreases sum_fuel(stack@), stack@.len(),
    {
        let ghost pre_stack = stack@;
        let mut top = match stack.pop() {
            Some(t) => t,
            None => vstd::pervasive::unreached(),
        };
        proof {
            assert(pre_stack.drop_last() =~= stack@);
            assert(sum_fuel(pre_stack) == sum_fuel(stack@) + top.future.fuel());
        }
        match top.poll(&mut cur, slot) {
            Poll::Ready(_done) => {
                let FutureWrapper { future: _finished, state } = top;
                cur = state;
            },
            Poll::Pending => {
                waker.wake();
                match slot.drain() {
                    Some(w) => {
                        proof {
                            lemma_sum_fuel_push(stack@, top);
                            lemma_sum_fuel_push(stack@.push(top), w);
                        }
                        stack.push(top);
                        stack.push(w);
                        if stack.len() > peak {
                            peak = stack.len();
                        }
                        cur = Output::default();
                    },
                    None => vstd::pervasive::unreached(),
                }
            },
        }
    }
    let out = match cur.poll() {
        Poll::Ready(v) => v,
        Poll::Pending => vstd::pervasive::unreached(),
    };
    slot.restore(saved);
    (out, peak)
}

/// Drive the not-yet-started computation `c` to completion on the explicit
/// stack and return its value, leaving the handoff slot exactly as it was
/// found so that nested drives cannot corrupt an enclosing one.
pub fn start_recursion<C: FutureRecursion>(
    c: C,
    slot: &mut HandoffSlot<FutureWrapper<C, C::Output>>,
) -> (r: C::Output)
    requires
        c.inv(),
        c.expecting() is None,
    ensures
        r == c.goal(),
        final(slot)@ == old(slot)@,
{
    let driven = start_recursion_with_peak(c, slot);
    driven.0
}

/// Interleave two independent drives: run a whole drive of `second` while
/// `first`'s freshly issued nested call is already parked in the handoff
/// slot, exactly as it is the moment an enclosing frame has called
/// [`recurse`] — then drive `first` itself. Neither drive disturbs the
/// other: both computations produce their own values, and the slot is left
/// as it was found.
pub fn drive_interleaved<C: FutureRecursion>(
    first: C,
    second: C,
    slot: &mut HandoffSlot<FutureWrapper<C, C::Output>>,
) -> (r: (C::Output, C::Output))
    requires
        first.inv(),
        first.expecting() is None,
        second.inv(),
        second.expecting() is None,
    ensures
        r.0 == first.goal(),
        r.1 == second.goal(),
        final(slot)@ == old(slot)@,
{
    let saved = slot.drain();
    match recurse(first, slot) {
        Ok(_unit) => {},
        Err(_e) => vstd::pervasive::unreached(),
    }
    let second_value = start_recursion(second, slot);
    let parked = match slot.drain() {
        Some(w) => w,
        None => vstd::pervasive::unreached(),
    };
    let FutureWrapper { future, state: _cell } = parked;
    let first_value = start_recursion(future, slot);
    slot.restore(saved);
    (first_value, second_value)
}

} // verus!
