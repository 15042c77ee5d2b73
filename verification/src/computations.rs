//! Verified recursive computations written against the trampoline: the
//! modular-exponentiation recursion, a linear countdown, and a computation
//! that finishes without ever recursing.

use vstd::prelude::*;

use crate::cell::{Output, Poll};
use crate::recursion::{recurse, FutureRecursion, FutureWrapper};
use crate::slot::HandoffSlot;

verus! {

/// Modular exponentiation by repeated multiplication, as the recursion
/// computes it: `base^n` reduced modulo `m` at every multiplication step,
/// with the base case `1` left unreduced.
pub open spec fn pow_mod_spec(base: nat, n: nat, m: nat) -> nat
    decreases n,
{
    if n == 0 {
        1
    } else {
        (base * pow_mod_spec(base, (n - 1) as nat, m)) % m
    }
}

/// The recursion's value is `1` at the base case and otherwise a remainder,
/// so it stays below the modulus.
pub proof fn lemma_pow_mod_bound(base: nat, n: nat, m: nat)
    requires
        m >= 1,
    ensures
        n == 0 ==> pow_mod_spec(base, n, m) == 1,
        n >= 1 ==> pow_mod_spec(base, n, m) < m,
{
}

/// The iterative reference for the same computation: `base^n mod m` by a
/// plain loop over the very recurrence the recursion unwinds, so the driven
/// recursion and this loop provably produce the same value.
pub fn pow_mod_iterative(base: u64, n: u64, modulus: u64) -> (r: u64)
    requires
        base < 0x1_0000_0000,
        1 <= modulus < 0x1_0000_0000,
    ensures
        r == pow_mod_spec(base as nat, n as nat, modulus as nat),
{
    let mut acc: u64 = 1;
    let mut i: u64 = 0;
    while i < n
        invariant
            i <= n,
            base < 0x1_0000_0000,
            1 <= modulus < 0x1_0000_0000,
            acc == pow_mod_spec(base as nat, i as nat, modulus as nat),
            acc < 0x1_0000_0000,
        decreases n - i,
    {
        proof {
            assert(base * acc <= u64::MAX) by (nonlinear_arith)
                requires
                    base < 0x1_0000_0000,
                    acc < 0x1_0000_0000,
            ;
        }
        acc = (base * acc) % modulus;
        i = i + 1;
        proof {
            lemma_pow_mod_bound(base as nat, i as nat, modulus as nat);
        }
    }
    acc
}

/// One frame of the recursion `base^n mod m == (base * (base^(n-1) mod m)) mod m`:
/// below the base case it issues one nested call for the exponent reduced by
/// one, suspends on its value, and reduces one more multiplication.
pub struct PowMod {
    /// The base that is multiplied in at every step.
    pub base: u64,
    /// The modulus every multiplication is reduced by.
    pub modulus: u64,
    /// The exponent still to be unwound below this frame.
    pub n: u64,
    /// Whether this frame has issued its nested call and awaits the value.
    pub awaiting: bool,
}

impl FutureRecursion for PowMod {
    type Output = u64;

    open spec fn inv(&self) -> bool {
        &&& self.base < 0x1_0000_0000
        &&& 1 <= self.modulus < 0x1_0000_0000
        &&& self.awaiting ==> self.n >= 1
    }

    open spec fn goal(&self) -> u64 {
        pow_mod_spec(self.base as nat, self.n as nat, self.modulus as nat) as u64
    }

    open spec fn expecting(&self) -> Option<u64> {
        if self.awaiting {
            Some(pow_mod_spec(self.base as nat, (self.n - 1) as nat, self.modulus as nat) as u64)
        } else {
            None
        }
    }

    open spec fn depth(&self) -> nat {
        self.n as nat
    }

    open spec fn fuel(&self) -> nat {
        if self.awaiting {
            0
        } else {
            self.n as nat + 1
        }
    }

    fn resume(
        &mut self,
        handle: &mut Output<u64>,
        slot: &mut HandoffSlot<FutureWrapper<PowMod, u64>>,
    ) -> (r: Poll<u64>) {
        if self.awaiting {
            match handle.poll() {
                Poll::Ready(v) => {
                    proof {
                        lemma_pow_mod_bound(
                            self.base as nat,
                            (self.n - 1) as nat,
                            self.modulus as nat,
                        );
                        assert(self.base * v <= u64::MAX) by (nonlinear_arith)
                            requires
                                self.base < 0x1_0000_0000,
                                v < 0x1_0000_0000,
                        ;
                    }
                    Poll::Ready((self.base * v) % self.modulus)
                },
                Poll::Pending => vstd::pervasive::unreached(),
            }
        } else if self.n == 0 {
            Poll::Ready(1)
        } else {
            let child = PowMod {
                base: self.base,
                modulus: self.modulus,
                n: self.n - 1,
                awaiting: false,
            };
            match recurse(child, slot) {
                Ok(_unit) => {
                    self.awaiting = true;
                    Poll::Pending
                },
                Err(_e) => vstd::pervasive::unreached(),
            }
        }
    }
}

/// A linear recursion of depth `n` that produces `n + seed`: each frame above
/// the base case issues one nested call for `n - 1` and adds one to its
/// value, and the base case completes with `seed`.
pub struct CountDown {
    /// The depth still to be unwound below this frame.
    pub n: u64,
    /// The value produced at the base of the recursion.
    pub seed: u64,
    /// Whether this frame has issued its nested call and awaits the value.
    pub awaiting: bool,
}

impl FutureRecursion for CountDown {
    type Output = u64;

    open spec fn inv(&self) -> bool {
        &&& self.n + self.seed <= u64::MAX
        &&& self.awaiting ==> self.n >= 1
    }

    open spec fn goal(&self) -> u64 {
        (self.n + self.seed) as u64
    }

    open spec fn expecting(&self) -> Option<u64> {
        if self.awaiting {
            Some((self.n - 1 + self.seed) as u64)
        } else {
            None
        }
    }

    open spec fn depth(&self) -> nat {
        self.n as nat
    }

    open spec fn fuel(&self) -> nat {
        if self.awaiting {
            0
        } else {
            self.n as nat + 1
        }
    }

    fn resume(
        &mut self,
        handle: &mut Output<u64>,
        slot: &mut HandoffSlot<FutureWrapper<CountDown, u64>>,
    ) -> (r: Poll<u64>) {
        if self.awaiting {
            match handle.poll() {
                Poll::Ready(v) => Poll::Ready(v + 1),
                Poll::Pending => vstd::pervasive::unreached(),
            }
        } else if self.n == 0 {
            Poll::Ready(self.seed)
        } else {
            let child = CountDown { n: self.n - 1, seed: self.seed, awaiting: false };
            match recurse(child, slot) {
                Ok(_unit) => {
                    self.awaiting = true;
                    Poll::Pending
                },
                Err(_e) => vstd::pervasive::unreached(),
            }
        }
    }
}

/// A computation that completes on its first resumption without ever issuing
/// a nested call: driving it returns its value unchanged.
pub struct Immediate {
    /// The value the computation completes with.
    pub value: u64,
}

impl FutureRecursion for Immediate {
    type Output = u64;

    open spec fn inv(&self) -> bool {
        true
    }

    open spec fn goal(&self) -> u64 {
        self.value
    }

    open spec fn expecting(&self) -> Option<u64> {
        None
    }

    open spec fn depth(&self) -> nat {
        0
    }

    open spec fn fuel(&self) -> nat {
        0
    }

    fn resume(
        &mut self,
        _handle: &mut Output<u64>,
        _slot: &mut HandoffSlot<FutureWrapper<Immediate, u64>>,
    ) -> (r: Poll<u64>) {
        Poll::Ready(self.value)
    }
}

} // verus!

