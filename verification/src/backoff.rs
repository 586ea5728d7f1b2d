//! The delay between reconnection attempts: it starts at the initial delay,
//! doubles with every failed attempt and stays at the maximum once there.
use vstd::prelude::*;

verus! {

/// Reconnection delays in milliseconds.
pub struct ReconnectBackoff {
    current: u64,
    initial: u64,
    max: u64,
    /// Calls of `next_delay` since the start or the last reset.
    calls: Ghost<nat>,
}

/// The delay that follows `current`: twice as long (saturating), at most
/// `max`.
pub open spec fn next_after(current: u64, max: u64) -> u64 {
    let doubled = if 2 * current > u64::MAX { u64::MAX as int } else { 2 * current };
    if doubled <= max {
        doubled as u64
    } else {
        max
    }
}

/// The delay handed out by the `n`-th call (counting from 0) after a start
/// or reset.
pub open spec fn scheduled_delay(initial: u64, max: u64, n: nat) -> u64
    decreases n,
{
    if n == 0 {
        initial
    } else {
        next_after(scheduled_delay(initial, max, (n - 1) as nat), max)
    }
}

pub open spec fn pow2n(n: nat) -> nat
    decreases n,
{
    if n == 0 {
        1
    } else {
        2 * pow2n((n - 1) as nat)
    }
}

impl ReconnectBackoff {
    /// The current delay is the one scheduled after the calls made so far.
    #[verifier::type_invariant]
    spec fn follows_schedule(&self) -> bool {
        self.current == scheduled_delay(self.initial, self.max, self.calls@)
    }

    /// The delay the next attempt will wait.
    pub closed spec fn current(&self) -> u64 {
        self.current
    }

    pub closed spec fn initial(&self) -> u64 {
        self.initial
    }

    pub closed spec fn max(&self) -> u64 {
        self.max
    }

    /// How many delays were handed out since the start or the last reset.
    pub closed spec fn calls(&self) -> nat {
        self.calls@
    }

    pub fn new(initial: u64, max: u64) -> (res: Self)
        ensures
            res.current() == initial,
            res.initial() == initial,
            res.max() == max,
            res.calls() == 0,
    {
        ReconnectBackoff { current: initial, initial, max, calls: Ghost(0) }
    }

    /// The delay to wait now; the following one is twice as long, capped at
    /// the maximum. The `k`-th call after a start or reset (counting from 0)
    /// returns `scheduled_delay(initial, max, k)`.
    pub fn next_delay(&mut self) -> (res: u64)
        ensures
            res == old(self).current(),
            res == scheduled_delay(old(self).initial(), old(self).max(), old(self).calls()),
            final(self).current() == next_after(old(self).current(), old(self).max()),
            final(self).initial() == old(self).initial(),
            final(self).max() == old(self).max(),
            final(self).calls() == old(self).calls() + 1,
            old(self).initial() <= old(self).max() ==> res as int == if old(self).initial() * pow2n(old(self).calls())
                <= old(self).max() {
                old(self).initial() * pow2n(old(self).calls())
            } else {
                old(self).max() as int
            },
    {
        proof {
            use_type_invariant(&*self);
            lemma_backoff_schedule(self.initial, self.max, self.calls@);
            if self.calls@ == 0 {
                assert(pow2n(0) == 1);
            }
        }
        let delay = self.current;
        let doubled: u64 = if self.current > u64::MAX / 2 { u64::MAX } else { self.current * 2 };
        let next: u64 = if doubled <= self.max { doubled } else { self.max };
        let ghost calls: nat = self.calls@ + 1;
        *self = ReconnectBackoff { current: next, initial: self.initial, max: self.max, calls: Ghost(calls) };
        delay
    }

    /// Starts over at the initial delay.
    pub fn reset(&mut self)
        ensures
            final(self).current() == old(self).initial(),
            final(self).initial() == old(self).initial(),
            final(self).max() == old(self).max(),
            final(self).calls() == 0,
    {
        *self = ReconnectBackoff { current: self.initial, initial: self.initial, max: self.max, calls: Ghost(0) };
    }
}

/// After a start or reset, the first delay is the initial one and the
/// `n`-th after it is the initial delay doubled `n` times, capped at the
/// maximum.
pub proof fn lemma_backoff_schedule(initial: u64, max: u64, n: nat)
    ensures
        n == 0 ==> scheduled_delay(initial, max, n) == initial,
        n > 0 ==> scheduled_delay(initial, max, n) as int == if initial * pow2n(n) <= max {
            initial * pow2n(n)
        } else {
            max as int
        },
    decreases n,
{
    if n > 1 {
        lemma_backoff_schedule(initial, max, (n - 1) as nat);
        let prev = (n - 1) as nat;
        assert(pow2n(n) == 2 * pow2n(prev));
        assert(initial * pow2n(n) == 2 * (initial * pow2n(prev))) by (nonlinear_arith)
            requires
                pow2n(n) == 2 * pow2n(prev),
        ;
        let d = scheduled_delay(initial, max, prev);
        assert(scheduled_delay(initial, max, n) == next_after(d, max));
        if initial * pow2n(prev) <= max {
            assert(d as int == initial * pow2n(prev));
        } else {
            assert(d == max);
            assert(initial * pow2n(n) > max);
        }
    } else if n == 1 {
        assert(pow2n(0) == 1);
        assert(pow2n(1) == 2);
        assert(scheduled_delay(initial, max, 0) == initial);
        assert(scheduled_delay(initial, max, 1) == next_after(initial, max));
    }
}

/// With an initial delay no greater than the maximum, the delays never
/// shrink and never pass the maximum.
pub proof fn lemma_backoff_bounded_and_growing(initial: u64, max: u64, n: nat)
    requires
        initial <= max,
    ensures
        initial <= scheduled_delay(initial, max, n) <= max,
        scheduled_delay(initial, max, n) <= scheduled_delay(initial, max, n + 1),
    decreases n,
{
    if n > 0 {
        lemma_backoff_bounded_and_growing(initial, max, (n - 1) as nat);
    }
    assert(scheduled_delay(initial, max, n + 1) == next_after(scheduled_delay(initial, max, n), max));
}

} // verus!
