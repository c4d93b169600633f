use vstd::prelude::*;
use crate::laws::{lemma_claimable_is_unclaimed_vesting, lemma_vested_within_total};
use vstd::arithmetic::div_mod::{
    lemma_fundamental_div_mod, lemma_fundamental_div_mod_converse_div, lemma_multiply_divide_le,
    lemma_remainder,
};

verus! {

/// Fixed-point scale of token amounts: one token is `10^7` units.
pub const SCALING_FACTOR: u64 = 10_000_000;

/// Ten years in seconds, the longest schedule a grant may have.
pub const TEN_YEARS_SECONDS: u64 = 315_360_000;

/// The largest grant, one billion tokens, in scaled units.
pub const MAX_GRANT_AMOUNT: u64 = 1_000_000_000 * SCALING_FACTOR;

/// The accounting state of one grant at one point in time.
///
/// Amounts are whole token units; times are seconds.
#[derive(Debug, Clone, Copy, PartialEq, Eq, Structural)]
pub struct GrantState {
    pub total_amount: u128,
    pub claimed: u128,
    pub remaining: u128,
    pub fees: u128,
    pub start_time: u64,
    pub end_time: u64,
    pub current_time: u64,
}

impl GrantState {
    /// The core accounting invariant: `total == claimed + remaining + fees`.
    pub open spec fn invariant_holds(self) -> bool {
        self.claimed + self.remaining + self.fees == self.total_amount
    }

    /// The schedule can be evaluated at `current_time`: either the grant has
    /// not started yet, or it does not end before it starts.
    pub open spec fn schedule_defined(self) -> bool {
        self.current_time <= self.start_time || self.start_time <= self.end_time
    }

    /// Seconds of the schedule that have elapsed at `current_time`.
    pub open spec fn elapsed(self) -> int {
        if self.current_time <= self.start_time {
            0
        } else if self.current_time >= self.end_time {
            self.end_time - self.start_time
        } else {
            self.current_time - self.start_time
        }
    }

    /// Length of the vesting schedule in seconds.
    pub open spec fn duration(self) -> int {
        self.end_time - self.start_time
    }

    /// Linear vesting, rounded down: `total * elapsed / duration`; nothing has
    /// vested before the start or on a schedule of zero length.
    pub open spec fn vested(self) -> int {
        if self.current_time <= self.start_time || self.duration() <= 0 {
            0
        } else {
            self.total_amount * self.elapsed() / self.duration()
        }
    }

    /// What may be claimed at `current_time`: what has vested beyond what was
    /// already claimed, never more than what remains in the grant.
    pub open spec fn claimable(self) -> int {
        if self.vested() > self.claimed {
            let owed = self.vested() - self.claimed;
            if owed < self.remaining {
                owed
            } else {
                self.remaining as int
            }
        } else {
            0
        }
    }

    /// The same grant observed at time `t`.
    pub open spec fn at_time(self, t: u64) -> GrantState {
        GrantState { current_time: t, ..self }
    }

    /// The grant after the claimable amount has moved from the remaining
    /// balance to the claimed one.
    pub open spec fn after_claim(self) -> GrantState {
        GrantState {
            claimed: (self.claimed + self.claimable()) as u128,
            remaining: (self.remaining - self.claimable()) as u128,
            ..self
        }
    }

    /// The grant after `amount` of the remaining balance has been clawed back
    /// into fees.
    pub open spec fn after_clawback(self, amount: u128) -> GrantState {
        GrantState {
            remaining: (self.remaining - amount) as u128,
            fees: (self.fees + amount) as u128,
            ..self
        }
    }

    /// The grant after a pause of `pause` seconds: the clock moves on and the
    /// schedule is pushed back by the same amount, so nothing accrues.
    pub open spec fn after_pause(self, pause: u64) -> GrantState {
        GrantState {
            start_time: (self.start_time + pause) as u64,
            end_time: (self.end_time + pause) as u64,
            current_time: (self.current_time + pause) as u64,
            ..self
        }
    }

    /// Moves the claimable amount from the remaining balance to the claimed
    /// one and returns it.
    pub(crate) fn apply_claim(&mut self) -> (amount: u128)
        requires
            old(self).schedule_defined(),
        ensures
            amount == old(self).claimable(),
            *final(self) == old(self).after_claim(),
            final(self).claimed == old(self).claimed + amount,
            final(self).remaining == old(self).remaining - amount,
    {
        let amount = self.expected_claimable();
        proof {
            lemma_vested_within_total(*self);
        }
        self.claimed = self.claimed + amount;
        self.remaining = self.remaining - amount;
        amount
    }

    /// Claws `amount` of the remaining balance back into fees. Fails, leaving
    /// the grant unchanged, when the fees would no longer fit in `u128`; the
    /// grant then cannot satisfy the invariant.
    pub(crate) fn apply_clawback(&mut self, amount: u128) -> (done: bool)
        requires
            amount <= old(self).remaining,
        ensures
            done == (old(self).fees + amount <= u128::MAX),
            done ==> *final(self) == old(self).after_clawback(amount),
            done ==> final(self).remaining == old(self).remaining - amount,
            done ==> final(self).fees == old(self).fees + amount,
            !done ==> *final(self) == *old(self),
            !done ==> !old(self).invariant_holds(),
    {
        match self.fees.checked_add(amount) {
            Some(fees) => {
                self.remaining = self.remaining - amount;
                self.fees = fees;
                true
            },
            None => false,
        }
    }

    /// Pauses the grant for `pause` seconds.
    pub(crate) fn apply_pause(&mut self, pause: u64)
        requires
            old(self).start_time + pause <= u64::MAX,
            old(self).end_time + pause <= u64::MAX,
            old(self).current_time + pause <= u64::MAX,
        ensures
            *final(self) == old(self).after_pause(pause),
    {
        self.start_time = self.start_time + pause;
        self.end_time = self.end_time + pause;
        self.current_time = self.current_time + pause;
    }

    /// Amount vested at `current_time`.
    fn vested_amount(&self) -> (v: u128)
        requires
            self.schedule_defined(),
        ensures
            v == self.vested(),
            v <= self.total_amount,
    {
        if self.current_time <= self.start_time {
            return 0;
        }
        let elapsed: u64 = if self.current_time >= self.end_time {
            self.end_time - self.start_time
        } else {
            self.current_time - self.start_time
        };
        let total_duration: u64 = self.end_time - self.start_time;
        if total_duration == 0 {
            return 0;
        }
        mul_div_floor(self.total_amount, elapsed, total_duration)
    }

    /// Calculates the amount claimable at `current_time` (see
    /// [`GrantState::claimable`]).
    pub fn expected_claimable(&self) -> (amount: u128)
        requires
            self.schedule_defined(),
        ensures
            amount == self.claimable(),
            amount <= self.remaining,
            self.current_time <= self.start_time ==> amount == 0,
            self.start_time < self.current_time < self.end_time ==> amount == ({
                let v = self.total_amount * (self.current_time - self.start_time) / (self.end_time
                    - self.start_time) as int;
                if v <= self.claimed {
                    0
                } else if v - self.claimed <= self.remaining {
                    v - self.claimed
                } else {
                    self.remaining as int
                }
            }),
    {
        proof {
            lemma_claimable_is_unclaimed_vesting(*self);
        }
        let vested = self.vested_amount();
        if vested > self.claimed {
            let owed: u128 = vested - self.claimed;
            if owed < self.remaining {
                owed
            } else {
                self.remaining
            }
        } else {
            0
        }
    }

    /// Checks the core accounting invariant.
    pub fn verify_invariant(&self) -> (holds: bool)
        ensures
            holds == self.invariant_holds(),
    {
        match self.claimed.checked_add(self.remaining) {
            None => false,
            Some(partial) => match partial.checked_add(self.fees) {
                None => false,
                Some(sum) => sum == self.total_amount,
            },
        }
    }
}

/// `(a * e) / d` may be computed as `(a / d) * e + ((a % d) * e) / d`, and
/// neither part exceeds `a` when `e <= d`.
pub(crate) proof fn lemma_split_mul_div(a: int, e: int, d: int)
    requires
        0 <= a,
        0 <= e <= d,
        0 < d,
    ensures
        (a * e) / d == (a / d) * e + ((a % d) * e) / d,
        (a * e) / d <= a,
        0 <= (a / d) * e <= a,
        0 <= (a % d) * e <= (d - 1) * d,
{
    let q = a / d;
    let r = a % d;
    lemma_fundamental_div_mod(a, d);
    lemma_remainder(a, d);
    assert(a == d * q + r);
    assert(0 <= q) by (nonlinear_arith)
        requires a == d * q + r, 0 <= r < d, 0 <= a, 0 < d;
    assert(0 <= q * e <= q * d) by (nonlinear_arith)
        requires 0 <= q, 0 <= e <= d;
    assert(q * d <= a) by (nonlinear_arith)
        requires a == d * q + r, 0 <= r;
    assert(0 <= r * e <= (d - 1) * d) by (nonlinear_arith)
        requires 0 <= r <= d - 1, 0 <= e <= d;
    let q2 = (r * e) / d;
    let r2 = (r * e) % d;
    lemma_fundamental_div_mod(r * e, d);
    lemma_remainder(r * e, d);
    assert(a * e == (q * e + q2) * d + r2) by (nonlinear_arith)
        requires a == d * q + r, r * e == d * q2 + r2;
    lemma_fundamental_div_mod_converse_div(a * e, d, q * e + q2, r2);
    assert(a * e <= d * a) by (nonlinear_arith)
        requires 0 <= a, 0 <= e <= d;
    lemma_multiply_divide_le(a * e, d, a);
}

/// Computes `floor(a * e / d)` for `e <= d` without leaving `u128`.
fn mul_div_floor(a: u128, e: u64, d: u64) -> (v: u128)
    requires
        0 < d,
        e <= d,
    ensures
        v == (a * e) / (d as int),
        v <= a,
{
    proof {
        lemma_split_mul_div(a as int, e as int, d as int);
        assert((d as int - 1) * (d as int) <= u128::MAX) by (nonlinear_arith)
            requires 0 < d <= u64::MAX;
    }
    let wide_d: u128 = d as u128;
    let wide_e: u128 = e as u128;
    let whole: u128 = (a / wide_d) * wide_e;
    let part: u128 = ((a % wide_d) * wide_e) / wide_d;
    whole + part
}

} // verus!
