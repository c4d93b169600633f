use vstd::prelude::*;
use crate::contract_check::outstanding_balance;
use crate::grant_state::{lemma_split_mul_div, GrantState};
use vstd::arithmetic::div_mod::{lemma_div_is_ordered, lemma_fundamental_div_mod, lemma_remainder};
use vstd::arithmetic::mul::lemma_mul_inequality;

verus! {

/// Whatever the time, the vested amount lies between nothing and the whole
/// grant.
pub proof fn lemma_vested_within_total(s: GrantState)
    requires
        s.schedule_defined(),
    ensures
        0 <= s.vested() <= s.total_amount,
{
    if !(s.current_time <= s.start_time || s.duration() <= 0) {
        lemma_split_mul_div(s.total_amount as int, s.elapsed(), s.duration());
    }
}

/// A fresh grant, with nothing claimed and no fees, satisfies
/// `total == claimed + remaining + fees`.
pub proof fn lemma_fresh_grant_satisfies_invariant(s: GrantState)
    requires
        s.claimed == 0,
        s.fees == 0,
        s.remaining == s.total_amount,
    ensures
        s.invariant_holds(),
{
}

/// Nothing vests, and nothing can be claimed, before the grant starts.
pub proof fn lemma_nothing_before_start(s: GrantState)
    requires
        s.current_time <= s.start_time,
    ensures
        s.vested() == 0,
        s.claimable() == 0,
{
}

/// Once the schedule has ended the whole grant has vested.
pub proof fn lemma_fully_vested_at_end(s: GrantState)
    requires
        s.start_time < s.end_time <= s.current_time,
    ensures
        s.vested() == s.total_amount,
{
    let d = s.duration();
    assert(s.total_amount * d / d == s.total_amount as int) by (nonlinear_arith)
        requires d > 0;
}

/// Vesting is linear in the raw schedule times: nothing before the start or
/// on a schedule of zero length, `total * (now - start) / (end - start)`
/// rounded down strictly inside the schedule, and the whole grant from its
/// end on.
pub proof fn lemma_vested_is_linear(s: GrantState)
    ensures
        s.current_time <= s.start_time ==> s.vested() == 0,
        s.end_time == s.start_time ==> s.vested() == 0,
        s.start_time < s.current_time < s.end_time ==> s.vested() == s.total_amount * (
        s.current_time - s.start_time) / (s.end_time - s.start_time) as int,
        s.start_time < s.end_time <= s.current_time ==> s.vested() == s.total_amount,
{
    if s.start_time < s.end_time <= s.current_time {
        lemma_fully_vested_at_end(s);
    }
}

/// What is claimable is what has vested beyond the claimed amount, capped at
/// the remaining balance: in raw terms, strictly inside the schedule it is
/// `total * (now - start) / (end - start) - claimed`, floored at zero and
/// capped at `remaining`. Fees play no part in it.
pub proof fn lemma_claimable_is_unclaimed_vesting(s: GrantState)
    ensures
        s.claimable() == (if s.vested() <= s.claimed {
            0
        } else if s.vested() - s.claimed <= s.remaining {
            s.vested() - s.claimed
        } else {
            s.remaining as int
        }),
        s.start_time < s.current_time < s.end_time ==> s.claimable() == ({
            let v = s.total_amount * (s.current_time - s.start_time) / (s.end_time
                - s.start_time) as int;
            if v <= s.claimed {
                0
            } else if v - s.claimed <= s.remaining {
                v - s.claimed
            } else {
                s.remaining as int
            }
        }),
{
    lemma_vested_is_linear(s);
}

/// The fees recorded against a grant do not change what its recipient may
/// claim.
pub proof fn lemma_claimable_ignores_fees(s: GrantState, fees: u128)
    ensures
        (GrantState { fees: fees, ..s }).claimable() == s.claimable(),
        (GrantState { fees: fees, ..s }).vested() == s.vested(),
{
}

/// A clawback changes the claimable amount only through the remaining
/// balance it shrinks: afterwards the recipient may claim the smaller of what
/// was claimable before and what is left.
pub proof fn lemma_clawback_caps_claimable(s: GrantState, amount: u128)
    requires
        amount <= s.remaining,
        s.fees + amount <= u128::MAX,
    ensures
        s.after_clawback(amount).claimable() == (if s.claimable() <= s.remaining - amount {
            s.claimable()
        } else {
            s.remaining - amount
        }),
{
    assert(s.after_clawback(amount).vested() == s.vested());
}

/// Vesting never decreases as time goes on.
pub proof fn lemma_vested_monotonic(s: GrantState, earlier: u64, later: u64)
    requires
        s.start_time <= s.end_time,
        earlier <= later,
    ensures
        s.at_time(earlier).vested() <= s.at_time(later).vested(),
{
    let a = s.at_time(earlier);
    let b = s.at_time(later);
    lemma_vested_within_total(a);
    if !(a.current_time <= a.start_time || a.duration() <= 0) {
        assert(a.elapsed() <= b.elapsed());
        lemma_mul_inequality(a.elapsed(), b.elapsed(), s.total_amount as int);
        assert(a.elapsed() * s.total_amount == s.total_amount * a.elapsed()) by (nonlinear_arith);
        assert(b.elapsed() * s.total_amount == s.total_amount * b.elapsed()) by (nonlinear_arith);
        lemma_div_is_ordered(
            s.total_amount * a.elapsed(),
            s.total_amount * b.elapsed(),
            s.duration(),
        );
    }
}

/// Rounding loses less than one unit: the vested amount is the largest
/// whole amount not exceeding the exact linear share `total * elapsed / duration`.
pub proof fn lemma_rounding_error_below_one_unit(s: GrantState)
    requires
        s.start_time < s.end_time,
        s.start_time < s.current_time,
    ensures
        s.vested() * s.duration() <= s.total_amount * s.elapsed(),
        s.total_amount * s.elapsed() < (s.vested() + 1) * s.duration(),
        s.current_time < s.end_time ==> s.vested() * (s.end_time - s.start_time) <= s.total_amount
            * (s.current_time - s.start_time) < (s.vested() + 1) * (s.end_time - s.start_time),
{
    let x = s.total_amount * s.elapsed();
    let d = s.duration();
    lemma_fundamental_div_mod(x, d);
    lemma_remainder(x, d);
    assert(s.vested() == x / d);
    assert((x / d) * d <= x) by (nonlinear_arith)
        requires x == d * (x / d) + x % d, 0 <= x % d;
    assert(x < (x / d + 1) * d) by (nonlinear_arith)
        requires x == d * (x / d) + x % d, x % d < d;
}

/// A claim at or after the end of the schedule on a grant without fees
/// pays out the whole grant: everything is then claimed and nothing remains.
pub proof fn lemma_final_claim_completes(s: GrantState)
    requires
        s.invariant_holds(),
        s.fees == 0,
        s.start_time < s.end_time <= s.current_time,
    ensures
        s.after_claim().claimed == s.total_amount,
        s.after_claim().remaining == 0,
{
    lemma_fully_vested_at_end(s);
}

/// What can be claimed never exceeds what remains in the grant; when nothing
/// was claimed beyond the grant, claiming it never takes the claimed total
/// past the grant.
pub proof fn lemma_claimable_within_remaining(s: GrantState)
    requires
        s.schedule_defined(),
    ensures
        0 <= s.claimable() <= s.remaining,
        s.claimed <= s.total_amount ==> s.claimed + s.claimable() <= s.total_amount,
{
    lemma_vested_within_total(s);
}

/// Claiming keeps `total == claimed + remaining + fees`, moves exactly the
/// claimable amount, and leaves the total and the fees untouched.
pub proof fn lemma_claim_preserves_invariant(s: GrantState)
    requires
        s.schedule_defined(),
        s.invariant_holds(),
    ensures
        s.after_claim().invariant_holds(),
        s.after_claim().claimed == s.claimed + s.claimable(),
        s.after_claim().remaining == s.remaining - s.claimable(),
        s.after_claim().total_amount == s.total_amount,
        s.after_claim().fees == s.fees,
{
    lemma_claimable_within_remaining(s);
}

/// A claim takes everything claimable: claiming again at the same time
/// yields nothing.
pub proof fn lemma_claim_exhausts_claimable(s: GrantState)
    requires
        s.schedule_defined(),
    ensures
        s.after_claim().claimable() == 0,
{
    lemma_claimable_within_remaining(s);
    lemma_vested_within_total(s);
    assert(s.claimable() > 0 ==> s.claimed + s.claimable() <= s.vested());
    assert(s.after_claim().claimed == s.claimed + s.claimable());
    assert(s.after_claim().remaining == s.remaining - s.claimable());
    assert(s.after_claim().vested() == s.vested());
}

/// Clawing back part of the remaining balance into fees keeps
/// `total == claimed + remaining + fees`.
pub proof fn lemma_clawback_preserves_invariant(s: GrantState, amount: u128)
    requires
        s.invariant_holds(),
        amount <= s.remaining,
    ensures
        s.after_clawback(amount).invariant_holds(),
        s.after_clawback(amount).total_amount == s.total_amount,
        s.after_clawback(amount).claimed == s.claimed,
{
}

/// Nothing accrues during a pause: the vested and the claimable amounts
/// are the same before and after it, and the invariant is untouched.
pub proof fn lemma_pause_accrues_nothing(s: GrantState, pause: u64)
    requires
        s.start_time + pause <= u64::MAX,
        s.end_time + pause <= u64::MAX,
        s.current_time + pause <= u64::MAX,
    ensures
        s.after_pause(pause).vested() == s.vested(),
        s.after_pause(pause).claimable() == s.claimable(),
        s.after_pause(pause).schedule_defined() == s.schedule_defined(),
        s.after_pause(pause).invariant_holds() == s.invariant_holds(),
        s.after_pause(pause).total_amount == s.total_amount,
{
    let p = s.after_pause(pause);
    assert(p.elapsed() == s.elapsed());
    assert(p.duration() == s.duration());
}

/// A deployed grant still holds exactly what has not been paid out of the
/// expected total, and nothing once more than that was claimed; so its
/// reported total balances the claimed and outstanding amounts exactly when
/// it is the expected total (or, past it, the claimed amount).
pub proof fn lemma_outstanding_balance_is_unpaid_rest(expected_total: u64, total: u64, claimed: u64)
    ensures
        claimed <= expected_total ==> outstanding_balance(expected_total, claimed) == expected_total
            - claimed,
        claimed > expected_total ==> outstanding_balance(expected_total, claimed) == 0,
        claimed + outstanding_balance(expected_total, claimed) == (if claimed <= expected_total {
            expected_total as int
        } else {
            claimed as int
        }),
        (total == claimed + outstanding_balance(expected_total, claimed)) == (if claimed
            <= expected_total {
            total == expected_total
        } else {
            total == claimed
        }),
{
}

/// The grant after claiming at each of `times` in turn.
pub open spec fn claim_at_each(s: GrantState, times: Seq<u64>) -> GrantState
    decreases times.len(),
{
    if times.len() == 0 {
        s
    } else {
        claim_at_each(s, times.drop_last()).at_time(times.last()).after_claim()
    }
}

/// Rounding errors do not accumulate: however many claims a grant without
/// fees sees at non-decreasing times, provided it has claimed no more than has
/// vested at the first of them, the claimed total is exactly what has vested
/// at the last of them, the rest remains, and the invariant holds.
pub proof fn lemma_claims_track_vesting(s: GrantState, times: Seq<u64>)
    requires
        s.invariant_holds(),
        s.fees == 0,
        s.start_time <= s.end_time,
        times.len() > 0,
        s.claimed <= s.at_time(times[0]).vested(),
        forall|i: int, j: int| 0 <= i <= j < times.len() ==> times[i] <= times[j],
    ensures
        claim_at_each(s, times).claimed == s.at_time(times.last()).vested(),
        claim_at_each(s, times).remaining == s.total_amount - s.at_time(times.last()).vested(),
        claim_at_each(s, times).invariant_holds(),
        claim_at_each(s, times) == (GrantState {
            claimed: claim_at_each(s, times).claimed,
            remaining: claim_at_each(s, times).remaining,
            current_time: times.last(),
            ..s
        }),
    decreases times.len(),
{
    let t = times.last();
    let target = s.at_time(t);
    lemma_vested_within_total(target);
    if times.len() == 1 {
        assert(times.drop_last().len() == 0);
        assert(claim_at_each(s, times.drop_last()) == s);
    } else {
        let prefix = times.drop_last();
        assert forall|i: int, j: int| 0 <= i <= j < prefix.len() implies prefix[i] <= prefix[j] by {
            assert(prefix[i] == times[i]);
            assert(prefix[j] == times[j]);
        }
        assert(prefix[0] == times[0]);
        lemma_claims_track_vesting(s, prefix);
        assert(prefix.last() == times[times.len() - 2]);
        lemma_vested_monotonic(s, prefix.last(), t);
    }
}

} // verus!
