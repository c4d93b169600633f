use grant_contracts::grant_state::{GrantState, TEN_YEARS_SECONDS};

fn fresh(total: u128, start: u64, end: u64, now: u64) -> GrantState {
    GrantState {
        total_amount: total,
        claimed: 0,
        remaining: total,
        fees: 0,
        start_time: start,
        end_time: end,
        current_time: now,
    }
}

fn claim(state: &mut GrantState) -> u128 {
    let amount = state.expected_claimable();
    state.claimed += amount;
    state.remaining -= amount;
    amount
}

#[test]
fn linear_vesting_half_way() {
    assert_eq!(fresh(1000, 0, 100, 50).expected_claimable(), 500);
}

#[test]
fn linear_vesting_rounds_down() {
    // 100 tokens over 3 seconds: 33.33.. after one second.
    assert_eq!(fresh(100, 0, 3, 1).expected_claimable(), 33);
    assert_eq!(fresh(100, 0, 3, 2).expected_claimable(), 66);
    // 1000 tokens over 7 seconds: 428.57.. after three seconds.
    assert_eq!(fresh(1000, 0, 7, 3).expected_claimable(), 428);
}

#[test]
fn rounding_error_is_below_one_unit() {
    for now in 1..13u64 {
        let vested = fresh(123456789, 0, 13, now).expected_claimable();
        let exact_times_duration = 123456789u128 * now as u128;
        assert!(vested * 13 <= exact_times_duration);
        assert!(exact_times_duration < (vested + 1) * 13);
    }
}

#[test]
fn nothing_claimable_before_start() {
    assert_eq!(fresh(1000, 100, 200, 50).expected_claimable(), 0);
    assert_eq!(fresh(1000, 100, 200, 100).expected_claimable(), 0);
    // Before the start the schedule may even end before it starts.
    assert_eq!(fresh(1000, 100, 10, 100).expected_claimable(), 0);
}

#[test]
fn everything_claimable_after_end() {
    assert_eq!(fresh(1000, 100, 200, 200).expected_claimable(), 1000);
    assert_eq!(fresh(1000, 100, 200, 5000).expected_claimable(), 1000);
}

#[test]
fn schedule_with_offset_start() {
    // A quarter of the way through a schedule from 1000 to 1400.
    assert_eq!(fresh(800, 1000, 1400, 1100).expected_claimable(), 200);
}

#[test]
fn already_claimed_is_deducted() {
    let mut state = fresh(1000, 0, 100, 50);
    state.claimed = 300;
    state.remaining = 700;
    assert_eq!(state.expected_claimable(), 200);
    state.claimed = 600;
    state.remaining = 400;
    assert_eq!(state.expected_claimable(), 0);
}

#[test]
fn claimable_never_exceeds_remaining() {
    // 333 claimed, half of the remaining 667 clawed back into fees.
    let state = GrantState {
        total_amount: 1000,
        claimed: 333,
        remaining: 334,
        fees: 333,
        start_time: 0,
        end_time: 100,
        current_time: 100,
    };
    assert_eq!(state.expected_claimable(), 334);
}

#[test]
fn large_grant_over_ten_years() {
    let total: u128 = u128::MAX / 2;
    let state = fresh(total, 0, TEN_YEARS_SECONDS, TEN_YEARS_SECONDS / 2);
    assert_eq!(state.expected_claimable(), total / 2);
}

#[test]
fn invariant_counts_fees() {
    let mut state = fresh(1000, 0, 100, 50);
    state.claimed = 300;
    state.remaining = 600;
    assert!(!state.verify_invariant());
    state.fees = 100;
    assert!(state.verify_invariant());
}

#[test]
fn invariant_rejects_overflowing_sum() {
    let state = GrantState {
        total_amount: 5,
        claimed: u128::MAX,
        remaining: 6,
        fees: 0,
        start_time: 0,
        end_time: 1,
        current_time: 0,
    };
    assert!(!state.verify_invariant());
}

#[test]
fn claim_preserves_invariant() {
    let mut state = fresh(1000, 0, 7, 3);
    claim(&mut state);
    assert!(state.verify_invariant());
    assert_eq!(state.claimed, 428);
    assert_eq!(state.remaining, 572);
}

#[test]
fn second_claim_at_same_time_is_empty() {
    let mut state = fresh(1000, 0, 1000, 1000);
    assert_eq!(claim(&mut state), 1000);
    assert_eq!(state.expected_claimable(), 0);
}

#[test]
fn clawback_preserves_invariant() {
    let mut state = fresh(1000, 0, 100, 25);
    claim(&mut state);
    let clawback = state.remaining / 2;
    state.remaining -= clawback;
    state.fees += clawback;
    assert!(state.verify_invariant());
    assert_eq!((state.claimed, state.remaining, state.fees), (250, 375, 375));
}

#[test]
fn pause_accrues_nothing() {
    let mut state = fresh(1000, 0, 100, 25);
    claim(&mut state);
    let pause = 40;
    state.start_time += pause;
    state.end_time += pause;
    state.current_time += pause;
    assert_eq!(state.expected_claimable(), 0);
    state.current_time = state.end_time;
    assert_eq!(state.expected_claimable(), 750);
}

#[test]
fn repeated_claims_do_not_accumulate_rounding() {
    let mut state = fresh(100, 0, 3, 0);
    for now in [1u64, 1, 2, 3] {
        state.current_time = now;
        claim(&mut state);
        assert!(state.verify_invariant());
    }
    assert_eq!(state.claimed, 100);
    assert_eq!(state.remaining, 0);

    let mut state = fresh(1000, 0, 7, 0);
    for now in 1..=5u64 {
        state.current_time = now;
        claim(&mut state);
        assert_eq!(state.claimed, 1000 * now as u128 / 7);
    }
}

#[test]
fn claims_on_partly_claimed_grant_track_vesting() {
    let mut state = fresh(1000, 0, 7, 0);
    state.claimed = 100;
    state.remaining = 900;
    for now in [1u64, 3, 5] {
        state.current_time = now;
        claim(&mut state);
        assert_eq!(state.claimed, 1000 * now as u128 / 7);
        assert!(state.verify_invariant());
    }
}
