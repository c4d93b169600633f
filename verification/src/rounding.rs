use vstd::prelude::*;
use crate::grant_state::{GrantState, SCALING_FACTOR};
use crate::text::{case_violation_message, excess_claim_message};

verus! {

/// Checks claims on grants whose amounts do not divide evenly by their
/// durations, where every vested amount is rounded down.
pub struct RoundingTester {}

impl RoundingTester {
    pub fn new() -> (tester: Self) {
        RoundingTester {  }
    }

    /// Claims after one second, half way and at the end of each of several
    /// grants with repeating-decimal streaming rates (100 tokens over 3
    /// seconds, 1000 over 7, 123456789 over 13, 1 over 3, 7 over 3),
    /// starting each time from a fresh grant, and checks that the claimable
    /// amount never exceeds the remaining balance and that the invariant
    /// holds after the claim. Both always hold, so the check succeeds.
    pub fn test_repeating_decimals(&self) -> (result: Result<(), String>)
        ensures
            result == Ok::<(), String>(()),
    {
        let test_cases: Vec<(u64, u64, &str)> = vec![
            (100 * SCALING_FACTOR, 3, "100 tokens over 3 seconds"),
            (1000 * SCALING_FACTOR, 7, "1000 tokens over 7 seconds"),
            (123456789 * SCALING_FACTOR, 13, "123456789 tokens over 13 seconds"),
            (1 * SCALING_FACTOR, 3, "1 token over 3 seconds"),
            (7 * SCALING_FACTOR, 3, "7 tokens over 3 seconds"),
        ];
        let mut case_idx: usize = 0;
        while case_idx < test_cases.len()
            invariant
                case_idx <= test_cases.len(),
            decreases test_cases.len() - case_idx,
        {
            let (total_amount, duration, description) = test_cases[case_idx];
            let amount: u128 = ((total_amount / SCALING_FACTOR) as u32) as u128;
            let grant_state = GrantState {
                total_amount: amount,
                claimed: 0,
                remaining: amount,
                fees: 0,
                start_time: 0,
                end_time: duration,
                current_time: duration,
            };
            let time_intervals: Vec<u64> = vec![1, duration / 2, duration];
            let mut time_idx: usize = 0;
            while time_idx < time_intervals.len()
                invariant
                    time_idx <= time_intervals.len(),
                    grant_state.invariant_holds(),
                    grant_state.claimed == 0,
                    grant_state.fees == 0,
                    grant_state.start_time <= grant_state.end_time,
                decreases time_intervals.len() - time_idx,
            {
                let current_time = time_intervals[time_idx];
                let mut test_state = grant_state;
                test_state.current_time = current_time;
                let claimable = test_state.expected_claimable();
                if claimable > test_state.remaining {
                    return Err(excess_claim_message(description, claimable, test_state.remaining));
                }
                let new_claimed = test_state.claimed + claimable;
                let new_remaining = test_state.remaining - claimable;
                test_state.claimed = new_claimed;
                test_state.remaining = new_remaining;
                if !test_state.verify_invariant() {
                    return Err(
                        case_violation_message(
                            description,
                            test_state.total_amount,
                            test_state.claimed,
                            test_state.remaining,
                        ),
                    );
                }
                time_idx = time_idx + 1;
            }
            case_idx = case_idx + 1;
        }
        Ok(())
    }
}

} // verus!
