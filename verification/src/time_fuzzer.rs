use vstd::prelude::*;
use crate::grant_state::{GrantState, TEN_YEARS_SECONDS};
use crate::laws::lemma_vested_within_total;
use crate::text::{time_violation_message, time_violation_text};

verus! {

/// The `i`-th of the evenly spread sample times, shifted by a daily variation.
pub open spec fn sampled_time(i: int) -> int {
    i * TEN_YEARS_SECONDS / 100 + (i * 12345) % 86400
}

/// The edge-case times around a ten-year schedule.
pub open spec fn edge_times() -> Seq<u64> {
    seq![
        0u64,
        1u64,
        (TEN_YEARS_SECONDS / 2) as u64,
        (TEN_YEARS_SECONDS - 1) as u64,
        TEN_YEARS_SECONDS,
        (TEN_YEARS_SECONDS + 1) as u64,
    ]
}

/// The first `n` sample times.
pub open spec fn sampled_times(n: nat) -> Seq<u64> {
    Seq::new(n, |i: int| sampled_time(i) as u64)
}

/// The times at which the fuzzer evaluates a grant: the edge cases, then one
/// hundred samples spread over ten years.
pub open spec fn fuzzed_times() -> Seq<u64> {
    edge_times() + sampled_times(100)
}

/// A grant the fuzzer can evaluate: its schedule is defined at every fuzzed
/// time.
pub open spec fn fuzzable(s: GrantState) -> bool {
    forall|k: int|
        0 <= k < fuzzed_times().len() ==> #[trigger] fuzzed_times()[k] <= s.start_time || s.start_time
            <= s.end_time
}

/// Fuzzing harness for time-based calculations across ten years.
pub struct TimeFuzzer {}

impl TimeFuzzer {
    pub fn new() -> (fuzzer: Self) {
        TimeFuzzer {  }
    }

    /// The fuzzed times: edge cases around a ten-year schedule, then one
    /// hundred samples across it.
    pub fn generate_time_cases() -> (cases: Vec<u64>)
        ensures
            cases@ == fuzzed_times(),
            cases.len() == 106,
            cases[0] == 0 && cases[1] == 1 && cases[2] == 157_680_000 && cases[3] == 315_359_999
                && cases[4] == 315_360_000 && cases[5] == 315_360_001,
            forall|i: int|
                0 <= i < 100 ==> #[trigger] cases[6 + i] == i * 3_153_600 + (i * 12345) % 86400,
    {
        let mut cases: Vec<u64> = Vec::new();
        cases.push(0);
        cases.push(1);
        cases.push(TEN_YEARS_SECONDS / 2);
        cases.push(TEN_YEARS_SECONDS - 1);
        cases.push(TEN_YEARS_SECONDS);
        cases.push(TEN_YEARS_SECONDS + 1);
        assert(cases@ =~= edge_times() + sampled_times(0));
        let mut i: u64 = 0;
        while i < 100
            invariant
                i <= 100,
                cases@ == edge_times() + sampled_times(i as nat),
            decreases 100 - i,
        {
            let rand_time: u64 = (i * TEN_YEARS_SECONDS / 100) + (i * 12345) % 86400;
            assert(sampled_times((i + 1) as nat) =~= sampled_times(i as nat).push(rand_time));
            assert(edge_times() + sampled_times((i + 1) as nat) =~= (edge_times() + sampled_times(
                i as nat,
            )).push(rand_time));
            cases.push(rand_time);
            i = i + 1;
        }
        cases
    }

    /// Starting each time from `grant_state`, claims what is claimable at each
    /// fuzzed time (moving it from the remaining balance to the claimed one)
    /// and checks the invariant after the claim.
    ///
    /// A claim preserves `total == claimed + remaining + fees`, so the check
    /// succeeds exactly when the grant satisfies the invariant; otherwise it
    /// fails at the first fuzzed time, zero, where nothing is claimable.
    pub fn test_time_invariant_preservation(&self, grant_state: &GrantState) -> (result: Result<(), String>)
        requires
            fuzzable(*grant_state),
        ensures
            grant_state.invariant_holds() ==> result == Ok::<(), String>(()),
            !grant_state.invariant_holds() ==> (result matches Err(message) && message@
                == time_violation_text(
                0,
                grant_state.total_amount as nat,
                grant_state.claimed as nat,
                grant_state.remaining as nat,
                grant_state.fees as nat,
            )),
    {
        let time_cases = Self::generate_time_cases();
        let mut idx: usize = 0;
        while idx < time_cases.len()
            invariant
                time_cases@ == fuzzed_times(),
                fuzzable(*grant_state),
                idx <= time_cases.len(),
                idx > 0 ==> grant_state.invariant_holds(),
            decreases time_cases.len() - idx,
        {
            let current_time = time_cases[idx];
            let mut test_state = *grant_state;
            test_state.current_time = current_time;
            assert(fuzzed_times()[idx as int] <= grant_state.start_time || grant_state.start_time
                <= grant_state.end_time);
            proof {
                lemma_vested_within_total(test_state);
            }
            let claimable = test_state.expected_claimable();
            let new_claimed = test_state.claimed + claimable;
            let new_remaining = test_state.remaining - claimable;
            test_state.claimed = new_claimed;
            test_state.remaining = new_remaining;
            if !test_state.verify_invariant() {
                assert(idx == 0);
                assert(current_time == 0);
                assert(claimable == 0);
                return Err(
                    time_violation_message(
                        current_time,
                        test_state.total_amount,
                        test_state.claimed,
                        test_state.remaining,
                        test_state.fees,
                    ),
                );
            }
            idx = idx + 1;
        }
        Ok(())
    }
}

} // verus!
