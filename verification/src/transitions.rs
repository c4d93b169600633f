use vstd::prelude::*;
use crate::grant_state::{GrantState, SCALING_FACTOR, TEN_YEARS_SECONDS};
use crate::laws::{lemma_claim_exhausts_claimable, lemma_pause_accrues_nothing};
use crate::text::{scenario_failure_message, time_point_violation_message, time_point_violation_text};

verus! {

/// Runs pause, resume and clawback sequences on a grant and checks the
/// invariant after each.
pub struct StateTransitionTester {}

impl StateTransitionTester {
    pub fn new() -> (tester: Self) {
        StateTransitionTester {  }
    }

    /// Runs eight scenarios on a fresh grant of 1000 tokens over ten years
    /// (normal flow, early pause, late pause, multiple pauses, early
    /// clawback, late clawback, pause then clawback, clawback then resume) and
    /// reports the first that fails. None fails: claims never exceed the
    /// remaining balance, nothing accrues during a pause, and claims and
    /// clawbacks keep the invariant.
    pub fn test_state_permutations(&self) -> (result: Result<(), String>)
        ensures
            result == Ok::<(), String>(()),
    {
        let total_amount: u64 = 1000 * SCALING_FACTOR;
        let duration: u64 = TEN_YEARS_SECONDS;
        let amount: u128 = ((total_amount / SCALING_FACTOR) as u32) as u128;
        let initial_state = GrantState {
            total_amount: amount,
            claimed: 0,
            remaining: amount,
            fees: 0,
            start_time: 0,
            end_time: duration,
            current_time: 0,
        };
        let scenarios: Vec<(&str, Result<(), String>)> = vec![
            ("Normal flow", self.test_normal_flow(initial_state)),
            ("Pause early", self.test_pause_early(initial_state)),
            ("Pause late", self.test_pause_late(initial_state)),
            ("Multiple pauses", self.test_multiple_pauses(initial_state)),
            ("Clawback early", self.test_clawback_early(initial_state)),
            ("Clawback late", self.test_clawback_late(initial_state)),
            ("Pause then clawback", self.test_pause_then_clawback(initial_state)),
            ("Clawback then resume", self.test_clawback_then_resume(initial_state)),
        ];
        let mut idx: usize = 0;
        while idx < scenarios.len()
            invariant
                idx <= scenarios.len(),
                forall|k: int| 0 <= k < scenarios.len() ==> #[trigger] scenarios@[k].1 == Ok::<(), String>(()),
            decreases scenarios.len() - idx,
        {
            let description = scenarios[idx].0;
            match &scenarios[idx].1 {
                Err(e) => {
                    return Err(scenario_failure_message(description, e.as_str()));
                },
                Ok(_) => {},
            }
            idx = idx + 1;
        }
        Ok(())
    }

    /// Claims at a quarter, half, three quarters and the end of the schedule,
    /// checking the invariant after each claim. Claims preserve the
    /// invariant, so this fails, at the first claim, exactly when the grant
    /// does not satisfy it.
    fn test_normal_flow(&self, grant: GrantState) -> (result: Result<(), String>)
        requires
            3 * grant.end_time <= u64::MAX,
        ensures
            grant.invariant_holds() ==> result == Ok::<(), String>(()),
            !grant.invariant_holds() ==> (result matches Err(message) && message@
                == time_point_violation_text((grant.end_time / 4) as nat)),
    {
        let mut state = grant;
        let claim_points: Vec<u64> = vec![
            state.end_time / 4,
            state.end_time / 2,
            (3 * state.end_time) / 4,
            state.end_time,
        ];
        let mut idx: usize = 0;
        while idx < claim_points.len()
            invariant
                idx <= claim_points.len(),
                claim_points@ == seq![
                    (grant.end_time / 4) as u64,
                    (grant.end_time / 2) as u64,
                    ((3 * grant.end_time) / 4) as u64,
                    grant.end_time,
                ],
                state.end_time == grant.end_time,
                state.start_time == grant.start_time,
                state.total_amount == grant.total_amount,
                state.invariant_holds() == grant.invariant_holds(),
                idx > 0 ==> grant.invariant_holds(),
            decreases claim_points.len() - idx,
        {
            let time_point = claim_points[idx];
            state.current_time = time_point;
            state.apply_claim();
            assert(state.invariant_holds() == grant.invariant_holds());
            if !state.verify_invariant() {
                assert(idx == 0);
                assert(time_point == grant.end_time / 4);
                return Err(time_point_violation_message(time_point));
            }
            idx = idx + 1;
        }
        Ok(())
    }

    /// Claims at a quarter of the schedule, pauses for a quarter, checks that
    /// nothing accrued during the pause, then resumes, claims at the end and
    /// checks the invariant. Nothing ever accrues during a pause, and claims
    /// preserve the invariant, so this fails exactly when the grant does not
    /// satisfy it.
    fn test_pause_early(&self, state: GrantState) -> (result: Result<(), String>)
        requires
            state.start_time + state.end_time / 4 <= u64::MAX,
            state.end_time + state.end_time / 4 <= u64::MAX,
        ensures
            state.invariant_holds() ==> result == Ok::<(), String>(()),
            !state.invariant_holds() ==> (result matches Err(message) && message@
                == "Invariant violated after pause/resume"@),
    {
        let ghost initial = state;
        let mut state = state;
        let pause_time = state.end_time / 4;
        state.current_time = pause_time;
        let ghost before_claim = state;
        state.apply_claim();
        proof {
            lemma_claim_exhausts_claimable(before_claim);
        }
        let pause_duration = state.end_time / 4;
        let ghost before_pause = state;
        state.apply_pause(pause_duration);
        proof {
            lemma_pause_accrues_nothing(before_pause, pause_duration);
        }
        let claimable_during_pause = state.expected_claimable();
        if claimable_during_pause > 0 {
            return Err(String::from_str("Should not accrue during pause"));
        }
        state.current_time = state.end_time;
        state.apply_claim();
        assert(state.invariant_holds() == initial.invariant_holds());
        if !state.verify_invariant() {
            return Err(String::from_str("Invariant violated after pause/resume"));
        }
        Ok(())
    }

    /// Claims at three quarters of the schedule, pauses briefly, then resumes,
    /// claims at the end and checks the invariant, which fails exactly when
    /// the grant does not satisfy it.
    fn test_pause_late(&self, state: GrantState) -> (result: Result<(), String>)
        requires
            3 * state.end_time <= u64::MAX,
            state.start_time + state.end_time / 20 <= u64::MAX,
            state.end_time + state.end_time / 20 <= u64::MAX,
        ensures
            state.invariant_holds() ==> result == Ok::<(), String>(()),
            !state.invariant_holds() ==> (result matches Err(message) && message@
                == "Invariant violated after late pause"@),
    {
        let ghost initial = state;
        let mut state = state;
        let pause_time = (3 * state.end_time) / 4;
        state.current_time = pause_time;
        state.apply_claim();
        let pause_duration = state.end_time / 20;
        state.apply_pause(pause_duration);
        state.current_time = state.end_time;
        state.apply_claim();
        assert(state.invariant_holds() == initial.invariant_holds());
        if !state.verify_invariant() {
            return Err(String::from_str("Invariant violated after late pause"));
        }
        Ok(())
    }

    /// Four claim-and-pause cycles at fifths of the schedule, then a final
    /// claim at the end and a check of the invariant, which fails exactly when
    /// the grant does not satisfy it.
    fn test_multiple_pauses(&self, grant: GrantState) -> (result: Result<(), String>)
        requires
            4 * grant.end_time <= u64::MAX,
            grant.start_time + grant.end_time <= u64::MAX,
        ensures
            grant.invariant_holds() ==> result == Ok::<(), String>(()),
            !grant.invariant_holds() ==> (result matches Err(message) && message@
                == "Invariant violated after multiple pauses"@),
    {
        let mut state = grant;
        let pause_points: Vec<u64> = vec![
            state.end_time / 5,
            (2 * state.end_time) / 5,
            (3 * state.end_time) / 5,
            (4 * state.end_time) / 5,
        ];
        let mut idx: usize = 0;
        while idx < pause_points.len()
            invariant
                idx <= pause_points.len(),
                pause_points.len() == 4,
                forall|k: int|
                    0 <= k < pause_points.len() ==> #[trigger] pause_points@[k] <= grant.end_time,
                grant.end_time <= state.end_time,
                state.start_time == grant.start_time + (state.end_time - grant.end_time),
                4 * (state.end_time - grant.end_time) <= idx * grant.end_time,
                4 * grant.end_time <= u64::MAX,
                grant.start_time + grant.end_time <= u64::MAX,
                state.total_amount == grant.total_amount,
                state.invariant_holds() == grant.invariant_holds(),
            decreases pause_points.len() - idx,
        {
            let pause_time = pause_points[idx];
            state.current_time = pause_time;
            state.apply_claim();
            let pause_duration = state.end_time / 20;
            proof {
                let e0 = grant.end_time as int;
                let shift = state.end_time - grant.end_time;
                let i = idx as int;
                assert(pause_duration * 20 <= e0 + shift);
                assert(4 * (shift + pause_duration) <= (i + 1) * e0) by (nonlinear_arith)
                    requires
                        4 * shift <= i * e0,
                        0 <= i < 4,
                        0 <= shift,
                        0 <= e0,
                        0 <= pause_duration,
                        pause_duration * 20 <= e0 + shift,
                ;
                assert((i + 1) * e0 <= 4 * e0) by (nonlinear_arith)
                    requires 0 <= i < 4, 0 <= e0;
            }
            state.apply_pause(pause_duration);
            idx = idx + 1;
        }
        state.current_time = state.end_time;
        state.apply_claim();
        assert(state.invariant_holds() == grant.invariant_holds());
        if !state.verify_invariant() {
            return Err(String::from_str("Invariant violated after multiple pauses"));
        }
        Ok(())
    }

    /// Claims at a quarter of the schedule, claws back all that remains and
    /// checks the invariant, which fails exactly when the grant does not
    /// satisfy it. A clawback whose fees no longer fit in `u128` can only
    /// come from such a grant, and is reported the same way.
    fn test_clawback_early(&self, state: GrantState) -> (result: Result<(), String>)
        ensures
            state.invariant_holds() ==> result == Ok::<(), String>(()),
            !state.invariant_holds() ==> (result matches Err(message) && message@
                == "Invariant violated after early clawback"@),
    {
        let ghost initial = state;
        let mut state = state;
        let clawback_time = state.end_time / 4;
        state.current_time = clawback_time;
        state.apply_claim();
        let clawback_amount = state.remaining;
        if !state.apply_clawback(clawback_amount) {
            return Err(String::from_str("Invariant violated after early clawback"));
        }
        assert(state.invariant_holds() == initial.invariant_holds());
        if !state.verify_invariant() {
            return Err(String::from_str("Invariant violated after early clawback"));
        }
        Ok(())
    }

    /// Claims at three quarters and at the end of the schedule, checks the
    /// invariant, claws back whatever still remains and checks it again. The
    /// first check fails exactly when the grant does not satisfy the
    /// invariant; the second never does.
    fn test_clawback_late(&self, state: GrantState) -> (result: Result<(), String>)
        requires
            3 * state.end_time <= u64::MAX,
        ensures
            state.invariant_holds() ==> result == Ok::<(), String>(()),
            !state.invariant_holds() ==> (result matches Err(message) && message@
                == "Invariant violated before late clawback"@),
    {
        let ghost initial = state;
        let mut state = state;
        state.current_time = (3 * state.end_time) / 4;
        state.apply_claim();
        state.current_time = state.end_time;
        state.apply_claim();
        assert(state.invariant_holds() == initial.invariant_holds());
        if !state.verify_invariant() {
            return Err(String::from_str("Invariant violated before late clawback"));
        }
        if state.remaining > 0 {
            let clawback_amount = state.remaining;
            if !state.apply_clawback(clawback_amount) {
                return Err(String::from_str("Invariant violated after late clawback"));
            }
        }
        if !state.verify_invariant() {
            return Err(String::from_str("Invariant violated after late clawback"));
        }
        Ok(())
    }

    /// Claims half way, pauses, claws back all that remains during the pause
    /// and checks the invariant, which fails exactly when the grant does not
    /// satisfy it. A clawback whose fees no longer fit in `u128` can only
    /// come from such a grant, and is reported the same way.
    fn test_pause_then_clawback(&self, state: GrantState) -> (result: Result<(), String>)
        requires
            state.start_time + state.end_time / 10 <= u64::MAX,
            state.end_time + state.end_time / 10 <= u64::MAX,
        ensures
            state.invariant_holds() ==> result == Ok::<(), String>(()),
            !state.invariant_holds() ==> (result matches Err(message) && message@
                == "Invariant violated after pause then clawback"@),
    {
        let ghost initial = state;
        let mut state = state;
        let pause_time = state.end_time / 2;
        state.current_time = pause_time;
        state.apply_claim();
        state.apply_pause(state.end_time / 10);
        let clawback_amount = state.remaining;
        if !state.apply_clawback(clawback_amount) {
            return Err(String::from_str("Invariant violated after pause then clawback"));
        }
        assert(state.invariant_holds() == initial.invariant_holds());
        if !state.verify_invariant() {
            return Err(String::from_str("Invariant violated after pause then clawback"));
        }
        Ok(())
    }

    /// Claims at a third of the schedule, claws back half of what remains,
    /// then resumes, claims at the end and checks the invariant, which fails
    /// exactly when the grant does not satisfy it. A clawback whose fees no
    /// longer fit in `u128` can only come from such a grant, and is reported
    /// the same way.
    fn test_clawback_then_resume(&self, state: GrantState) -> (result: Result<(), String>)
        ensures
            state.invariant_holds() ==> result == Ok::<(), String>(()),
            !state.invariant_holds() ==> (result matches Err(message) && message@
                == "Invariant violated after clawback then resume"@),
    {
        let ghost initial = state;
        let mut state = state;
        state.current_time = state.end_time / 3;
        state.apply_claim();
        let clawback_amount = state.remaining / 2;
        if !state.apply_clawback(clawback_amount) {
            return Err(String::from_str("Invariant violated after clawback then resume"));
        }
        state.current_time = state.end_time;
        state.apply_claim();
        assert(state.invariant_holds() == initial.invariant_holds());
        if !state.verify_invariant() {
            return Err(String::from_str("Invariant violated after clawback then resume"));
        }
        Ok(())
    }
}

} // verus!
