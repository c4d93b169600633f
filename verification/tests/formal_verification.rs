use grant_contracts::grant_state::{GrantState, MAX_GRANT_AMOUNT, SCALING_FACTOR, TEN_YEARS_SECONDS};
use grant_contracts::rounding::RoundingTester;
use grant_contracts::time_fuzzer::TimeFuzzer;
use grant_contracts::transitions::StateTransitionTester;

#[test]
fn test_core_invariant_verification() {
    let grant_state = GrantState {
        total_amount: 1000,
        claimed: 300,
        remaining: 700,
        fees: 0,
        start_time: 0,
        end_time: 100,
        current_time: 50,
    };

    assert!(grant_state.verify_invariant());
}

#[test]
fn test_time_fuzzer_invariant_preservation() {
    let fuzzer = TimeFuzzer::new();
    let grant_state = GrantState {
        total_amount: 1000,
        claimed: 0,
        remaining: 1000,
        fees: 0,
        start_time: 0,
        end_time: TEN_YEARS_SECONDS,
        current_time: 0,
    };

    assert!(fuzzer.test_time_invariant_preservation(&grant_state).is_ok());
}

#[test]
fn formal_verification_test_rounding_error_prevention() {
    let tester = RoundingTester::new();
    assert!(tester.test_repeating_decimals().is_ok());
}

#[test]
fn test_state_transition_permutations() {
    let tester = StateTransitionTester::new();
    assert!(tester.test_state_permutations().is_ok());
}

#[test]
fn formal_verification_test_maximum_grant_amount() {
    let grant_state = GrantState {
        total_amount: (MAX_GRANT_AMOUNT / SCALING_FACTOR) as u32 as u128,
        claimed: 0,
        remaining: (MAX_GRANT_AMOUNT / SCALING_FACTOR) as u32 as u128,
        fees: 0,
        start_time: 0,
        end_time: TEN_YEARS_SECONDS,
        current_time: 0,
    };

    assert!(grant_state.verify_invariant());
}

#[test]
fn test_zero_duration_edge_case() {
    let grant_state = GrantState {
        total_amount: 1000,
        claimed: 0,
        remaining: 1000,
        fees: 0,
        start_time: 0,
        end_time: 0,
        current_time: 100,
    };

    // Should have zero claimable with zero duration
    assert_eq!(grant_state.expected_claimable(), 0);
    assert!(grant_state.verify_invariant());
}

#[test]
fn test_negative_edge_cases() {
    // Claimed exceeding total never happens in practice, but the invariant
    // must reject it.
    let grant_state = GrantState {
        total_amount: 1000,
        claimed: 1500,
        remaining: 0,
        fees: 0,
        start_time: 0,
        end_time: 100,
        current_time: 50,
    };

    assert!(!grant_state.verify_invariant());
}
