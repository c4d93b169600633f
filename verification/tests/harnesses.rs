use grant_contracts::contract_check::verify_contract_invariant;
use grant_contracts::grant_state::{GrantState, TEN_YEARS_SECONDS};
use grant_contracts::time_fuzzer::TimeFuzzer;

#[test]
fn time_cases_start_with_edge_cases() {
    let cases = TimeFuzzer::generate_time_cases();
    assert_eq!(cases.len(), 106);
    assert_eq!(
        &cases[..6],
        &[
            0,
            1,
            TEN_YEARS_SECONDS / 2,
            TEN_YEARS_SECONDS - 1,
            TEN_YEARS_SECONDS,
            TEN_YEARS_SECONDS + 1,
        ]
    );
}

#[test]
fn time_cases_sample_ten_years_with_daily_variation() {
    let cases = TimeFuzzer::generate_time_cases();
    assert_eq!(cases[6], 0);
    assert_eq!(cases[7], 3_153_600 + 12_345);
    assert_eq!(cases[8], 6_307_200 + 24_690);
    // 99 * 12345 = 1222155, which is 12555 past a whole number of days.
    assert_eq!(cases[105], 312_206_400 + 12_555);
}

#[test]
fn time_fuzzer_accepts_grant_with_fees() {
    let fuzzer = TimeFuzzer::new();
    let grant_state = GrantState {
        total_amount: 1000,
        claimed: 200,
        remaining: 700,
        fees: 100,
        start_time: 0,
        end_time: TEN_YEARS_SECONDS,
        current_time: 0,
    };
    assert_eq!(fuzzer.test_time_invariant_preservation(&grant_state), Ok(()));
}

#[test]
fn time_fuzzer_reports_broken_invariant() {
    let fuzzer = TimeFuzzer::new();
    let grant_state = GrantState {
        total_amount: 1000,
        claimed: 200,
        remaining: 700,
        fees: 50,
        start_time: 0,
        end_time: TEN_YEARS_SECONDS,
        current_time: 0,
    };
    assert_eq!(
        fuzzer.test_time_invariant_preservation(&grant_state),
        Err(String::from(
            "Invariant violated at time 0: total=1000, claimed=200, remaining=700, fees=50"
        ))
    );
}

#[test]
fn time_fuzzer_accepts_partly_claimed_grant() {
    let fuzzer = TimeFuzzer::new();
    let grant_state = GrantState {
        total_amount: 1_000_000,
        claimed: 400_000,
        remaining: 600_000,
        fees: 0,
        start_time: 1000,
        end_time: TEN_YEARS_SECONDS,
        current_time: 0,
    };
    assert_eq!(fuzzer.test_time_invariant_preservation(&grant_state), Ok(()));
}

#[test]
fn contract_invariant_over_a_grant_lifecycle() {
    // Freshly initialised: nothing claimed, everything outstanding.
    assert!(verify_contract_invariant(1000, 1000, 0));
    // Part claimed, the rest outstanding.
    assert!(verify_contract_invariant(1000, 1000, 500));
    // Fully claimed.
    assert!(verify_contract_invariant(1000, 1000, 1000));
    // A reported total that differs from the expected one.
    assert!(!verify_contract_invariant(1000, 900, 500));
    assert!(!verify_contract_invariant(1000, 1001, 0));
}

#[test]
fn contract_invariant_when_claimed_exceeds_expected_total() {
    // Nothing is outstanding, so the total must equal what was claimed.
    assert!(verify_contract_invariant(1000, 1200, 1200));
    assert!(!verify_contract_invariant(1000, 1000, 1200));
}
