# grant_contracts

A Verus-verified model of a linearly vesting grant stream and of the
harnesses that exercise its accounting invariant
`total_amount == claimed + remaining + fees`.

- `src/grant_state.rs`: the grant state, linear vesting rounded down, the
  claimable amount (never more than what remains) and the invariant check.
- `src/laws.rs`: proofs of the properties the model keeps: vesting is
  bounded, monotonic, complete at the end and empty before the start;
  rounding loses less than one unit and does not accumulate over repeated
  claims; claims, clawbacks and pauses preserve the invariant; a pause
  accrues nothing.
- `src/time_fuzzer.rs`, `src/rounding.rs`, `src/transitions.rs`: the time,
  rounding and pause/clawback harnesses, each with an exact contract.
- `src/contract_check.rs`: the check of a deployed grant's reported total
  against what it has paid out and still holds.
- `src/text.rs`: decimal formatting and the harnesses' reports.

Amounts are `u128` token units and times are `u64` seconds.

The crate models a grant's accounting only. It contains no on-chain
contract and no ledger, so harnesses that create, advance and claim from a
deployed grant are not part of it; `verify_contract_invariant` is the check
such a harness applies to the balances the contract reports.
