use vstd::prelude::*;

verus! {

/// `a - b`, or zero when `b` exceeds `a`.
pub open spec fn saturating_difference(a: int, b: int) -> int {
    if a > b {
        a - b
    } else {
        0
    }
}

/// The balance a deployed grant of `expected_total` still holds for its
/// recipient once `claimed` has been paid out: the rest of the grant, or
/// nothing when more than the grant has been claimed.
pub open spec fn outstanding_balance(expected_total: u64, claimed: u64) -> int {
    saturating_difference(expected_total as int, claimed as int)
}

/// Checks a deployed grant's reported total and claimed amount against the
/// expected total: the reported total must equal the claimed amount plus the
/// balance still outstanding (`total == claimed + remaining`, the grant
/// charging no fees). This holds at every point of the grant's life, from
/// its creation to its last claim.
pub fn verify_contract_invariant(expected_total: u64, total: u64, claimed: u64) -> (holds: bool)
    ensures
        holds == (total == claimed + outstanding_balance(expected_total, claimed)),
        claimed <= expected_total ==> (holds <==> total == expected_total),
        claimed > expected_total ==> (holds <==> total == claimed),
{
    let remaining: u64 = expected_total.saturating_sub(claimed);
    total == claimed + remaining
}

} // verus!
