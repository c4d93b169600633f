use vstd::prelude::*;

verus! {

/// The character of a decimal digit.
pub open spec fn digit_char(d: nat) -> char {
    if d == 0 {
        '0'
    } else if d == 1 {
        '1'
    } else if d == 2 {
        '2'
    } else if d == 3 {
        '3'
    } else if d == 4 {
        '4'
    } else if d == 5 {
        '5'
    } else if d == 6 {
        '6'
    } else if d == 7 {
        '7'
    } else if d == 8 {
        '8'
    } else {
        '9'
    }
}

/// The decimal notation of `n`, most significant digit first, without
/// leading zeros.
pub open spec fn decimal(n: nat) -> Seq<char>
    decreases n,
{
    if n < 10 {
        seq![digit_char(n)]
    } else {
        decimal(n / 10).push(digit_char(n % 10))
    }
}

/// The value of a decimal digit character.
pub open spec fn digit_value(c: char) -> int {
    (c as int) - ('0' as int)
}

/// Whether a character is a decimal digit.
pub open spec fn is_digit(c: char) -> bool {
    ('0' as int) <= (c as int) <= ('9' as int)
}

/// The number a string of decimal digits denotes, most significant first.
pub open spec fn decimal_value(s: Seq<char>) -> int
    decreases s.len(),
{
    if s.len() == 0 {
        0
    } else {
        decimal_value(s.drop_last()) * 10 + digit_value(s.last())
    }
}

/// The decimal notation of `n` consists of digits only, denotes `n`, and
/// has no leading zero.
pub proof fn lemma_decimal_denotes(n: nat)
    ensures
        decimal(n).len() >= 1,
        forall|i: int| 0 <= i < decimal(n).len() ==> is_digit(#[trigger] decimal(n)[i]),
        decimal_value(decimal(n)) == n,
        n >= 10 ==> decimal(n)[0] != '0',
    decreases n,
{
    assert(digit_value(digit_char(n % 10)) == n % 10);
    if n < 10 {
        assert(decimal(n).drop_last() =~= Seq::<char>::empty());
        assert(decimal_value(Seq::<char>::empty()) == 0);
        assert(decimal_value(decimal(n)) == decimal_value(decimal(n).drop_last()) * 10
            + digit_value(decimal(n).last()));
    }
    if n >= 10 {
        lemma_decimal_denotes(n / 10);
        let prefix = decimal(n / 10);
        assert(decimal(n).drop_last() =~= prefix);
        assert(decimal(n).last() == digit_char(n % 10));
        assert(decimal_value(decimal(n)) == decimal_value(prefix) * 10 + digit_value(
            digit_char(n % 10),
        ));
        assert((n / 10) * 10 + n % 10 == n);
        assert(decimal(n)[0] == prefix[0]);
        if n / 10 < 10 {
            assert(n / 10 != 0);
        }
    }
}

/// The one-character string of a decimal digit.
fn digit_str(d: u128) -> (s: &'static str)
    requires
        d < 10,
    ensures
        s@ == seq![digit_char(d as nat)],
{
    if d == 0 {
        proof { reveal_strlit("0"); }
        "0"
    } else if d == 1 {
        proof { reveal_strlit("1"); }
        "1"
    } else if d == 2 {
        proof { reveal_strlit("2"); }
        "2"
    } else if d == 3 {
        proof { reveal_strlit("3"); }
        "3"
    } else if d == 4 {
        proof { reveal_strlit("4"); }
        "4"
    } else if d == 5 {
        proof { reveal_strlit("5"); }
        "5"
    } else if d == 6 {
        proof { reveal_strlit("6"); }
        "6"
    } else if d == 7 {
        proof { reveal_strlit("7"); }
        "7"
    } else if d == 8 {
        proof { reveal_strlit("8"); }
        "8"
    } else {
        proof { reveal_strlit("9"); }
        "9"
    }
}

/// Writes `n` in decimal notation.
pub fn decimal_string(n: u128) -> (s: String)
    ensures
        s@ == decimal(n as nat),
        decimal_value(s@) == n,
        forall|i: int| 0 <= i < s@.len() ==> is_digit(#[trigger] s@[i]),
        n >= 10 ==> s@[0] != '0',
    decreases n,
{
    proof {
        lemma_decimal_denotes(n as nat);
    }
    if n < 10 {
        String::from_str(digit_str(n))
    } else {
        let mut s = decimal_string(n / 10);
        s.append(digit_str(n % 10));
        s
    }
}

/// The report of a state that broke the invariant during time fuzzing.
pub open spec fn time_violation_text(time: nat, total: nat, claimed: nat, remaining: nat, fees: nat) -> Seq<char> {
    "Invariant violated at time "@ + decimal(time) + ": total="@ + decimal(total) + ", claimed="@
        + decimal(claimed) + ", remaining="@ + decimal(remaining) + ", fees="@ + decimal(fees)
}

/// Writes the report of a state that broke the invariant during time fuzzing.
pub fn time_violation_message(time: u64, total: u128, claimed: u128, remaining: u128, fees: u128) -> (s: String)
    ensures
        s@ == time_violation_text(time as nat, total as nat, claimed as nat, remaining as nat, fees as nat),
{
    let mut s = String::from_str("Invariant violated at time ");
    s.append(decimal_string(time as u128).as_str());
    s.append(": total=");
    s.append(decimal_string(total).as_str());
    s.append(", claimed=");
    s.append(decimal_string(claimed).as_str());
    s.append(", remaining=");
    s.append(decimal_string(remaining).as_str());
    s.append(", fees=");
    s.append(decimal_string(fees).as_str());
    s
}

/// The report of a claimable amount that exceeds the remaining balance.
pub open spec fn excess_claim_text(description: Seq<char>, claimable: nat, remaining: nat) -> Seq<char> {
    "Claimable exceeds remaining in "@ + description + ": claimable="@ + decimal(claimable)
        + ", remaining="@ + decimal(remaining)
}

/// Writes the report of a claimable amount that exceeds the remaining balance.
pub fn excess_claim_message(description: &str, claimable: u128, remaining: u128) -> (s: String)
    ensures
        s@ == excess_claim_text(description@, claimable as nat, remaining as nat),
{
    let mut s = String::from_str("Claimable exceeds remaining in ");
    s.append(description);
    s.append(": claimable=");
    s.append(decimal_string(claimable).as_str());
    s.append(", remaining=");
    s.append(decimal_string(remaining).as_str());
    s
}

/// The report of a broken invariant in a named case.
pub open spec fn case_violation_text(description: Seq<char>, total: nat, claimed: nat, remaining: nat) -> Seq<char> {
    "Invariant violated in "@ + description + ": total="@ + decimal(total) + ", claimed="@
        + decimal(claimed) + ", remaining="@ + decimal(remaining)
}

/// Writes the report of a broken invariant in a named case.
pub fn case_violation_message(description: &str, total: u128, claimed: u128, remaining: u128) -> (s: String)
    ensures
        s@ == case_violation_text(description@, total as nat, claimed as nat, remaining as nat),
{
    let mut s = String::from_str("Invariant violated in ");
    s.append(description);
    s.append(": total=");
    s.append(decimal_string(total).as_str());
    s.append(", claimed=");
    s.append(decimal_string(claimed).as_str());
    s.append(", remaining=");
    s.append(decimal_string(remaining).as_str());
    s
}

/// The report of a broken invariant at a given time.
pub open spec fn time_point_violation_text(time: nat) -> Seq<char> {
    "Invariant violated at time "@ + decimal(time)
}

/// Writes the report of a broken invariant at a given time.
pub fn time_point_violation_message(time: u64) -> (s: String)
    ensures
        s@ == time_point_violation_text(time as nat),
{
    let mut s = String::from_str("Invariant violated at time ");
    s.append(decimal_string(time as u128).as_str());
    s
}

/// The report of a failed scenario.
pub open spec fn scenario_failure_text(description: Seq<char>, reason: Seq<char>) -> Seq<char> {
    "Scenario '"@ + description + "' failed: "@ + reason
}

/// Writes the report of a failed scenario.
pub fn scenario_failure_message(description: &str, reason: &str) -> (s: String)
    ensures
        s@ == scenario_failure_text(description@, reason@),
{
    let mut s = String::from_str("Scenario '");
    s.append(description);
    s.append("' failed: ");
    s.append(reason);
    s
}

} // verus!
