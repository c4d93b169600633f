//! A verified model of a linearly vesting grant stream.
//!
//! A grant of `total_amount` tokens vests linearly between `start_time` and
//! `end_time`. The library computes what a recipient may claim at a given
//! time and checks the accounting invariant
//! `total_amount == claimed + remaining + fees`, together with the
//! harnesses that exercise that invariant over time, over amounts that
//! divide unevenly, and over pause and clawback sequences.

pub mod grant_state;
pub mod text;
pub mod laws;
pub mod time_fuzzer;
pub mod rounding;
pub mod transitions;
pub mod contract_check;
