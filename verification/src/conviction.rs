//! Conviction math: decoding the conviction level from a vote byte and
//! turning it into a lock horizon.
//!
//! A conviction level `k` in `0..=6` multiplies the 28-day base lock
//! period by `2^k`.  Levels above six are a protocol violation.

use crate::clock::{MAX_INSTANT, MIN_ANCHORED_INSTANT, SECONDS_PER_DAY};
use vstd::prelude::*;

verus! {

/// The base lock period, in days, that the conviction multiplier scales.
pub const BASE_LOCK_PERIOD_DAYS: i64 = 28;

/// The longest lock a vote can carry: `28 * 2^6` days of seconds.
pub const MAX_LOCK_SECONDS: i64 = 28 * 64 * 86_400;

/// `2^k`.
pub open spec fn pow2(k: nat) -> nat
    decreases k,
{
    if k == 0 {
        1
    } else {
        2 * pow2((k - 1) as nat)
    }
}

/// The conviction level encoded in a vote byte: its low seven bits.
pub open spec fn spec_conviction_of_vote(vote: u8) -> int {
    vote as int % 128
}

/// The seconds a lock of conviction `k` lasts: `28 * 2^k` days.
pub open spec fn spec_lock_seconds(k: nat) -> int {
    BASE_LOCK_PERIOD_DAYS * pow2(k) * SECONDS_PER_DAY
}

/// Decodes the conviction level from a vote byte; bit 7 (the aye/nay
/// flag) is discarded.
pub fn conviction_of_vote(vote: u8) -> (k: u8)
    ensures
        k as int == spec_conviction_of_vote(vote),
        k < 128,
{
    vote % 128
}

/// The conviction multiplier `2^k`.
pub fn conviction_multiplier(conviction: u8) -> (m: u32)
    requires
        conviction <= 6,
    ensures
        m as nat == pow2(conviction as nat),
{
    proof {
        reveal_with_fuel(pow2, 8);
    }
    if conviction == 0 {
        1
    } else if conviction == 1 {
        2
    } else if conviction == 2 {
        4
    } else if conviction == 3 {
        8
    } else if conviction == 4 {
        16
    } else if conviction == 5 {
        32
    } else {
        64
    }
}

/// The instant a lock beginning at `start_at` with conviction
/// `conviction` expires.
pub fn lock_end_instant(start_at: i64, conviction: u8) -> (end: i64)
    requires
        conviction <= 6,
        MIN_ANCHORED_INSTANT <= start_at <= MAX_INSTANT,
    ensures
        end == start_at + spec_lock_seconds(conviction as nat),
{
    proof {
        reveal_with_fuel(pow2, 8);
    }
    let m = conviction_multiplier(conviction) as i64;
    start_at + BASE_LOCK_PERIOD_DAYS * m * SECONDS_PER_DAY
}

} // verus!
