//! The block clock: translates block numbers of a 6-second-per-block chain
//! into UTC instants, with two anchoring strategies.
//!
//! *Relative anchoring* slides against the wall clock: a block `B` at or
//! below the finalized head `H` happened `6 * (H - B)` seconds before the
//! sampled instant `T_now`.  *Absolute anchoring* maps a block to the
//! calendar through one of two fixed epochs, chosen by a genesis-era
//! threshold on the block number.
//!
//! Instants are whole seconds since the Unix epoch.

use vstd::prelude::*;

verus! {

/// The chain produces one block every six seconds.
pub const SECONDS_PER_BLOCK: i64 = 6;

/// Seconds in one day.
pub const SECONDS_PER_DAY: i64 = 86_400;

/// The latest instant the library works with: 9999-12-31T23:59:59Z.
pub const MAX_INSTANT: i64 = 253_402_300_799;

/// Relative anchoring reaches at most `6 * (2^32 - 1)` seconds behind the
/// sampled wall-clock instant, so no anchored instant is below this.
pub const MIN_ANCHORED_INSTANT: i64 = -25_769_803_770;

/// Blocks below this number are dated from the early epoch, later ones
/// from the late epoch.
pub const GENESIS_THRESHOLD: u32 = 9_000_000;

/// 2020-05-26T15:36:18Z, the observed instant of the chain's first block.
pub const EARLY_ANCHOR_EPOCH: i64 = 1_590_507_378;

/// 2023-08-25T13:01:00Z, the fixed epoch used for blocks past the
/// genesis-era threshold.
pub const LATE_ANCHOR_EPOCH: i64 = 1_692_968_460;

/// A wall-clock instant the library accepts: non-negative and no later
/// than year 9999.
pub open spec fn valid_instant(t: int) -> bool {
    0 <= t <= MAX_INSTANT
}

/// An instant produced by either anchoring strategy from a valid
/// wall-clock sample.
pub open spec fn anchored_instant(t: int) -> bool {
    MIN_ANCHORED_INSTANT <= t <= MAX_INSTANT
}

/// Relative anchoring: block `block` at or below head `head` happened
/// `6 * (head - block)` seconds before `t_now`.
pub open spec fn spec_instant_of_block_relative(t_now: int, head: int, block: int) -> int {
    t_now - SECONDS_PER_BLOCK * (head - block)
}

/// Absolute anchoring: a piecewise-constant genesis model with one
/// threshold; either way the block adds six seconds per block to the
/// chosen epoch.
pub open spec fn spec_instant_of_block_absolute(block: int) -> int {
    if block < GENESIS_THRESHOLD {
        EARLY_ANCHOR_EPOCH + SECONDS_PER_BLOCK * block
    } else {
        LATE_ANCHOR_EPOCH + SECONDS_PER_BLOCK * block
    }
}

/// The instant of a historical block, slid back from the sampled
/// wall-clock instant.
pub fn block_to_instant_relative(t_now: i64, head: u32, block: u32) -> (r: i64)
    requires
        valid_instant(t_now as int),
        block <= head,
    ensures
        r == spec_instant_of_block_relative(t_now as int, head as int, block as int),
        anchored_instant(r as int),
{
    t_now - SECONDS_PER_BLOCK * ((head - block) as i64)
}

/// The calendar instant of a block under absolute anchoring.
pub fn block_to_instant_absolute(block: u32) -> (r: i64)
    ensures
        r == spec_instant_of_block_absolute(block as int),
        valid_instant(r as int),
{
    if block < GENESIS_THRESHOLD {
        EARLY_ANCHOR_EPOCH + SECONDS_PER_BLOCK * (block as i64)
    } else {
        LATE_ANCHOR_EPOCH + SECONDS_PER_BLOCK * (block as i64)
    }
}

/// Inverting relative anchoring recovers the block distance exactly: for
/// any block at or below the head, dividing the slid-back time difference
/// by the block period gives back `head - block`.
pub proof fn lemma_relative_anchor_round_trip(t_now: int, head: int, block: int)
    requires
        block <= head,
    ensures
        (t_now - spec_instant_of_block_relative(t_now, head, block)) / (SECONDS_PER_BLOCK as int)
            == head - block,
{
    assert(t_now - spec_instant_of_block_relative(t_now, head, block)
        == SECONDS_PER_BLOCK * (head - block));
    vstd::arithmetic::div_mod::lemma_div_multiples_vanish(head - block, SECONDS_PER_BLOCK as int);
}

/// Relies on std's `SystemTime::now`: the wall clock read as whole
/// seconds since the Unix epoch.  The value depends on the machine's
/// clock, so nothing is promised of it.  Every arm is converted to a
/// value — a clock before the epoch or past `i64` becomes an
/// out-of-range sentinel — so the read cannot abort.
#[verifier::external_body]
fn now_unix_seconds() -> i64 {
    match std::time::SystemTime::now().duration_since(std::time::UNIX_EPOCH) {
        Ok(since_epoch) => i64::try_from(since_epoch.as_secs()).unwrap_or(i64::MAX),
        Err(_) => -1,
    }
}

/// Accepts a raw clock sample exactly where it lies in the range the
/// library works with, and rejects it everywhere else.
pub fn accept_sample(t: i64) -> (r: Option<i64>)
    ensures
        r == (if valid_instant(t as int) {
            Some(t)
        } else {
            None::<i64>
        }),
{
    if 0 <= t && t <= MAX_INSTANT {
        Some(t)
    } else {
        None
    }
}

/// Samples the wall clock once for a run.  Whatever the clock returned,
/// the sample is handed on only when `accept_sample` takes it.
pub fn sample_clock() -> (r: Option<i64>)
    ensures
        r matches Some(t) ==> valid_instant(t as int),
{
    accept_sample(now_unix_seconds())
}

/// The UTC calendar text `YYYY-MM-DD HH:MM:SS` of an instant; a function
/// of the instant alone.
pub uninterp spec fn utc_text_of(t: int) -> Seq<char>;

/// Relies on chrono's `DateTime::from_timestamp` and `format`: the UTC
/// calendar text of an epoch-second instant, which depends on the instant
/// alone.  Every valid instant lies inside chrono's representable range,
/// so the formatted branch is always taken.
#[verifier::external_body]
pub(crate) fn format_utc_seconds(t: i64) -> (r: String)
    requires
        valid_instant(t as int),
    ensures
        r@ == utc_text_of(t as int),
{
    match chrono::DateTime::<chrono::Utc>::from_timestamp(t, 0) {
        Some(dt) => dt.format("%Y-%m-%d %H:%M:%S").to_string(),
        None => String::new(),
    }
}

} // verus!
