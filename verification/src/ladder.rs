//! The bucketing engine: collapses a multiset of lock intervals into the
//! fixed ordered ladder of six unlock-horizon buckets.
//!
//! Each interval is classified by the whole days from the run's sampled
//! instant to its expiry.  Within a bucket only the interval with the
//! largest amount survives (ties broken by later expiry) — simultaneous
//! locks in one bucket are not summed, the class lock being the maximum
//! of its constituents.  Across buckets, walking from the longest
//! horizon down, a bucket is reported only when its amount strictly
//! exceeds everything already seen: a token locked for ninety days is
//! also locked at thirty, and shorter buckets must only surface
//! *additional* liquidity.

use crate::clock::{valid_instant, MAX_INSTANT, MIN_ANCHORED_INSTANT, SECONDS_PER_DAY};
use crate::conviction::MAX_LOCK_SECONDS;
use crate::interval::LockedInterval;
use vstd::prelude::*;

verus! {

/// The six unlock-horizon buckets, shortest first; `DaysOver60` is the
/// dominant, longest-horizon bucket.
#[derive(Clone, Copy, Debug, PartialEq, Eq, Structural)]
pub enum LadderBucket {
    Days0,
    Days1To7,
    Days8To14,
    Days15To28,
    Days29To60,
    DaysOver60,
}

/// The position of a bucket in the ladder's listing order.
pub open spec fn bucket_index(b: LadderBucket) -> int {
    match b {
        LadderBucket::Days0 => 0,
        LadderBucket::Days1To7 => 1,
        LadderBucket::Days8To14 => 2,
        LadderBucket::Days15To28 => 3,
        LadderBucket::Days29To60 => 4,
        LadderBucket::DaysOver60 => 5,
    }
}

/// The bucket at a ladder position.
pub open spec fn bucket_of_index(i: int) -> LadderBucket {
    if i == 0 {
        LadderBucket::Days0
    } else if i == 1 {
        LadderBucket::Days1To7
    } else if i == 2 {
        LadderBucket::Days8To14
    } else if i == 3 {
        LadderBucket::Days15To28
    } else if i == 4 {
        LadderBucket::Days29To60
    } else {
        LadderBucket::DaysOver60
    }
}

/// Whole days (rounded toward minus infinity) from `t_now` to `end_at`.
pub open spec fn spec_days_until(end_at: int, t_now: int) -> int {
    (end_at - t_now) / (SECONDS_PER_DAY as int)
}

/// The bucket a day count falls in.
pub open spec fn spec_bucket_of_days(d: int) -> LadderBucket {
    if d <= 0 {
        LadderBucket::Days0
    } else if d <= 7 {
        LadderBucket::Days1To7
    } else if d <= 14 {
        LadderBucket::Days8To14
    } else if d <= 28 {
        LadderBucket::Days15To28
    } else if d <= 60 {
        LadderBucket::Days29To60
    } else {
        LadderBucket::DaysOver60
    }
}

/// The bucket of a lock expiring at `end_at`, seen from `t_now`.
pub open spec fn spec_bucket_of_end(end_at: int, t_now: int) -> LadderBucket {
    spec_bucket_of_days(spec_days_until(end_at, t_now))
}

/// An interval's expiry lies in the range either anchoring strategy can
/// produce, so the day arithmetic cannot overflow.
pub open spec fn spec_bucketable(iv: LockedInterval) -> bool {
    MIN_ANCHORED_INSTANT <= iv.end_at <= MAX_INSTANT + MAX_LOCK_SECONDS
}

pub open spec fn spec_all_bucketable(ivs: Seq<LockedInterval>) -> bool {
    forall|k: int| 0 <= k < ivs.len() ==> spec_bucketable(#[trigger] ivs[k])
}

/// Classifies one expiry instant against the sampled instant.
pub fn bucket_of_end(end_at: i64, t_now: i64) -> (b: LadderBucket)
    requires
        valid_instant(t_now as int),
        MIN_ANCHORED_INSTANT <= end_at <= MAX_INSTANT + MAX_LOCK_SECONDS,
    ensures
        b == spec_bucket_of_end(end_at as int, t_now as int),
{
    let diff = end_at - t_now;
    if diff <= 0 {
        LadderBucket::Days0
    } else {
        let d = diff / SECONDS_PER_DAY;
        if d == 0 {
            LadderBucket::Days0
        } else if d <= 7 {
            LadderBucket::Days1To7
        } else if d <= 14 {
            LadderBucket::Days8To14
        } else if d <= 28 {
            LadderBucket::Days15To28
        } else if d <= 60 {
            LadderBucket::Days29To60
        } else {
            LadderBucket::DaysOver60
        }
    }
}

/// The ladder position of an interval's bucket.
pub fn bucket_slot_of_end(end_at: i64, t_now: i64) -> (i: usize)
    requires
        valid_instant(t_now as int),
        MIN_ANCHORED_INSTANT <= end_at <= MAX_INSTANT + MAX_LOCK_SECONDS,
    ensures
        i < 6,
        i as int == bucket_index(spec_bucket_of_end(end_at as int, t_now as int)),
{
    match bucket_of_end(end_at, t_now) {
        LadderBucket::Days0 => 0,
        LadderBucket::Days1To7 => 1,
        LadderBucket::Days8To14 => 2,
        LadderBucket::Days15To28 => 3,
        LadderBucket::Days29To60 => 4,
        LadderBucket::DaysOver60 => 5,
    }
}

/// The surviving entry of one bucket: the amount and expiry of the
/// single interval the intra-bucket reduction kept.
#[derive(Clone, Copy, Debug, PartialEq, Eq, Structural)]
pub struct BucketEntry {
    pub amount: u128,
    pub end_at: i64,
}

/// Whether a new interval displaces the bucket's current survivor:
/// strictly more locked, or equally much locked until strictly later.
pub open spec fn spec_displaces(cur: BucketEntry, iv: LockedInterval) -> bool {
    iv.amount > cur.amount || (iv.amount == cur.amount && iv.end_at > cur.end_at)
}

/// The survivor of bucket `idx` over a list of intervals: the interval
/// with the largest amount among those the bucket holds, ties broken by
/// later expiry, earlier listed winning remaining ties.
pub open spec fn spec_bucket_best(ivs: Seq<LockedInterval>, t_now: int, idx: int) -> Option<
    BucketEntry,
>
    decreases ivs.len(),
{
    if ivs.len() == 0 {
        None
    } else {
        let rest = spec_bucket_best(ivs.drop_last(), t_now, idx);
        let l = ivs.last();
        if bucket_index(spec_bucket_of_end(l.end_at as int, t_now)) == idx {
            match rest {
                None => Some(BucketEntry { amount: l.amount, end_at: l.end_at }),
                Some(cur) => if spec_displaces(cur, l) {
                    Some(BucketEntry { amount: l.amount, end_at: l.end_at })
                } else {
                    Some(cur)
                },
            }
        } else {
            rest
        }
    }
}

/// The per-bucket survivor table, in listing order.
pub open spec fn spec_best_table(ivs: Seq<LockedInterval>, t_now: int) -> Seq<Option<BucketEntry>> {
    Seq::new(6, |i: int| spec_bucket_best(ivs, t_now, i))
}

/// The amount a slot holds; an empty slot holds nothing.
pub open spec fn spec_slot_amount(s: Option<BucketEntry>) -> nat {
    match s {
        None => 0,
        Some(e) => e.amount as nat,
    }
}

/// The largest amount any slot above position `i` (longer horizons)
/// holds.
pub open spec fn spec_max_above(best: Seq<Option<BucketEntry>>, i: int) -> nat
    decreases 5 - i,
{
    if i >= 5 {
        0
    } else {
        let rest = spec_max_above(best, i + 1);
        let a = spec_slot_amount(best[i + 1]);
        if a > rest {
            a
        } else {
            rest
        }
    }
}

/// The dominance walk's verdict for position `i`: the bucket's survivor
/// is reported only where its amount strictly exceeds every amount a
/// longer-horizon bucket holds.
pub open spec fn spec_ladder_slot(best: Seq<Option<BucketEntry>>, i: int) -> Option<BucketEntry> {
    match best[i] {
        None => None,
        Some(e) => if e.amount as nat > spec_max_above(best, i) {
            Some(e)
        } else {
            None
        },
    }
}

/// The finished ladder of a list of intervals: six slots in listing
/// order, each the dominance walk's verdict over the survivor table.
pub open spec fn spec_ladder(ivs: Seq<LockedInterval>, t_now: int) -> Seq<Option<BucketEntry>> {
    Seq::new(6, |i: int| spec_ladder_slot(spec_best_table(ivs, t_now), i))
}

/// Computes the survivor of bucket `idx`.
#[verifier::loop_isolation(false)]
fn bucket_best(ivs: &Vec<LockedInterval>, t_now: i64, idx: usize) -> (r: Option<BucketEntry>)
    requires
        valid_instant(t_now as int),
        spec_all_bucketable(ivs@),
    ensures
        r == spec_bucket_best(ivs@, t_now as int, idx as int),
{
    let mut cur: Option<BucketEntry> = None;
    let mut n: usize = 0;
    while n < ivs.len()
        invariant
            0 <= n <= ivs@.len(),
            cur == spec_bucket_best(ivs@.take(n as int), t_now as int, idx as int),
        decreases ivs@.len() - n,
    {
        let iv = &ivs[n];
        let slot = bucket_slot_of_end(iv.end_at, t_now);
        if slot == idx {
            cur = match cur {
                None => Some(BucketEntry { amount: iv.amount, end_at: iv.end_at }),
                Some(c) => if iv.amount > c.amount || (iv.amount == c.amount && iv.end_at
                    > c.end_at) {
                    Some(BucketEntry { amount: iv.amount, end_at: iv.end_at })
                } else {
                    Some(c)
                },
            };
        }
        proof {
            assert(ivs@.take(n + 1).drop_last() =~= ivs@.take(n as int));
            assert(ivs@.take(n + 1).last() == ivs@[n as int]);
        }
        n += 1;
    }
    proof {
        assert(ivs@.take(ivs@.len() as int) =~= ivs@);
    }
    cur
}

/// The largest amount held above position `i` in the survivor table.
#[verifier::loop_isolation(false)]
fn max_above(best: &Vec<Option<BucketEntry>>, i: usize) -> (m: u128)
    requires
        best@.len() == 6,
        i < 6,
    ensures
        m as nat == spec_max_above(best@, i as int),
{
    let mut m: u128 = 0;
    let mut j: usize = 5;
    while j > i
        invariant
            i <= j <= 5,
            m as nat == spec_max_above(best@, j as int),
        decreases j,
    {
        let a: u128 = match &best[j] {
            Some(e) => e.amount,
            None => 0,
        };
        if a > m {
            m = a;
        }
        j -= 1;
    }
    m
}

/// Builds the full ladder of a list of intervals: the per-bucket
/// reduction followed by the dominance walk, six slots in listing order.
#[verifier::loop_isolation(false)]
pub fn build_ladder(ivs: &Vec<LockedInterval>, t_now: i64) -> (out: Vec<Option<BucketEntry>>)
    requires
        valid_instant(t_now as int),
        spec_all_bucketable(ivs@),
    ensures
        out@.len() == 6,
        out@ == spec_ladder(ivs@, t_now as int),
{
    let mut best: Vec<Option<BucketEntry>> = Vec::new();
    let mut i: usize = 0;
    while i < 6
        invariant
            0 <= i <= 6,
            best@.len() == i,
            forall|k: int| 0 <= k < i ==> best@[k] == spec_bucket_best(
                ivs@,
                t_now as int,
                k,
            ),
        decreases 6 - i,
    {
        let b = bucket_best(ivs, t_now, i);
        best.push(b);
        i += 1;
    }
    proof {
        assert(best@ =~= spec_best_table(ivs@, t_now as int));
    }
    let mut out: Vec<Option<BucketEntry>> = Vec::new();
    let mut i: usize = 0;
    while i < 6
        invariant
            0 <= i <= 6,
            best@ == spec_best_table(ivs@, t_now as int),
            out@.len() == i,
            forall|k: int| 0 <= k < i ==> out@[k] == spec_ladder_slot(best@, k),
        decreases 6 - i,
    {
        let slot: Option<BucketEntry> = match &best[i] {
            None => None,
            Some(e) => {
                let m = max_above(&best, i);
                if e.amount > m {
                    Some(*e)
                } else {
                    None
                }
            },
        };
        out.push(slot);
        i += 1;
    }
    proof {
        assert(out@ =~= spec_ladder(ivs@, t_now as int));
    }
    out
}

/// The maximum above position `i` covers every individual slot above
/// `i`.
proof fn lemma_max_above_covers(best: Seq<Option<BucketEntry>>, i: int, j: int)
    requires
        0 <= i < j < 6,
    ensures
        spec_max_above(best, i) >= spec_slot_amount(best[j]),
    decreases j - i,
{
    if j > i + 1 {
        lemma_max_above_covers(best, i + 1, j);
    }
}

/// Law: the dominance walk is correct — of any two occupied slots of a
/// finished ladder, the shorter-horizon one holds strictly more than
/// the longer-horizon one, so amounts strictly increase from the
/// longest-horizon occupied bucket down to the shortest.
pub proof fn lemma_ladder_dominance(ivs: Seq<LockedInterval>, t_now: int, i: int, j: int)
    requires
        0 <= i < j < 6,
        spec_ladder(ivs, t_now)[i] is Some,
        spec_ladder(ivs, t_now)[j] is Some,
    ensures
        spec_slot_amount(spec_ladder(ivs, t_now)[i]) > spec_slot_amount(
            spec_ladder(ivs, t_now)[j],
        ),
{
    let best = spec_best_table(ivs, t_now);
    lemma_max_above_covers(best, i, j);
}

} // verus!
