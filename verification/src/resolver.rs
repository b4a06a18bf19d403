//! The conviction lock resolver: turns an account's class-locks list,
//! joined with its voting records and the referendum statuses, into the
//! set of lock intervals those votes pin down.
//!
//! Per class, only a casting record contributes; per vote, only a
//! standard vote on a referendum with a usable (non-zero) reference
//! block.  Each such vote locks its balance from the reference block's
//! instant until `28 * 2^k` days later, where `k` is the vote's
//! conviction level.  A conviction level above six is a protocol
//! violation and fails the whole resolution.

use crate::chain::{
    AccountVote, CastVote, ClassVoting, VotingRecord, reference_block, spec_class_votes,
    spec_reference_block,
};
use crate::clock::{
    block_to_instant_relative, spec_instant_of_block_relative, valid_instant,
};
use crate::conviction::{
    conviction_of_vote, lock_end_instant, spec_conviction_of_vote, spec_lock_seconds,
};
use crate::interval::LockedInterval;
use vstd::prelude::*;

verus! {

/// A violation of the chain's lock invariants; fatal for the run.
#[derive(Clone, Copy, Debug, PartialEq, Eq, Structural)]
pub enum LockError {
    /// A standard vote with a usable reference block carried a conviction
    /// level above six.
    ConvictionOutOfRange { referendum: u32, conviction: u8 },
}

/// The vote byte of a standard vote (zero for the other variants, which
/// carry none).
pub open spec fn spec_vote_byte(v: AccountVote) -> u8 {
    match v {
        AccountVote::Standard { vote, .. } => vote,
        _ => 0,
    }
}

/// The balance of a standard vote (zero for the other variants).
pub open spec fn spec_vote_balance(v: AccountVote) -> u128 {
    match v {
        AccountVote::Standard { balance, .. } => balance,
        _ => 0,
    }
}

/// A vote contributes a lock interval when its referendum has a usable
/// reference block and the vote is the standard variant.
pub open spec fn spec_usable(v: CastVote) -> bool {
    spec_reference_block(v.status) != 0 && v.vote is Standard
}

/// The conviction level a cast vote encodes.
pub open spec fn spec_vote_conviction(v: CastVote) -> int {
    spec_conviction_of_vote(spec_vote_byte(v.vote))
}

/// A vote respects the conviction range wherever it contributes.
pub open spec fn spec_vote_ok(v: CastVote) -> bool {
    spec_usable(v) ==> spec_vote_conviction(v) <= 6
}

pub open spec fn spec_votes_ok(votes: Seq<CastVote>) -> bool {
    forall|j: int| 0 <= j < votes.len() ==> spec_vote_ok(#[trigger] votes[j])
}

pub open spec fn spec_classes_ok(classes: Seq<ClassVoting>) -> bool {
    forall|i: int| 0 <= i < classes.len() ==> spec_votes_ok(spec_class_votes(#[trigger] classes[i]))
}

/// Every contributing vote's reference block lies at or below the head:
/// what relative anchoring needs.
pub open spec fn spec_votes_input_ok(votes: Seq<CastVote>, head: int) -> bool {
    forall|j: int| 0 <= j < votes.len() ==> (spec_usable(#[trigger] votes[j])
        ==> spec_reference_block(votes[j].status) <= head)
}

pub open spec fn spec_classes_input_ok(classes: Seq<ClassVoting>, head: int) -> bool {
    forall|i: int| 0 <= i < classes.len()
        ==> spec_votes_input_ok(spec_class_votes(#[trigger] classes[i]), head)
}

/// The lock interval one usable vote pins down: its balance, locked from
/// the reference block's relatively-anchored instant for `28 * 2^k`
/// days.
pub open spec fn spec_vote_interval(v: CastVote, t_now: int, head: int) -> LockedInterval {
    let start = spec_instant_of_block_relative(t_now, head, spec_reference_block(v.status));
    LockedInterval {
        start_at: start as i64,
        end_at: (start + spec_lock_seconds(spec_vote_conviction(v) as nat)) as i64,
        amount: spec_vote_balance(v.vote),
    }
}

/// The intervals a vote list contributes, in list order; votes that are
/// not usable contribute nothing.
pub open spec fn spec_vote_intervals(votes: Seq<CastVote>, t_now: int, head: int) -> Seq<
    LockedInterval,
>
    decreases votes.len(),
{
    if votes.len() == 0 {
        Seq::empty()
    } else {
        spec_vote_intervals(votes.drop_last(), t_now, head) + (if spec_usable(votes.last()) {
            seq![spec_vote_interval(votes.last(), t_now, head)]
        } else {
            Seq::empty()
        })
    }
}

/// The intervals a class list contributes, classes in list order.
pub open spec fn spec_class_intervals(classes: Seq<ClassVoting>, t_now: int, head: int) -> Seq<
    LockedInterval,
>
    decreases classes.len(),
{
    if classes.len() == 0 {
        Seq::empty()
    } else {
        spec_class_intervals(classes.drop_last(), t_now, head) + spec_vote_intervals(
            spec_class_votes(classes.last()),
            t_now,
            head,
        )
    }
}

/// Resolves the account's conviction locks: one interval per standard
/// vote with a usable reference block, across all casting classes.
/// Fails, and only fails, when some contributing vote carries a
/// conviction level above six.
#[verifier::loop_isolation(false)]
pub fn conviction_lock_intervals(classes: &Vec<ClassVoting>, t_now: i64, head: u32) -> (r: Result<
    Vec<LockedInterval>,
    LockError,
>)
    requires
        valid_instant(t_now as int),
        spec_classes_input_ok(classes@, head as int),
    ensures
        r is Ok <==> spec_classes_ok(classes@),
        r matches Ok(ivs) ==> ivs@ == spec_class_intervals(classes@, t_now as int, head as int),
        r matches Err(e) ==> ({
            &&& e matches LockError::ConvictionOutOfRange { referendum, conviction }
            &&& conviction > 6
            &&& exists|i: int, j: int|
                {
                    &&& 0 <= i < classes@.len()
                    &&& 0 <= j < spec_class_votes(classes@[i]).len()
                    &&& spec_usable(#[trigger] spec_class_votes(classes@[i])[j])
                    &&& spec_class_votes(classes@[i])[j].referendum == referendum
                    &&& spec_vote_conviction(spec_class_votes(classes@[i])[j]) == conviction
                }
        }),
{
    let mut out: Vec<LockedInterval> = Vec::new();
    let mut i: usize = 0;
    while i < classes.len()
        invariant
            0 <= i <= classes@.len(),
            out@ == spec_class_intervals(classes@.take(i as int), t_now as int, head as int),
            forall|k: int| 0 <= k < i ==> spec_votes_ok(spec_class_votes(#[trigger] classes@[k])),
        decreases classes@.len() - i,
    {
        match &classes[i].record {
            Some(VotingRecord::Casting { votes }) => {
                let mut j: usize = 0;
                while j < votes.len()
                    invariant
                        0 <= j <= votes@.len(),
                        votes@ == spec_class_votes(classes@[i as int]),
                        out@ == spec_class_intervals(classes@.take(i as int), t_now as int, head as int)
                            + spec_vote_intervals(votes@.take(j as int), t_now as int, head as int),
                        forall|k: int| 0 <= k < j ==> spec_vote_ok(#[trigger] votes@[k]),
                    decreases votes@.len() - j,
                {
                    let v = &votes[j];
                    let b = reference_block(&v.status);
                    if b != 0 {
                        match &v.vote {
                            AccountVote::Standard { vote, balance } => {
                                let k = conviction_of_vote(*vote);
                                if k > 6 {
                                    proof {
                                        assert(spec_usable(votes@[j as int]));
                                        assert(!spec_vote_ok(votes@[j as int]));
                                        assert(!spec_votes_ok(spec_class_votes(
                                            classes@[i as int],
                                        )));
                                        assert(!spec_classes_ok(classes@));
                                    }
                                    return Err(
                                        LockError::ConvictionOutOfRange {
                                            referendum: v.referendum,
                                            conviction: k,
                                        },
                                    );
                                }
                                proof {
                                    assert(spec_usable(votes@[j as int]));
                                }
                                let start = block_to_instant_relative(t_now, head, b);
                                let end = lock_end_instant(start, k);
                                out.push(
                                    LockedInterval {
                                        start_at: start,
                                        end_at: end,
                                        amount: *balance,
                                    },
                                );
                                proof {
                                    assert(votes@.take(j + 1).drop_last() =~= votes@.take(
                                        j as int,
                                    ));
                                    assert(votes@.take(j + 1).last() == votes@[j as int]);
                                    assert(out@ =~= spec_class_intervals(
                                        classes@.take(i as int),
                                        t_now as int,
                                        head as int,
                                    ) + spec_vote_intervals(
                                        votes@.take(j + 1),
                                        t_now as int,
                                        head as int,
                                    ));
                                }
                            },
                            _ => {
                                proof {
                                    assert(!spec_usable(votes@[j as int]));
                                    assert(votes@.take(j + 1).drop_last() =~= votes@.take(
                                        j as int,
                                    ));
                                    assert(votes@.take(j + 1).last() == votes@[j as int]);
                                    assert(out@ =~= spec_class_intervals(
                                        classes@.take(i as int),
                                        t_now as int,
                                        head as int,
                                    ) + spec_vote_intervals(
                                        votes@.take(j + 1),
                                        t_now as int,
                                        head as int,
                                    ));
                                }
                            },
                        }
                    } else {
                        proof {
                            assert(!spec_usable(votes@[j as int]));
                            assert(votes@.take(j + 1).drop_last() =~= votes@.take(j as int));
                            assert(votes@.take(j + 1).last() == votes@[j as int]);
                            assert(out@ =~= spec_class_intervals(
                                classes@.take(i as int),
                                t_now as int,
                                head as int,
                            ) + spec_vote_intervals(votes@.take(j + 1), t_now as int, head as int));
                        }
                    }
                    j += 1;
                }
                proof {
                    assert(votes@.take(votes@.len() as int) =~= votes@);
                    assert(classes@.take(i + 1).drop_last() =~= classes@.take(i as int));
                    assert(classes@.take(i + 1).last() == classes@[i as int]);
                }
            },
            _ => {
                proof {
                    assert(spec_class_votes(classes@[i as int]) =~= Seq::<CastVote>::empty());
                    assert(classes@.take(i + 1).drop_last() =~= classes@.take(i as int));
                    assert(classes@.take(i + 1).last() == classes@[i as int]);
                }
            },
        }
        i += 1;
    }
    proof {
        assert(classes@.take(classes@.len() as int) =~= classes@);
    }
    Ok(out)
}

/// The conviction multiplier of a contributing vote is at most `2^6`.
proof fn lemma_pow2_conviction_bound(k: int)
    requires
        0 <= k <= 6,
    ensures
        1 <= crate::conviction::pow2(k as nat) <= 64,
{
    reveal_with_fuel(crate::conviction::pow2, 8);
    if k == 0 {
    } else if k == 1 {
    } else if k == 2 {
    } else if k == 3 {
    } else if k == 4 {
    } else if k == 5 {
    } else {
        assert(crate::conviction::pow2(6) == 64);
    }
}

/// Law: a contributing vote's lock interval lasts exactly `28 * 2^k`
/// days, where `k` is its conviction level; in particular it is
/// well-formed.
pub proof fn lemma_vote_interval_duration(v: CastVote, t_now: int, head: int)
    requires
        spec_usable(v),
        spec_vote_conviction(v) <= 6,
        spec_reference_block(v.status) <= head,
        0 <= head < 4294967296,
        valid_instant(t_now),
    ensures
        spec_vote_interval(v, t_now, head).end_at - spec_vote_interval(v, t_now, head).start_at
            == spec_lock_seconds(spec_vote_conviction(v) as nat),
        spec_vote_interval(v, t_now, head).end_at - spec_vote_interval(v, t_now, head).start_at
            == 28 * crate::conviction::pow2(spec_vote_conviction(v) as nat)
            * crate::clock::SECONDS_PER_DAY,
        spec_vote_interval(v, t_now, head).wf(),
        crate::ladder::spec_bucketable(spec_vote_interval(v, t_now, head)),
{
    let b = spec_reference_block(v.status);
    let k = spec_vote_conviction(v);
    let start = spec_instant_of_block_relative(t_now, head, b);
    lemma_pow2_conviction_bound(k);
    assert(0 < b < 4294967296);
    assert(crate::clock::MIN_ANCHORED_INSTANT <= start <= crate::clock::MAX_INSTANT);
    assert(28 * 86400 <= spec_lock_seconds(k as nat) <= 28 * 64 * 86400);
}

/// Every interval a vote list contributes is well-formed.
proof fn lemma_vote_intervals_wf(votes: Seq<CastVote>, t_now: int, head: int)
    requires
        spec_votes_ok(votes),
        spec_votes_input_ok(votes, head),
        0 <= head < 4294967296,
        valid_instant(t_now),
    ensures
        forall|k: int| 0 <= k < spec_vote_intervals(votes, t_now, head).len()
            ==> (#[trigger] spec_vote_intervals(votes, t_now, head)[k]).wf()
                && crate::ladder::spec_bucketable(spec_vote_intervals(votes, t_now, head)[k]),
    decreases votes.len(),
{
    if votes.len() > 0 {
        let prefix = votes.drop_last();
        assert forall|j: int| 0 <= j < prefix.len() implies spec_vote_ok(#[trigger] prefix[j])
            && (spec_usable(prefix[j]) ==> spec_reference_block(prefix[j].status) <= head) by {
            assert(prefix[j] == votes[j]);
        }
        lemma_vote_intervals_wf(prefix, t_now, head);
        if spec_usable(votes.last()) {
            lemma_vote_interval_duration(votes.last(), t_now, head);
        }
        let all = spec_vote_intervals(votes, t_now, head);
        let front = spec_vote_intervals(prefix, t_now, head);
        assert forall|k: int| 0 <= k < all.len() implies (#[trigger] all[k]).wf()
            && crate::ladder::spec_bucketable(all[k]) by {
            if k < front.len() {
                assert(all[k] == front[k]);
            } else {
                assert(all[k] == spec_vote_interval(votes.last(), t_now, head));
            }
        }
    }
}

/// Law: every lock interval the resolver emits is well-formed — its
/// start does not lie after its end.  (Its amount is a non-negative
/// integer by type.)
pub proof fn lemma_intervals_well_formed(classes: Seq<ClassVoting>, t_now: int, head: int)
    requires
        spec_classes_ok(classes),
        spec_classes_input_ok(classes, head),
        0 <= head < 4294967296,
        valid_instant(t_now),
    ensures
        forall|k: int| 0 <= k < spec_class_intervals(classes, t_now, head).len()
            ==> (#[trigger] spec_class_intervals(classes, t_now, head)[k]).wf()
                && crate::ladder::spec_bucketable(spec_class_intervals(classes, t_now, head)[k]),
    decreases classes.len(),
{
    if classes.len() > 0 {
        let prefix = classes.drop_last();
        assert forall|j: int| 0 <= j < prefix.len() implies spec_votes_ok(spec_class_votes(
            #[trigger] prefix[j],
        )) && spec_votes_input_ok(spec_class_votes(prefix[j]), head) by {
            assert(prefix[j] == classes[j]);
        }
        lemma_intervals_well_formed(prefix, t_now, head);
        lemma_vote_intervals_wf(spec_class_votes(classes.last()), t_now, head);
        let all = spec_class_intervals(classes, t_now, head);
        let front = spec_class_intervals(prefix, t_now, head);
        let tail = spec_vote_intervals(spec_class_votes(classes.last()), t_now, head);
        assert forall|k: int| 0 <= k < all.len() implies (#[trigger] all[k]).wf()
            && crate::ladder::spec_bucketable(all[k]) by {
            if k < front.len() {
                assert(all[k] == front[k]);
            } else {
                assert(all[k] == tail[k - front.len()]);
            }
        }
    }
}

} // verus!
