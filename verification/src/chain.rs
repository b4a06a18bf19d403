//! Plain-value models of the chain state the resolvers read.
//!
//! The chain reader hands the library already-decoded values: one record
//! per storage item, with sum types for the voting and referendum
//! variants.  Absence of a storage value is an `Option`.

use vstd::prelude::*;

verus! {

/// The status of one referendum, as far as the lock math cares: every
/// variant carries the *reference block* lock horizons are measured from.
/// A decoded variant outside these six is handed in as absence.
#[derive(Clone, Copy, Debug)]
pub enum ReferendumStatus {
    /// Still being voted on; the reference block is its submission block.
    Ongoing { submitted: u32 },
    Approved { at: u32 },
    Rejected { at: u32 },
    Cancelled { at: u32 },
    TimedOut { at: u32 },
    Killed { at: u32 },
}

/// One account's vote on one referendum.
#[derive(Clone, Copy, Debug)]
pub enum AccountVote {
    /// The standard vote: the low seven bits of `vote` are the conviction
    /// level, bit 7 the aye/nay flag; `balance` is in base units.
    Standard { vote: u8, balance: u128 },
    /// A vote split between aye and nay; not fed into the bucketing
    /// engine.
    Split { aye: u128, nay: u128 },
    /// A vote split between aye, nay and abstain; not fed into the
    /// bucketing engine.
    SplitAbstain { aye: u128, nay: u128, abstain: u128 },
}

/// One entry of a casting record, joined with the status of the
/// referendum it voted on (absent where the chain had none usable).
#[derive(Clone, Copy, Debug)]
pub struct CastVote {
    pub referendum: u32,
    pub vote: AccountVote,
    pub status: Option<ReferendumStatus>,
}

/// The voting record of one account for one governance class.
#[derive(Debug)]
pub enum VotingRecord {
    /// The account votes directly; each entry is one referendum vote.
    Casting { votes: Vec<CastVote> },
    /// The account delegates its vote; contributes no lock interval.
    Delegating,
}

/// One governance class from the account's class-locks list, joined with
/// the account's voting record for that class (absent where the chain
/// had none).
#[derive(Debug)]
pub struct ClassVoting {
    pub class_id: u16,
    pub record: Option<VotingRecord>,
}

/// One linear vesting schedule as stored on chain: `locked` base units
/// releasing `per_block` base units each block from `starting_block` on.
#[derive(Clone, Copy, Debug)]
pub struct VestingRecord {
    pub locked: u128,
    pub per_block: u128,
    pub starting_block: u32,
}

/// One chain-reported aggregate balance lock, carried through for
/// display only: an eight-byte ASCII tag and an amount in base units.
#[derive(Debug)]
pub struct BalanceLockRecord {
    pub id: Vec<u8>,
    pub amount: u128,
}

/// The reference block of a (possibly absent) referendum status.  Zero
/// is the sentinel for "no usable reference".
pub open spec fn spec_reference_block(status: Option<ReferendumStatus>) -> int {
    match status {
        None => 0,
        Some(ReferendumStatus::Ongoing { submitted }) => submitted as int,
        Some(ReferendumStatus::Approved { at }) => at as int,
        Some(ReferendumStatus::Rejected { at }) => at as int,
        Some(ReferendumStatus::Cancelled { at }) => at as int,
        Some(ReferendumStatus::TimedOut { at }) => at as int,
        Some(ReferendumStatus::Killed { at }) => at as int,
    }
}

/// Extracts the reference block; zero means "no usable reference".
pub fn reference_block(status: &Option<ReferendumStatus>) -> (b: u32)
    ensures
        b as int == spec_reference_block(*status),
{
    match status {
        None => 0,
        Some(ReferendumStatus::Ongoing { submitted }) => *submitted,
        Some(ReferendumStatus::Approved { at }) => *at,
        Some(ReferendumStatus::Rejected { at }) => *at,
        Some(ReferendumStatus::Cancelled { at }) => *at,
        Some(ReferendumStatus::TimedOut { at }) => *at,
        Some(ReferendumStatus::Killed { at }) => *at,
    }
}

/// The votes a class contributes: those of a casting record, none for a
/// delegating or absent one.
pub open spec fn spec_class_votes(c: ClassVoting) -> Seq<CastVote> {
    match c.record {
        Some(VotingRecord::Casting { votes }) => votes@,
        _ => Seq::empty(),
    }
}

} // verus!
