//! The vesting resolver: expands each on-chain vesting record into its
//! start and end instants and carries the amounts through.
//!
//! A record releases `per_block` base units each block starting at
//! `starting_block`, until all `locked` base units are released — that
//! takes `ceil(locked / per_block)` blocks.  Instants come from the
//! block clock's absolute anchoring.  Vesting data does not feed the
//! bucketing engine; it travels to the report verbatim.

use crate::chain::VestingRecord;
use crate::clock::{
    block_to_instant_absolute, spec_instant_of_block_absolute, valid_instant, SECONDS_PER_BLOCK,
};
use vstd::prelude::*;

verus! {

/// One linear release: its UTC window and its amounts in base units.
#[derive(Clone, Copy, Debug, PartialEq, Eq, Structural)]
pub struct VestingSchedule {
    pub start_at: i64,
    pub end_at: i64,
    pub locked: u128,
    pub per_block: u128,
}

/// Blocks until a record is fully released: `ceil(locked / per_block)`.
pub open spec fn spec_total_blocks(locked: nat, per_block: nat) -> nat
    recommends
        per_block > 0,
{
    locked / per_block + if locked % per_block == 0 {
        0
    } else {
        1nat
    }
}

/// A record the resolver accepts: a positive per-block release (else the
/// release never ends) whose block count fits the chain's block-number
/// type.
pub open spec fn spec_vesting_record_ok(v: VestingRecord) -> bool {
    v.per_block > 0 && spec_total_blocks(v.locked as nat, v.per_block as nat) <= u32::MAX
}

/// The schedule a record expands to: absolutely-anchored start, six
/// seconds per block until fully released.
pub open spec fn spec_vesting_schedule(v: VestingRecord) -> VestingSchedule {
    let start = spec_instant_of_block_absolute(v.starting_block as int);
    let end = start + SECONDS_PER_BLOCK * spec_total_blocks(v.locked as nat, v.per_block as nat);
    VestingSchedule {
        start_at: start as i64,
        end_at: end as i64,
        locked: v.locked,
        per_block: v.per_block,
    }
}

/// Whether the resolver accepts a record; the chain reader tests this
/// before handing one in.
pub fn vesting_record_ok(v: &VestingRecord) -> (b: bool)
    ensures
        b == spec_vesting_record_ok(*v),
{
    if v.per_block == 0 {
        false
    } else {
        let whole = v.locked / v.per_block;
        if v.locked % v.per_block == 0 {
            whole <= u32::MAX as u128
        } else {
            whole < u32::MAX as u128
        }
    }
}

/// Expands one vesting record.  The schedule's window lasts exactly
/// `ceil(locked / per_block)` blocks of six seconds.
pub fn vesting_schedule(v: &VestingRecord) -> (s: VestingSchedule)
    requires
        spec_vesting_record_ok(*v),
    ensures
        s == spec_vesting_schedule(*v),
        s.start_at == spec_instant_of_block_absolute(v.starting_block as int),
        s.end_at - s.start_at == SECONDS_PER_BLOCK * spec_total_blocks(
            v.locked as nat,
            v.per_block as nat,
        ),
        valid_instant(s.start_at as int),
        valid_instant(s.end_at as int),
        s.start_at <= s.end_at,
{
    let start = block_to_instant_absolute(v.starting_block);
    let blocks = v.locked / v.per_block + if v.locked % v.per_block == 0 {
        0
    } else {
        1
    };
    let end = start + SECONDS_PER_BLOCK * (blocks as i64);
    VestingSchedule { start_at: start, end_at: end, locked: v.locked, per_block: v.per_block }
}

/// Expands an account's vesting records, in list order.
#[verifier::loop_isolation(false)]
pub fn vesting_schedules(records: &Vec<VestingRecord>) -> (out: Vec<VestingSchedule>)
    requires
        forall|i: int| 0 <= i < records@.len() ==> spec_vesting_record_ok(#[trigger] records@[i]),
    ensures
        out@.len() == records@.len(),
        forall|i: int| 0 <= i < out@.len() ==> out@[i] == spec_vesting_schedule(
            #[trigger] records@[i],
        ),
        forall|i: int| 0 <= i < out@.len() ==> valid_instant((#[trigger] out@[i]).start_at as int)
            && valid_instant(out@[i].end_at as int),
{
    let mut out: Vec<VestingSchedule> = Vec::new();
    let mut i: usize = 0;
    while i < records.len()
        invariant
            0 <= i <= records@.len(),
            out@.len() == i,
            forall|k: int| 0 <= k < i ==> out@[k] == spec_vesting_schedule(#[trigger] records@[k]),
            forall|k: int| 0 <= k < i ==> valid_instant((#[trigger] out@[k]).start_at as int)
                && valid_instant(out@[k].end_at as int),
        decreases records@.len() - i,
    {
        let s = vesting_schedule(&records[i]);
        out.push(s);
        i += 1;
    }
    out
}

} // verus!
