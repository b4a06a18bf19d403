//! The report composer: packages one account's finished ladder, its raw
//! balance-lock list and its vesting schedules into the textual document
//! the templating front end renders, and joins the accounts under the
//! run's extraction date.
//!
//! Every rendered field is pinned down exactly: amounts by the exact
//! decimal token rendering, instants by the UTC calendar text, buckets
//! by their fixed labels and style classes, and the sentinel `none`
//! where a ladder slot is absent.

use crate::chain::{BalanceLockRecord, ClassVoting, VestingRecord};
use crate::clock::{format_utc_seconds, utc_text_of, valid_instant};
use crate::ladder::{
    bucket_of_index, build_ladder, spec_ladder, BucketEntry, LadderBucket,
};
use crate::resolver::{
    conviction_lock_intervals, lemma_intervals_well_formed, spec_class_intervals,
    spec_classes_input_ok, spec_classes_ok, LockError,
};
use crate::units::{spec_token_text, token_amount_text};
use crate::vesting::{
    spec_vesting_record_ok, spec_vesting_schedule, vesting_schedules, VestingSchedule,
};
use vstd::prelude::*;

verus! {

/// One rendered ladder slot: the bucket's fixed label, the amount text
/// (or `none`), and the style class (or `none`).
#[derive(Debug)]
pub struct LadderEntryText {
    pub lock_category: String,
    pub amount: String,
    pub class: String,
}

/// One rendered balance lock: its ASCII tag and its amount in tokens.
#[derive(Debug)]
pub struct BalanceLockText {
    pub id_text: String,
    pub amount: String,
}

/// One rendered vesting schedule: its window as calendar text and its
/// amounts in tokens.
#[derive(Debug)]
pub struct VestingText {
    pub start_at: String,
    pub end_at: String,
    pub locked: String,
    pub per_block: String,
}

/// The per-account output: address, the six-slot ladder in listing
/// order, the balance locks, and the vesting schedules.
#[derive(Debug)]
pub struct AccountReport {
    pub address: String,
    pub ladder: Vec<LadderEntryText>,
    pub locks: Vec<BalanceLockText>,
    pub vesting: Vec<VestingText>,
}

/// The whole run: the extraction date and the accounts in input order.
#[derive(Debug)]
pub struct RunReport {
    pub date: String,
    pub accounts: Vec<AccountReport>,
}

/// The fixed display label of a bucket.
pub open spec fn spec_bucket_label(b: LadderBucket) -> Seq<char> {
    match b {
        LadderBucket::Days0 => "Locked 0 Days"@,
        LadderBucket::Days1To7 => "Locked 1-7 Days"@,
        LadderBucket::Days8To14 => "Locked 8-14 Days"@,
        LadderBucket::Days15To28 => "Locked 15-28 Days"@,
        LadderBucket::Days29To60 => "Locked 29-60 Days"@,
        LadderBucket::DaysOver60 => "Locked 60+ Days"@,
    }
}

/// The fixed style class of a bucket.
pub open spec fn spec_bucket_css(b: LadderBucket) -> Seq<char> {
    match b {
        LadderBucket::Days0 => "locked-0-days"@,
        LadderBucket::Days1To7 => "locked-1-7-days"@,
        LadderBucket::Days8To14 => "locked-8-14-days"@,
        LadderBucket::Days15To28 => "locked-15-28-days"@,
        LadderBucket::Days29To60 => "locked-29-60-days"@,
        LadderBucket::DaysOver60 => "locked-60-plus-days"@,
    }
}

/// The sentinel for an absent ladder slot.
pub open spec fn spec_none_text() -> Seq<char> {
    "none"@
}

/// The display label of a bucket.
pub fn bucket_label(b: LadderBucket) -> (s: &'static str)
    ensures
        s@ == spec_bucket_label(b),
{
    match b {
        LadderBucket::Days0 => "Locked 0 Days",
        LadderBucket::Days1To7 => "Locked 1-7 Days",
        LadderBucket::Days8To14 => "Locked 8-14 Days",
        LadderBucket::Days15To28 => "Locked 15-28 Days",
        LadderBucket::Days29To60 => "Locked 29-60 Days",
        LadderBucket::DaysOver60 => "Locked 60+ Days",
    }
}

/// The style class of a bucket.
pub fn bucket_css(b: LadderBucket) -> (s: &'static str)
    ensures
        s@ == spec_bucket_css(b),
{
    match b {
        LadderBucket::Days0 => "locked-0-days",
        LadderBucket::Days1To7 => "locked-1-7-days",
        LadderBucket::Days8To14 => "locked-8-14-days",
        LadderBucket::Days15To28 => "locked-15-28-days",
        LadderBucket::Days29To60 => "locked-29-60-days",
        LadderBucket::DaysOver60 => "locked-60-plus-days",
    }
}

/// The bucket at a ladder position.
pub fn bucket_at_index(i: usize) -> (b: LadderBucket)
    requires
        i < 6,
    ensures
        b == bucket_of_index(i as int),
{
    if i == 0 {
        LadderBucket::Days0
    } else if i == 1 {
        LadderBucket::Days1To7
    } else if i == 2 {
        LadderBucket::Days8To14
    } else if i == 3 {
        LadderBucket::Days15To28
    } else if i == 4 {
        LadderBucket::Days29To60
    } else {
        LadderBucket::DaysOver60
    }
}

/// A rendered ladder slot carries its bucket's label, and either the
/// slot's exact amount text with the bucket's style class, or the
/// sentinel twice.
pub open spec fn spec_ladder_entry_matches(
    e: LadderEntryText,
    slot: Option<BucketEntry>,
    i: int,
) -> bool {
    &&& e.lock_category@ == spec_bucket_label(bucket_of_index(i))
    &&& match slot {
        Some(en) => e.amount@ == spec_token_text(en.amount as nat) && e.class@ == spec_bucket_css(
            bucket_of_index(i),
        ),
        None => e.amount@ == spec_none_text() && e.class@ == spec_none_text(),
    }
}

/// An eight-bit tag byte list is ASCII.
pub open spec fn spec_ascii_bytes(bytes: Seq<u8>) -> bool {
    forall|i: int| 0 <= i < bytes.len() ==> bytes[i] < 128
}

/// The characters of an ASCII byte list.
pub open spec fn spec_ascii_chars(bytes: Seq<u8>) -> Seq<char> {
    bytes.map_values(|b: u8| b as char)
}

/// Relies on `String::from_utf8`: UTF-8 decoding is the identity on
/// ASCII bytes, so an all-ASCII byte list decodes to exactly its bytes
/// as characters.
#[verifier::external_body]
fn ascii_string(bytes: &Vec<u8>) -> (s: String)
    requires
        spec_ascii_bytes(bytes@),
    ensures
        s@ == spec_ascii_chars(bytes@),
{
    String::from_utf8(bytes.clone()).unwrap_or_default()
}

/// A rendered balance lock carries the record's tag as text and its
/// exact amount text.
pub open spec fn spec_balance_lock_matches(t: BalanceLockText, r: BalanceLockRecord) -> bool {
    &&& t.id_text@ == spec_ascii_chars(r.id@)
    &&& t.amount@ == spec_token_text(r.amount as nat)
}

/// A rendered vesting schedule carries its window as UTC calendar text
/// and its exact amount texts.
pub open spec fn spec_vesting_text_matches(t: VestingText, s: VestingSchedule) -> bool {
    &&& t.start_at@ == utc_text_of(s.start_at as int)
    &&& t.end_at@ == utc_text_of(s.end_at as int)
    &&& t.locked@ == spec_token_text(s.locked as nat)
    &&& t.per_block@ == spec_token_text(s.per_block as nat)
}

/// Renders the six ladder slots, in listing order.
#[verifier::loop_isolation(false)]
pub fn compose_ladder_text(slots: &Vec<Option<BucketEntry>>) -> (out: Vec<LadderEntryText>)
    requires
        slots@.len() == 6,
    ensures
        out@.len() == 6,
        forall|i: int| 0 <= i < 6 ==> spec_ladder_entry_matches(#[trigger] out@[i], slots@[i], i),
{
    let mut out: Vec<LadderEntryText> = Vec::new();
    let mut i: usize = 0;
    while i < 6
        invariant
            0 <= i <= 6,
            out@.len() == i,
            forall|k: int| 0 <= k < i ==> spec_ladder_entry_matches(
                #[trigger] out@[k],
                slots@[k],
                k,
            ),
        decreases 6 - i,
    {
        let b = bucket_at_index(i);
        let entry = match &slots[i] {
            Some(en) => LadderEntryText {
                lock_category: String::from_str(bucket_label(b)),
                amount: token_amount_text(en.amount),
                class: String::from_str(bucket_css(b)),
            },
            None => LadderEntryText {
                lock_category: String::from_str(bucket_label(b)),
                amount: String::from_str("none"),
                class: String::from_str("none"),
            },
        };
        out.push(entry);
        i += 1;
    }
    out
}

/// Renders the balance-lock list, in list order.
#[verifier::loop_isolation(false)]
pub fn compose_lock_texts(locks: &Vec<BalanceLockRecord>) -> (out: Vec<BalanceLockText>)
    requires
        forall|i: int| 0 <= i < locks@.len() ==> spec_ascii_bytes(#[trigger] locks@[i].id@),
    ensures
        out@.len() == locks@.len(),
        forall|i: int| 0 <= i < out@.len() ==> spec_balance_lock_matches(
            #[trigger] out@[i],
            locks@[i],
        ),
{
    let mut out: Vec<BalanceLockText> = Vec::new();
    let mut i: usize = 0;
    while i < locks.len()
        invariant
            0 <= i <= locks@.len(),
            out@.len() == i,
            forall|k: int| 0 <= k < i ==> spec_balance_lock_matches(
                #[trigger] out@[k],
                locks@[k],
            ),
        decreases locks@.len() - i,
    {
        let lock = &locks[i];
        out.push(
            BalanceLockText {
                id_text: ascii_string(&lock.id),
                amount: token_amount_text(lock.amount),
            },
        );
        i += 1;
    }
    out
}

/// Renders the vesting schedules, in list order.
#[verifier::loop_isolation(false)]
pub fn compose_vesting_texts(schedules: &Vec<VestingSchedule>) -> (out: Vec<VestingText>)
    requires
        forall|i: int| 0 <= i < schedules@.len() ==> valid_instant(
            (#[trigger] schedules@[i]).start_at as int,
        ) && valid_instant(schedules@[i].end_at as int),
    ensures
        out@.len() == schedules@.len(),
        forall|i: int| 0 <= i < out@.len() ==> spec_vesting_text_matches(
            #[trigger] out@[i],
            schedules@[i],
        ),
{
    let mut out: Vec<VestingText> = Vec::new();
    let mut i: usize = 0;
    while i < schedules.len()
        invariant
            0 <= i <= schedules@.len(),
            out@.len() == i,
            forall|k: int| 0 <= k < i ==> spec_vesting_text_matches(
                #[trigger] out@[k],
                schedules@[k],
            ),
        decreases schedules@.len() - i,
    {
        let s = &schedules[i];
        out.push(
            VestingText {
                start_at: format_utc_seconds(s.start_at),
                end_at: format_utc_seconds(s.end_at),
                locked: token_amount_text(s.locked),
                per_block: token_amount_text(s.per_block),
            },
        );
        i += 1;
    }
    out
}

/// What the composed report of one account says, given the chain state
/// it was composed from: the ladder of the account's conviction locks,
/// the rendered balance locks, and the rendered vesting schedules.
pub open spec fn spec_account_report_matches(
    r: AccountReport,
    address: Seq<char>,
    classes: Seq<ClassVoting>,
    locks: Seq<BalanceLockRecord>,
    vrecords: Seq<VestingRecord>,
    t_now: int,
    head: int,
) -> bool {
    let ladder = spec_ladder(spec_class_intervals(classes, t_now, head), t_now);
    &&& r.address@ == address
    &&& r.ladder@.len() == 6
    &&& forall|i: int| 0 <= i < 6 ==> spec_ladder_entry_matches(
        #[trigger] r.ladder@[i],
        ladder[i],
        i,
    )
    &&& r.locks@.len() == locks.len()
    &&& forall|i: int| 0 <= i < locks.len() ==> spec_balance_lock_matches(
        #[trigger] r.locks@[i],
        locks[i],
    )
    &&& r.vesting@.len() == vrecords.len()
    &&& forall|i: int| 0 <= i < vrecords.len() ==> spec_vesting_text_matches(
        #[trigger] r.vesting@[i],
        spec_vesting_schedule(vrecords[i]),
    )
}

/// Composes one account's report from its chain state: resolves the
/// conviction locks, buckets them, and renders ladder, balance locks
/// and vesting schedules.  Fails, and only fails, where the resolver
/// does: on a conviction level above six.
pub fn account_report(
    address: &str,
    classes: &Vec<ClassVoting>,
    locks: &Vec<BalanceLockRecord>,
    vrecords: &Vec<VestingRecord>,
    t_now: i64,
    head: u32,
) -> (r: Result<AccountReport, LockError>)
    requires
        valid_instant(t_now as int),
        spec_classes_input_ok(classes@, head as int),
        forall|i: int| 0 <= i < locks@.len() ==> spec_ascii_bytes(#[trigger] locks@[i].id@),
        forall|i: int| 0 <= i < vrecords@.len() ==> spec_vesting_record_ok(
            #[trigger] vrecords@[i],
        ),
    ensures
        r is Ok <==> spec_classes_ok(classes@),
        r matches Ok(rep) ==> spec_account_report_matches(
            rep,
            address@,
            classes@,
            locks@,
            vrecords@,
            t_now as int,
            head as int,
        ),
        r matches Err(e) ==> ({
            &&& e matches LockError::ConvictionOutOfRange { referendum, conviction }
            &&& conviction > 6
            &&& exists|i: int, j: int|
                {
                    &&& 0 <= i < classes@.len()
                    &&& 0 <= j < crate::chain::spec_class_votes(classes@[i]).len()
                    &&& crate::resolver::spec_usable(
                        #[trigger] crate::chain::spec_class_votes(classes@[i])[j],
                    )
                    &&& crate::chain::spec_class_votes(classes@[i])[j].referendum == referendum
                    &&& crate::resolver::spec_vote_conviction(
                        crate::chain::spec_class_votes(classes@[i])[j],
                    ) == conviction
                }
        }),
{
    match conviction_lock_intervals(classes, t_now, head) {
        Err(e) => Err(e),
        Ok(ivs) => {
            proof {
                lemma_intervals_well_formed(classes@, t_now as int, head as int);
            }
            let slots = build_ladder(&ivs, t_now);
            let ladder = compose_ladder_text(&slots);
            let lock_texts = compose_lock_texts(locks);
            let schedules = vesting_schedules(vrecords);
            let vesting_texts = compose_vesting_texts(&schedules);
            Ok(
                AccountReport {
                    address: String::from_str(address),
                    ladder,
                    locks: lock_texts,
                    vesting: vesting_texts,
                },
            )
        },
    }
}

/// Joins the accounts, in input order, under the run's extraction date.
pub fn run_report(t_now: i64, accounts: Vec<AccountReport>) -> (r: RunReport)
    requires
        valid_instant(t_now as int),
    ensures
        r.date@ == utc_text_of(t_now as int),
        r.accounts == accounts,
{
    RunReport { date: format_utc_seconds(t_now), accounts }
}

/// Two rendered ladder slots read the same.
pub open spec fn spec_ladder_entries_equal(a: LadderEntryText, b: LadderEntryText) -> bool {
    a.lock_category@ == b.lock_category@ && a.amount@ == b.amount@ && a.class@ == b.class@
}

/// Two composed account reports read the same, field for field.
pub open spec fn spec_account_reports_equal(a: AccountReport, b: AccountReport) -> bool {
    &&& a.address@ == b.address@
    &&& a.ladder@.len() == b.ladder@.len()
    &&& forall|i: int| 0 <= i < a.ladder@.len() ==> spec_ladder_entries_equal(
        #[trigger] a.ladder@[i],
        b.ladder@[i],
    )
    &&& a.locks@.len() == b.locks@.len()
    &&& forall|i: int| 0 <= i < a.locks@.len() ==> (#[trigger] a.locks@[i]).id_text@
        == b.locks@[i].id_text@ && a.locks@[i].amount@ == b.locks@[i].amount@
    &&& a.vesting@.len() == b.vesting@.len()
    &&& forall|i: int| 0 <= i < a.vesting@.len() ==> (#[trigger] a.vesting@[i]).start_at@
        == b.vesting@[i].start_at@ && a.vesting@[i].end_at@ == b.vesting@[i].end_at@
        && a.vesting@[i].locked@ == b.vesting@[i].locked@ && a.vesting@[i].per_block@
        == b.vesting@[i].per_block@
}

/// Law: composing is deterministic — two account reports composed from
/// identical chain state and an identical sampled instant read the
/// same, character for character.
pub proof fn lemma_account_report_deterministic(
    r1: AccountReport,
    r2: AccountReport,
    address: Seq<char>,
    classes: Seq<ClassVoting>,
    locks: Seq<BalanceLockRecord>,
    vrecords: Seq<VestingRecord>,
    t_now: int,
    head: int,
)
    requires
        spec_account_report_matches(r1, address, classes, locks, vrecords, t_now, head),
        spec_account_report_matches(r2, address, classes, locks, vrecords, t_now, head),
    ensures
        spec_account_reports_equal(r1, r2),
{
    let ladder = spec_ladder(spec_class_intervals(classes, t_now, head), t_now);
    assert forall|i: int| 0 <= i < r1.ladder@.len() implies spec_ladder_entries_equal(
        #[trigger] r1.ladder@[i],
        r2.ladder@[i],
    ) by {
        assert(spec_ladder_entry_matches(r1.ladder@[i], ladder[i], i));
        assert(spec_ladder_entry_matches(r2.ladder@[i], ladder[i], i));
    }
    assert forall|i: int| 0 <= i < r1.locks@.len() implies (#[trigger] r1.locks@[i]).id_text@
        == r2.locks@[i].id_text@ && r1.locks@[i].amount@ == r2.locks@[i].amount@ by {
        assert(spec_balance_lock_matches(r1.locks@[i], locks[i]));
        assert(spec_balance_lock_matches(r2.locks@[i], locks[i]));
    }
    assert forall|i: int| 0 <= i < r1.vesting@.len() implies (#[trigger] r1.vesting@[i]).start_at@
        == r2.vesting@[i].start_at@ && r1.vesting@[i].end_at@ == r2.vesting@[i].end_at@
        && r1.vesting@[i].locked@ == r2.vesting@[i].locked@ && r1.vesting@[i].per_block@
        == r2.vesting@[i].per_block@ by {
        assert(spec_vesting_text_matches(r1.vesting@[i], spec_vesting_schedule(vrecords[i])));
        assert(spec_vesting_text_matches(r2.vesting@[i], spec_vesting_schedule(vrecords[i])));
    }
}

} // verus!
