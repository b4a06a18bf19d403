use lock_ladder::chain::{
    AccountVote, BalanceLockRecord, CastVote, ClassVoting, ReferendumStatus, VestingRecord,
    VotingRecord,
};
use lock_ladder::report::{account_report, run_report};
use lock_ladder::resolver::LockError;

const T_NOW: i64 = 1_700_000_000;
const HEAD: u32 = 1000;
const TOKEN: u128 = 10_000_000_000;

fn standard_vote(referendum: u32, byte: u8, balance: u128, at: u32) -> CastVote {
    CastVote {
        referendum,
        vote: AccountVote::Standard { vote: byte, balance },
        status: Some(ReferendumStatus::Approved { at }),
    }
}

fn one_class(votes: Vec<CastVote>) -> Vec<ClassVoting> {
    vec![ClassVoting { class_id: 0, record: Some(VotingRecord::Casting { votes }) }]
}

#[test]
fn single_max_conviction_vote_fills_only_the_top_bucket() {
    let classes = one_class(vec![standard_vote(42, 134, 100 * TOKEN, HEAD - 100)]);
    let rep = account_report("addr-one", &classes, &vec![], &vec![], T_NOW, HEAD).unwrap();
    assert_eq!(rep.address, "addr-one");
    assert_eq!(rep.ladder.len(), 6);
    assert_eq!(rep.ladder[5].lock_category, "Locked 60+ Days");
    assert_eq!(rep.ladder[5].amount, "100.0000000000");
    assert_eq!(rep.ladder[5].class, "locked-60-plus-days");
    for i in 0..5 {
        assert_eq!(rep.ladder[i].amount, "none");
        assert_eq!(rep.ladder[i].class, "none");
    }
    assert!(rep.locks.is_empty());
    assert!(rep.vesting.is_empty());
}

#[test]
fn two_overlapping_convictions() {
    // Conviction one (56 days) and conviction three (224 days), both
    // anchored at the head.
    let classes = one_class(vec![
        standard_vote(1, 1, 50 * TOKEN, HEAD),
        standard_vote(2, 3, 30 * TOKEN, HEAD),
    ]);
    let rep = account_report("addr", &classes, &vec![], &vec![], T_NOW, HEAD).unwrap();
    let amounts: Vec<&str> = rep.ladder.iter().map(|e| e.amount.as_str()).collect();
    assert_eq!(
        amounts,
        vec!["none", "none", "none", "none", "50.0000000000", "30.0000000000"]
    );
    assert_eq!(rep.ladder[4].class, "locked-29-60-days");
    assert_eq!(rep.ladder[5].class, "locked-60-plus-days");
}

#[test]
fn conviction_zero_locks_for_twenty_eight_days() {
    let classes = one_class(vec![standard_vote(7, 0, 10 * TOKEN, HEAD)]);
    let rep = account_report("addr", &classes, &vec![], &vec![], T_NOW, HEAD).unwrap();
    assert_eq!(rep.ladder[3].lock_category, "Locked 15-28 Days");
    assert_eq!(rep.ladder[3].amount, "10.0000000000");
    assert_eq!(rep.ladder[3].class, "locked-15-28-days");
    for i in [0, 1, 2, 4, 5] {
        assert_eq!(rep.ladder[i].amount, "none");
    }
}

#[test]
fn empty_chain_state_gives_empty_report() {
    let rep = account_report("addr", &vec![], &vec![], &vec![], T_NOW, HEAD).unwrap();
    let labels: Vec<&str> = rep.ladder.iter().map(|e| e.lock_category.as_str()).collect();
    assert_eq!(
        labels,
        vec![
            "Locked 0 Days",
            "Locked 1-7 Days",
            "Locked 8-14 Days",
            "Locked 15-28 Days",
            "Locked 29-60 Days",
            "Locked 60+ Days",
        ]
    );
    assert!(rep.ladder.iter().all(|e| e.amount == "none" && e.class == "none"));
    assert!(rep.locks.is_empty());
    assert!(rep.vesting.is_empty());
}

#[test]
fn vesting_only_report_renders_the_window() {
    let vesting = vec![VestingRecord { locked: 200 * TOKEN, per_block: TOKEN, starting_block: 1 }];
    let rep = account_report("addr", &vec![], &vec![], &vesting, T_NOW, HEAD).unwrap();
    assert!(rep.ladder.iter().all(|e| e.amount == "none"));
    assert_eq!(rep.vesting.len(), 1);
    assert_eq!(rep.vesting[0].start_at, "2020-05-26 15:36:24");
    assert_eq!(rep.vesting[0].end_at, "2020-05-26 15:56:24");
    assert_eq!(rep.vesting[0].locked, "200.0000000000");
    assert_eq!(rep.vesting[0].per_block, "1.0000000000");
}

#[test]
fn mixed_vote_and_vesting() {
    // A conviction-two vote (112-day horizon) plus one vesting entry.
    let classes = one_class(vec![standard_vote(5, 2, 40 * TOKEN, HEAD - 10)]);
    let vesting = vec![VestingRecord { locked: 200 * TOKEN, per_block: TOKEN, starting_block: 1 }];
    let rep = account_report("addr", &classes, &vec![], &vesting, T_NOW, HEAD).unwrap();
    assert_eq!(rep.ladder[5].amount, "40.0000000000");
    for i in 0..5 {
        assert_eq!(rep.ladder[i].amount, "none");
    }
    assert_eq!(rep.vesting.len(), 1);
    assert_eq!(rep.vesting[0].locked, "200.0000000000");
}

#[test]
fn balance_locks_render_tag_and_amount() {
    let locks = vec![
        BalanceLockRecord { id: b"py/trsry".to_vec(), amount: 5 * TOKEN },
        BalanceLockRecord { id: b"vesting ".to_vec(), amount: 1 },
    ];
    let rep = account_report("addr", &vec![], &locks, &vec![], T_NOW, HEAD).unwrap();
    assert_eq!(rep.locks.len(), 2);
    assert_eq!(rep.locks[0].id_text, "py/trsry");
    assert_eq!(rep.locks[0].amount, "5.0000000000");
    assert_eq!(rep.locks[1].id_text, "vesting ");
    assert_eq!(rep.locks[1].amount, "0.0000000001");
}

#[test]
fn conviction_violation_fails_the_account() {
    let classes = one_class(vec![standard_vote(11, 135, TOKEN, HEAD)]);
    let err = account_report("addr", &classes, &vec![], &vec![], T_NOW, HEAD).unwrap_err();
    assert_eq!(err, LockError::ConvictionOutOfRange { referendum: 11, conviction: 7 });
}

#[test]
fn identical_state_composes_identical_reports() {
    let classes = one_class(vec![
        standard_vote(1, 1, 50 * TOKEN, HEAD),
        standard_vote(2, 3, 30 * TOKEN, HEAD),
    ]);
    let locks = vec![BalanceLockRecord { id: b"py/trsry".to_vec(), amount: 5 * TOKEN }];
    let vesting = vec![VestingRecord { locked: 200 * TOKEN, per_block: TOKEN, starting_block: 1 }];
    let a = account_report("addr", &classes, &locks, &vesting, T_NOW, HEAD).unwrap();
    let b = account_report("addr", &classes, &locks, &vesting, T_NOW, HEAD).unwrap();
    assert_eq!(a.address, b.address);
    for i in 0..6 {
        assert_eq!(a.ladder[i].lock_category, b.ladder[i].lock_category);
        assert_eq!(a.ladder[i].amount, b.ladder[i].amount);
        assert_eq!(a.ladder[i].class, b.ladder[i].class);
    }
    assert_eq!(a.locks[0].id_text, b.locks[0].id_text);
    assert_eq!(a.locks[0].amount, b.locks[0].amount);
    assert_eq!(a.vesting[0].start_at, b.vesting[0].start_at);
    assert_eq!(a.vesting[0].end_at, b.vesting[0].end_at);
}

#[test]
fn run_report_carries_date_and_account_order() {
    let rep1 = account_report("first", &vec![], &vec![], &vec![], T_NOW, HEAD).unwrap();
    let rep2 = account_report("second", &vec![], &vec![], &vec![], T_NOW, HEAD).unwrap();
    let run = run_report(T_NOW, vec![rep1, rep2]);
    assert_eq!(run.date, "2023-11-14 22:13:20");
    assert_eq!(run.accounts.len(), 2);
    assert_eq!(run.accounts[0].address, "first");
    assert_eq!(run.accounts[1].address, "second");
}
