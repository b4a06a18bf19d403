use lock_ladder::chain::VestingRecord;
use lock_ladder::clock::EARLY_ANCHOR_EPOCH;
use lock_ladder::vesting::{vesting_record_ok, vesting_schedule, vesting_schedules};

const TOKEN: u128 = 10_000_000_000;

#[test]
fn linear_release_window() {
    // Two hundred tokens releasing one token per block from block one.
    let rec = VestingRecord { locked: 200 * TOKEN, per_block: TOKEN, starting_block: 1 };
    let s = vesting_schedule(&rec);
    assert_eq!(s.start_at, EARLY_ANCHOR_EPOCH + 6);
    assert_eq!(s.end_at, s.start_at + 1200);
    assert_eq!(s.locked, 200 * TOKEN);
    assert_eq!(s.per_block, TOKEN);
}

#[test]
fn partial_last_block_rounds_up() {
    let divisible = VestingRecord { locked: 10 * TOKEN, per_block: 2 * TOKEN, starting_block: 100 };
    let s = vesting_schedule(&divisible);
    assert_eq!(s.end_at - s.start_at, 6 * 5);

    let remainder = VestingRecord { locked: 10 * TOKEN + 1, per_block: 2 * TOKEN, starting_block: 100 };
    let s = vesting_schedule(&remainder);
    assert_eq!(s.end_at - s.start_at, 6 * 6);
}

#[test]
fn zero_per_block_is_rejected() {
    let rec = VestingRecord { locked: TOKEN, per_block: 0, starting_block: 1 };
    assert!(!vesting_record_ok(&rec));
    let fine = VestingRecord { locked: TOKEN, per_block: TOKEN, starting_block: 1 };
    assert!(vesting_record_ok(&fine));
}

#[test]
fn overlong_release_is_rejected() {
    let rec = VestingRecord { locked: u128::MAX, per_block: 1, starting_block: 1 };
    assert!(!vesting_record_ok(&rec));
    let edge = VestingRecord { locked: u32::MAX as u128, per_block: 1, starting_block: 1 };
    assert!(vesting_record_ok(&edge));
}

#[test]
fn schedules_expand_in_list_order() {
    let recs = vec![
        VestingRecord { locked: 200 * TOKEN, per_block: TOKEN, starting_block: 1 },
        VestingRecord { locked: 50 * TOKEN, per_block: TOKEN, starting_block: 10_000_000 },
    ];
    let out = vesting_schedules(&recs);
    assert_eq!(out.len(), 2);
    assert_eq!(out[0].start_at, EARLY_ANCHOR_EPOCH + 6);
    assert!(out[1].start_at > out[0].start_at);
    assert_eq!(out[1].end_at - out[1].start_at, 6 * 50);
}
