use lock_ladder::interval::LockedInterval;
use lock_ladder::ladder::{bucket_of_end, build_ladder, BucketEntry, LadderBucket};

const T_NOW: i64 = 1_700_000_000;
const DAY: i64 = 86_400;
const TOKEN: u128 = 10_000_000_000;

fn iv(amount: u128, end_at: i64) -> LockedInterval {
    LockedInterval { start_at: T_NOW - DAY, end_at, amount }
}

#[test]
fn bucket_boundaries() {
    // Already unlocked, or unlocking within the current day.
    assert_eq!(bucket_of_end(T_NOW - 10 * DAY, T_NOW), LadderBucket::Days0);
    assert_eq!(bucket_of_end(T_NOW, T_NOW), LadderBucket::Days0);
    assert_eq!(bucket_of_end(T_NOW + DAY - 1, T_NOW), LadderBucket::Days0);
    // Each boundary day lands in its bucket.
    assert_eq!(bucket_of_end(T_NOW + DAY, T_NOW), LadderBucket::Days1To7);
    assert_eq!(bucket_of_end(T_NOW + 7 * DAY, T_NOW), LadderBucket::Days1To7);
    assert_eq!(bucket_of_end(T_NOW + 8 * DAY, T_NOW), LadderBucket::Days8To14);
    assert_eq!(bucket_of_end(T_NOW + 14 * DAY, T_NOW), LadderBucket::Days8To14);
    assert_eq!(bucket_of_end(T_NOW + 15 * DAY, T_NOW), LadderBucket::Days15To28);
    assert_eq!(bucket_of_end(T_NOW + 28 * DAY, T_NOW), LadderBucket::Days15To28);
    assert_eq!(bucket_of_end(T_NOW + 29 * DAY, T_NOW), LadderBucket::Days29To60);
    assert_eq!(bucket_of_end(T_NOW + 60 * DAY, T_NOW), LadderBucket::Days29To60);
    assert_eq!(bucket_of_end(T_NOW + 61 * DAY, T_NOW), LadderBucket::DaysOver60);
    assert_eq!(bucket_of_end(T_NOW + 1792 * DAY, T_NOW), LadderBucket::DaysOver60);
}

#[test]
fn empty_interval_list_gives_empty_ladder() {
    let ladder = build_ladder(&vec![], T_NOW);
    assert_eq!(ladder.len(), 6);
    assert!(ladder.iter().all(|s| s.is_none()));
}

#[test]
fn intra_bucket_reduction_keeps_largest_amount() {
    let ivs = vec![
        iv(10 * TOKEN, T_NOW + 3 * DAY),
        iv(25 * TOKEN, T_NOW + 4 * DAY),
        iv(15 * TOKEN, T_NOW + 5 * DAY),
    ];
    let ladder = build_ladder(&ivs, T_NOW);
    assert_eq!(
        ladder[1],
        Some(BucketEntry { amount: 25 * TOKEN, end_at: T_NOW + 4 * DAY })
    );
}

#[test]
fn intra_bucket_tie_breaks_by_later_expiry() {
    let ivs = vec![
        iv(25 * TOKEN, T_NOW + 3 * DAY),
        iv(25 * TOKEN, T_NOW + 6 * DAY),
        iv(25 * TOKEN, T_NOW + 5 * DAY),
    ];
    let ladder = build_ladder(&ivs, T_NOW);
    assert_eq!(
        ladder[1],
        Some(BucketEntry { amount: 25 * TOKEN, end_at: T_NOW + 6 * DAY })
    );
}

#[test]
fn dominance_walk_hides_smaller_shorter_locks() {
    // A large long lock dominates smaller shorter ones.
    let ivs = vec![
        iv(100 * TOKEN, T_NOW + 90 * DAY),
        iv(40 * TOKEN, T_NOW + 20 * DAY),
        iv(60 * TOKEN, T_NOW + 5 * DAY),
    ];
    let ladder = build_ladder(&ivs, T_NOW);
    assert_eq!(ladder[5], Some(BucketEntry { amount: 100 * TOKEN, end_at: T_NOW + 90 * DAY }));
    assert_eq!(ladder[3], None);
    assert_eq!(ladder[1], None);
}

#[test]
fn dominance_walk_surfaces_additional_liquidity() {
    // Two overlapping convictions: 56-day and 224-day horizons.
    let ivs = vec![
        iv(50 * TOKEN, T_NOW + 56 * DAY),
        iv(30 * TOKEN, T_NOW + 224 * DAY),
    ];
    let ladder = build_ladder(&ivs, T_NOW);
    assert_eq!(ladder[0], None);
    assert_eq!(ladder[1], None);
    assert_eq!(ladder[2], None);
    assert_eq!(ladder[3], None);
    assert_eq!(ladder[4], Some(BucketEntry { amount: 50 * TOKEN, end_at: T_NOW + 56 * DAY }));
    assert_eq!(ladder[5], Some(BucketEntry { amount: 30 * TOKEN, end_at: T_NOW + 224 * DAY }));
}

#[test]
fn occupied_amounts_strictly_increase_toward_shorter_horizons() {
    let ivs = vec![
        iv(5 * TOKEN, T_NOW),
        iv(80 * TOKEN, T_NOW + 2 * DAY),
        iv(10 * TOKEN, T_NOW + 10 * DAY),
        iv(40 * TOKEN, T_NOW + 20 * DAY),
        iv(20 * TOKEN, T_NOW + 40 * DAY),
        iv(30 * TOKEN, T_NOW + 100 * DAY),
    ];
    let ladder = build_ladder(&ivs, T_NOW);
    let occupied: Vec<u128> =
        ladder.iter().filter_map(|s| s.as_ref().map(|e| e.amount)).collect();
    for w in occupied.windows(2) {
        assert!(w[0] > w[1]);
    }
    // The dominance walk kept exactly the strictly-increasing chain
    // seen from the longest horizon down.
    assert_eq!(occupied, vec![80 * TOKEN, 40 * TOKEN, 30 * TOKEN]);
}

#[test]
fn zero_amount_locks_are_never_reported() {
    let ivs = vec![iv(0, T_NOW + 5 * DAY)];
    let ladder = build_ladder(&ivs, T_NOW);
    assert!(ladder.iter().all(|s| s.is_none()));
}

#[test]
fn interval_overlap() {
    let a = LockedInterval { start_at: 100, end_at: 200, amount: 1 };
    assert!(a.overlaps_with(150, 250));
    assert!(a.overlaps_with(200, 300));
    assert!(a.overlaps_with(0, 100));
    assert!(!a.overlaps_with(201, 300));
    assert!(!a.overlaps_with(0, 99));
}
