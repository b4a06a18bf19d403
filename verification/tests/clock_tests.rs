use lock_ladder::clock::{
    accept_sample, block_to_instant_absolute, block_to_instant_relative, sample_clock,
    EARLY_ANCHOR_EPOCH, GENESIS_THRESHOLD, LATE_ANCHOR_EPOCH, MAX_INSTANT,
};

#[test]
fn relative_anchoring_slides_back_from_now() {
    let t_now: i64 = 1_700_000_000;
    assert_eq!(block_to_instant_relative(t_now, 1000, 900), 1_700_000_000 - 600);
    assert_eq!(block_to_instant_relative(t_now, 1000, 1000), t_now);
    assert_eq!(block_to_instant_relative(t_now, 1000, 0), t_now - 6000);
}

#[test]
fn relative_anchoring_round_trips_block_distance() {
    let t_now: i64 = 1_700_000_000;
    let head: u32 = 17_000_000;
    for block in [0u32, 1, 9_000_000, 16_999_999, 17_000_000] {
        let at = block_to_instant_relative(t_now, head, block);
        assert_eq!((t_now - at) / 6, (head - block) as i64);
    }
}

#[test]
fn absolute_anchoring_uses_early_epoch_below_threshold() {
    assert_eq!(block_to_instant_absolute(0), EARLY_ANCHOR_EPOCH);
    assert_eq!(block_to_instant_absolute(1), EARLY_ANCHOR_EPOCH + 6);
    assert_eq!(
        block_to_instant_absolute(GENESIS_THRESHOLD - 1),
        EARLY_ANCHOR_EPOCH + 6 * (GENESIS_THRESHOLD as i64 - 1)
    );
}

#[test]
fn absolute_anchoring_uses_late_epoch_at_threshold() {
    assert_eq!(
        block_to_instant_absolute(GENESIS_THRESHOLD),
        LATE_ANCHOR_EPOCH + 6 * GENESIS_THRESHOLD as i64
    );
    assert_eq!(
        block_to_instant_absolute(20_000_000),
        LATE_ANCHOR_EPOCH + 6 * 20_000_000
    );
}

#[test]
fn in_range_samples_are_accepted_unchanged() {
    assert_eq!(accept_sample(0), Some(0));
    assert_eq!(accept_sample(1_700_000_000), Some(1_700_000_000));
    assert_eq!(accept_sample(MAX_INSTANT), Some(MAX_INSTANT));
}

#[test]
fn out_of_range_samples_are_rejected() {
    assert_eq!(accept_sample(-1), None);
    assert_eq!(accept_sample(i64::MIN), None);
    assert_eq!(accept_sample(MAX_INSTANT + 1), None);
    assert_eq!(accept_sample(i64::MAX), None);
}

#[test]
fn sampled_clock_is_in_range() {
    match sample_clock() {
        Some(t) => assert!(0 <= t && t <= MAX_INSTANT),
        None => {}
    }
}
