use sp_daemon::batch_cont_prefill::{
    cont_flag_enabled, full_rebatch_min_suffix, full_rebatch_wins, suffix_batch_min_suffix,
    suffix_batch_wins, suffix_flag_enabled, want_batch_cont_gated, MIN_SUFFIX, SNAP_OVERHEAD_MS,
};

#[test]
fn flag_default_off() {
    assert!(!cont_flag_enabled(None));
    assert!(!cont_flag_enabled(Some("")));
    assert!(!cont_flag_enabled(Some("0")));
    assert!(!cont_flag_enabled(Some("true")));
    assert!(cont_flag_enabled(Some("1")));
}

#[test]
fn suffix_flag_default_off() {
    assert!(!suffix_flag_enabled(None));
    assert!(!suffix_flag_enabled(Some("")));
    assert!(!suffix_flag_enabled(Some("0")));
    assert!(!suffix_flag_enabled(Some("true")));
    assert!(suffix_flag_enabled(Some("1")));
}

#[test]
fn cold_never_wins_cont_arm() {
    // Even a huge "suffix" with prefill_from==0 is not this path.
    assert!(!full_rebatch_wins(0, 10_000));
    assert!(!want_batch_cont_gated(true, false, false, 0, 10_000));
}

#[test]
fn small_suffix_declines() {
    // P=2500 -> min_n = (13*2500 + 200)/67 = 488; also floored at 64.
    assert!(!full_rebatch_wins(2500, 64));
    assert!(!full_rebatch_wins(2500, 400));
    assert!(!full_rebatch_wins(2500, 488)); // equality -> prefer per-token
    assert!(full_rebatch_wins(2500, 489));
}

#[test]
fn short_prefix_uses_min_suffix_floor() {
    // P=100 -> by_speed = (1300+200)/67 = 22 -> floored to 64.
    assert_eq!(full_rebatch_min_suffix(100), MIN_SUFFIX);
    assert!(!full_rebatch_wins(100, 64));
    assert!(full_rebatch_wins(100, 65));
}

#[test]
fn single_entry_blocks() {
    assert!(!want_batch_cont_gated(true, false, true, 2500, 800));
    assert!(want_batch_cont_gated(true, false, false, 2500, 800));
    // Flag off is dead code regardless of geometry.
    assert!(!want_batch_cont_gated(false, false, false, 2500, 800));
    assert!(!want_batch_cont_gated(false, true, false, 2500, 800));
}

#[test]
fn suffix_arm_widens_the_trigger() {
    // The binding floor of the suffix arm is MIN_SUFFIX, not the full-rebatch break-even.
    assert_eq!(suffix_batch_min_suffix(), MIN_SUFFIX);
    // A 200-token suffix at a 6.7k prefix: full re-batch loses, the suffix arm fires.
    assert!(!full_rebatch_wins(6700, 200));
    assert!(suffix_batch_wins(6700, 200));
    assert!(!want_batch_cont_gated(true, false, false, 6700, 200)); // cont-only: still per-token
    assert!(want_batch_cont_gated(true, true, false, 6700, 200)); // suffix armed: fires
    // Below the alloc floor nobody batches.
    assert!(!suffix_batch_wins(6700, 64));
    // Cold turns are never this arm's business.
    assert!(!suffix_batch_wins(0, 5000));
    assert!(!want_batch_cont_gated(true, true, false, 0, 5000));
}

#[test]
fn threshold_arithmetic_stated() {
    // P=3000, n=1300 -> min = (13*3000+200)/67 = 585; 1300 wins.
    assert!(full_rebatch_wins(3000, 1300));
    // P=3000, n=200 -> loses (pay for 3200 batch vs 200 per-token).
    assert!(!full_rebatch_wins(3000, 200));
}

#[test]
fn flag_off_is_dead_code_predicate() {
    // Even with a suffix that would win the arithmetic, flag-off declines.
    assert!(!cont_flag_enabled(None));
    assert!(!cont_flag_enabled(Some("0")));
    assert!(!want_batch_cont_gated(false, false, false, 2500, 2000));
}

#[test]
fn flag_on_falls_through_when_threshold_misses() {
    // Suffix too short for the prefix length.
    let p = 3000usize;
    let n = 100usize; // well under min_suffix for P=3000
    assert!(n <= full_rebatch_min_suffix(p));
    assert!(!full_rebatch_wins(p, n));
    assert!(
        !want_batch_cont_gated(true, false, false, p, n),
        "threshold miss must leave want_batch_cont false so routes fall through to per-token"
    );
}

#[test]
fn flag_on_and_threshold_hit_arms_the_path() {
    assert!(want_batch_cont_gated(true, false, false, 2500, 800));
    // single_entry seam never takes the batch.
    assert!(!want_batch_cont_gated(true, false, true, 2500, 800));
}

#[test]
fn min_suffix_never_below_floor() {
    assert!(full_rebatch_min_suffix(0) >= MIN_SUFFIX || full_rebatch_min_suffix(0) == usize::MAX);
    assert!(full_rebatch_min_suffix(10) >= MIN_SUFFIX);
    // Large prefix: floor is the speed break-even, not MIN_SUFFIX.
    let m = full_rebatch_min_suffix(5000);
    assert!(m > MIN_SUFFIX);
    // Overhead is in the formula.
    assert!(SNAP_OVERHEAD_MS > 0);
}

#[test]
fn cold_prefill_from_zero_never_takes_cont_arm() {
    assert!(!full_rebatch_wins(0, 9999));
    assert!(!want_batch_cont_gated(true, false, false, 0, 9999));
}

#[test]
fn suffix_arm_has_its_own_floor_and_its_own_win() {
    let floor = suffix_batch_min_suffix();
    assert!(suffix_batch_wins(2500, floor + 1));
    assert!(!suffix_batch_wins(2500, floor));
    assert!(want_batch_cont_gated(true, true, false, 2500, floor + 1));
    assert!(!want_batch_cont_gated(true, true, false, 2500, floor));
    assert!(!want_batch_cont_gated(true, true, true, 2500, floor + 1));
    // ...and a cold start (prefill_from == 0) is never the suffix arm's business.
    assert!(!suffix_batch_wins(0, 9999));
}
