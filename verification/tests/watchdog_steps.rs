//! Tests for snapshot comparison and the watchdog decision.

use rtsp2hls::fatal::{exit_code, verdict_condition, FatalCondition};
use rtsp2hls::watchdog::{watchdog_step, Snapshot, WatchdogVerdict};

fn names(list: &[&[u8]]) -> Vec<Vec<u8>> {
    list.iter().map(|n| n.to_vec()).collect()
}

#[test]
fn identical_snapshots_mean_stall() {
    let base = Snapshot::from_listing(names(&[b"live-00000001.ts", b"live-00000002.ts"]));
    let listing = names(&[b"live-00000001.ts", b"live-00000002.ts"]);
    let (verdict, _) = watchdog_step(base, Some(true), Some(listing));
    assert!(matches!(verdict, WatchdogVerdict::Stalled));
    let condition = verdict_condition(&verdict).expect("a stall is fatal");
    assert!(matches!(condition, FatalCondition::Stalled));
    assert_eq!(exit_code(&condition), 2);
}

#[test]
fn changed_snapshot_keeps_monitoring() {
    let base = Snapshot::from_listing(names(&[b"live-00000001.ts", b"live-00000002.ts"]));
    let listing = names(&[b"live-00000002.ts", b"live-00000003.ts"]);
    let (verdict, next) = watchdog_step(base, Some(true), Some(listing));
    assert!(matches!(verdict, WatchdogVerdict::Monitoring));
    assert!(verdict_condition(&verdict).is_none());

    // The new snapshot becomes the baseline: an identical next sample
    // is then a stall.
    let listing = names(&[b"live-00000003.ts", b"live-00000002.ts"]);
    let (verdict, _) = watchdog_step(next, Some(true), Some(listing));
    assert!(matches!(verdict, WatchdogVerdict::Stalled));
}

#[test]
fn dead_transcoder_wins_over_snapshot_comparison() {
    // The listing differs from the baseline, but liveness is checked
    // first.
    let base = Snapshot::empty();
    let listing = names(&[b"live-00000001.ts"]);
    let (verdict, _) = watchdog_step(base, Some(false), Some(listing));
    assert!(matches!(verdict, WatchdogVerdict::TranscoderDied));
    let condition = verdict_condition(&verdict).expect("a dead transcoder is fatal");
    assert!(matches!(condition, FatalCondition::TranscoderDied));
    assert_eq!(exit_code(&condition), 2);
}

#[test]
fn failed_liveness_poll_counts_as_dead() {
    let base = Snapshot::empty();
    let (verdict, _) = watchdog_step(base, None, Some(names(&[b"live-00000001.ts"])));
    assert!(matches!(verdict, WatchdogVerdict::TranscoderDied));
}

#[test]
fn failed_listing_is_a_failed_healthcheck() {
    let base = Snapshot::empty();
    let (verdict, _) = watchdog_step(base, Some(true), None);
    assert!(matches!(verdict, WatchdogVerdict::HealthcheckFailed));
    let condition = verdict_condition(&verdict).expect("a failed healthcheck is fatal");
    assert_eq!(exit_code(&condition), 2);
}

#[test]
fn no_fragments_after_first_period_is_a_stall() {
    // The very first sample against the empty baseline: the transcoder
    // is alive but wrote no .ts file at all, so the sets are equal and
    // the stream is declared stalled after exactly one grace period.
    let base = Snapshot::empty();
    let (verdict, _) = watchdog_step(base, Some(true), Some(names(&[b"index.m3u8"])));
    assert!(matches!(verdict, WatchdogVerdict::Stalled));
    assert_eq!(exit_code(&verdict_condition(&verdict).unwrap()), 2);
}

#[test]
fn first_fragments_count_as_progress() {
    let base = Snapshot::empty();
    let listing = names(&[b"index.m3u8", b"live-00000000.ts"]);
    let (verdict, _) = watchdog_step(base, Some(true), Some(listing));
    assert!(matches!(verdict, WatchdogVerdict::Monitoring));
}

#[test]
fn snapshot_comparison_is_set_equality() {
    // Order and duplicates do not matter; non-fragment names are
    // filtered out before the comparison.
    let a = Snapshot::from_listing(names(&[
        b"live-00000001.ts",
        b"live-00000002.ts",
        b"index.m3u8",
    ]));
    let b = Snapshot::from_listing(names(&[
        b"live-00000002.ts",
        b"live-00000001.ts",
        b"live-00000001.ts",
    ]));
    assert!(a.same_names(&b));

    let c = Snapshot::from_listing(names(&[b"live-00000001.ts"]));
    assert!(!a.same_names(&c));
    assert!(!c.same_names(&a));
}

#[test]
fn listing_filter_keeps_only_ts_names() {
    let s = Snapshot::from_listing(names(&[b"index.m3u8", b"x.ts", b".ts", b"ts", b"a.tsx"]));
    let only_ts = Snapshot::from_listing(names(&[b"x.ts", b".ts"]));
    assert!(s.same_names(&only_ts));
    let empty = Snapshot::empty();
    assert!(!s.same_names(&empty));
}

#[test]
fn empty_snapshots_are_equal() {
    let a = Snapshot::empty();
    let b = Snapshot::from_listing(names(&[b"index.m3u8"]));
    assert!(a.same_names(&b));
    assert!(b.same_names(&a));
}
