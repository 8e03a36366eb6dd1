use klava_core::migration::{
    after_run, decide_launch, link_level_result, parse_run_count, run_count_bytes, EntryAction, EntryOutcome,
    LaunchAction,
};

#[test]
fn launch_skips_portable_completed_unresolved_and_fresh_installs() {
    assert_eq!(decide_launch(true, true, false, false, 0, None), LaunchAction::Skip);
    assert_eq!(decide_launch(false, false, false, false, 0, None), LaunchAction::Skip);
    assert_eq!(decide_launch(false, true, true, false, 0, None), LaunchAction::Skip);
    assert_eq!(decide_launch(false, true, false, true, 0, None), LaunchAction::Skip);
    // even with many failed runs, a completed migration is just skipped
    assert_eq!(decide_launch(false, true, true, false, 3, None), LaunchAction::Skip);
}

#[test]
fn launch_probes_then_migrates_or_records_fresh_install() {
    assert_eq!(decide_launch(false, true, false, false, 0, None), LaunchAction::ProbeLegacyDir);
    assert_eq!(decide_launch(false, true, false, false, 0, Some(true)), LaunchAction::Migrate);
    assert_eq!(decide_launch(false, true, false, false, 2, Some(true)), LaunchAction::Migrate);
    assert_eq!(decide_launch(false, true, false, false, 0, Some(false)), LaunchAction::RecordFreshInstall);
}

#[test]
fn launch_gives_up_after_three_failed_runs() {
    let mut runs = 0;
    for _ in 0..3 {
        assert_ne!(decide_launch(false, true, false, false, runs, None), LaunchAction::GiveUp);
        runs = after_run(runs, false);
    }
    assert_eq!(runs, 3);
    assert_eq!(decide_launch(false, true, false, false, runs, None), LaunchAction::GiveUp);
    assert_eq!(decide_launch(false, true, false, false, runs, Some(true)), LaunchAction::GiveUp);
    assert_eq!(after_run(runs, false), 3);
    assert_eq!(after_run(1, true), 1);
}

#[test]
fn failed_run_counter_file_round_trips() {
    for n in 0..=9 {
        assert_eq!(parse_run_count(&run_count_bytes(n)), n);
    }
    assert_eq!(run_count_bytes(2), b"2".to_vec());
    assert_eq!(run_count_bytes(42), b"9".to_vec());
    assert_eq!(parse_run_count(b""), 0);
    assert_eq!(parse_run_count(b"x"), 0);
    assert_eq!(parse_run_count(b"12"), 0);
    assert_eq!(parse_run_count(b"3"), 3);
}

#[test]
fn link_level_fails_on_any_lost_entry() {
    let ok = [
        EntryOutcome::SkippedBySuffix,
        EntryOutcome::Handled { action: EntryAction::SkipSymlink, succeeded: true },
        EntryOutcome::Handled { action: EntryAction::KeepExisting, succeeded: true },
        EntryOutcome::Handled { action: EntryAction::Link, succeeded: true },
        EntryOutcome::Handled { action: EntryAction::Descend, succeeded: true },
    ];
    assert!(link_level_result(true, true, &ok));
    assert!(link_level_result(true, true, &[]));
    assert!(!link_level_result(false, true, &ok));
    assert!(!link_level_result(true, false, &ok));
    for bad in [
        EntryOutcome::Unlisted,
        EntryOutcome::Handled { action: EntryAction::Unreadable, succeeded: true },
        EntryOutcome::Handled { action: EntryAction::Link, succeeded: false },
        EntryOutcome::Handled { action: EntryAction::Descend, succeeded: false },
    ] {
        let mut v = ok.to_vec();
        v.insert(2, bad);
        assert!(!link_level_result(true, true, &v));
    }
}

use klava_core::migration::{retry_copy_precheck, CopyRetry, MigrationAction, MigrationPlan};

#[test]
fn copy_retry_gives_up_on_third_failure() {
    assert_eq!(retry_copy_precheck(false), Some(true));
    assert_eq!(retry_copy_precheck(true), None);
    let mut r = CopyRetry::new();
    assert_eq!(r.observe(false), None);
    assert_eq!(r.observe(false), None);
    assert_eq!(r.observe(false), Some(false));
    let mut r = CopyRetry::new();
    assert_eq!(r.observe(false), None);
    assert_eq!(r.observe(true), Some(true));
}

#[test]
fn failed_marker_write_leaves_the_run_incomplete() {
    let mut p = MigrationPlan::new();
    for _ in 0..7 {
        p.advance(true);
    }
    assert_eq!(p.pending(), MigrationAction::WriteMarker);
    assert_eq!(p.advance(false), MigrationAction::Finish { complete: false });
}
