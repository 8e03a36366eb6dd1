use klava_core::migration::{
    backup_after_step, backup_deadline_passed, entry_action, has_skipped_suffix, is_permanently_unusable,
    link_precheck, quick_check_passed, should_copy_file, Attempts, BackupFailure, BackupStep, BackupTick,
    DbError, EntryAction, EntryKind, HistoryAction, HistoryCopy, HistoryEvent, MigrationAction, MigrationPlan,
    SchemaCheck, SchemaProbe, SqliteCode, EXTRACTING_SUFFIX, PARTIAL_SUFFIX,
};

fn sqlite(code: SqliteCode, message: &str) -> DbError {
    DbError::Sqlite { code, message: message.to_string() }
}

#[test]
fn permanent_errors_are_not_a_database_and_corrupt() {
    assert!(is_permanently_unusable(&sqlite(SqliteCode::NotADatabase, "file is not a database")));
    assert!(is_permanently_unusable(&sqlite(SqliteCode::DatabaseCorrupt, "malformed")));
    assert!(!is_permanently_unusable(&sqlite(SqliteCode::DatabaseBusy, "busy")));
    assert!(!is_permanently_unusable(&sqlite(SqliteCode::CannotOpen, "cannot open")));
    assert!(!is_permanently_unusable(&DbError::Other { message: "x".to_string() }));
}

#[test]
fn attempts_give_up_on_the_third_failure() {
    let mut a = Attempts::new();
    assert!(!a.record_failure());
    assert!(!a.record_failure());
    assert!(a.record_failure());
    assert_eq!(a.failed(), 3);
    assert!(a.record_failure());
    assert_eq!(a.failed(), 3);
}

#[test]
fn schema_probe_classifies_versions() {
    let mut p = SchemaProbe::new();
    assert!(matches!(p.observe(Ok(3), 3), Some(SchemaCheck::Supported)));
    assert!(matches!(p.observe(Ok(0), 3), Some(SchemaCheck::Supported)));
    assert!(matches!(p.observe(Ok(999), 3), Some(SchemaCheck::Newer(999))));
}

#[test]
fn schema_probe_skips_non_sqlite_at_once() {
    let mut p = SchemaProbe::new();
    match p.observe(Err(sqlite(SqliteCode::NotADatabase, "file is not a database")), 3) {
        Some(SchemaCheck::NotADatabase(m)) => assert_eq!(m, "file is not a database"),
        _ => panic!("expected NotADatabase"),
    }
}

#[test]
fn schema_probe_retries_transient_errors_three_times() {
    let mut p = SchemaProbe::new();
    assert!(p.observe(Err(sqlite(SqliteCode::DatabaseBusy, "busy 1")), 3).is_none());
    assert!(p.observe(Err(sqlite(SqliteCode::CannotOpen, "locked 2")), 3).is_none());
    match p.observe(Err(DbError::Other { message: "locked 3".to_string() }), 3) {
        Some(SchemaCheck::Unreadable(m)) => assert_eq!(m, "locked 3"),
        _ => panic!("expected Unreadable"),
    }
}

#[test]
fn schema_probe_recovers_after_transient_error() {
    let mut p = SchemaProbe::new();
    assert!(p.observe(Err(sqlite(SqliteCode::DatabaseBusy, "busy")), 3).is_none());
    assert!(matches!(p.observe(Ok(2), 3), Some(SchemaCheck::Supported)));
}

#[test]
fn backup_pacing() {
    assert!(!backup_deadline_passed(9_999, 10_000));
    assert!(backup_deadline_passed(10_000, 10_000));
    assert!(matches!(backup_after_step(Ok(BackupStep::Done)), BackupTick::Finished(Ok(()))));
    assert!(matches!(backup_after_step(Ok(BackupStep::More)), BackupTick::Continue));
    assert!(matches!(backup_after_step(Ok(BackupStep::Busy)), BackupTick::Pause));
    assert!(matches!(backup_after_step(Ok(BackupStep::Locked)), BackupTick::Pause));
    assert!(matches!(backup_after_step(Ok(BackupStep::Other)), BackupTick::Pause));
    match backup_after_step(Err(sqlite(SqliteCode::SystemIoFailure, "disk I/O error"))) {
        BackupTick::Finished(Err(BackupFailure::Failed(m))) => assert_eq!(m, "disk I/O error"),
        _ => panic!("expected a failure"),
    }
}

#[test]
fn backup_failure_descriptions() {
    assert_eq!(BackupFailure::LockTimeout.describe(), "timed out waiting for the database lock");
    assert_eq!(BackupFailure::Failed("boom".to_string()).describe(), "boom");
    match BackupFailure::from_error(DbError::Other { message: "m".to_string() }) {
        BackupFailure::Failed(m) => assert_eq!(m, "m"),
        BackupFailure::LockTimeout => panic!("expected Failed"),
    }
}

#[test]
fn quick_check_accepts_only_ok() {
    assert!(quick_check_passed(&Ok("ok".to_string())));
    assert!(!quick_check_passed(&Ok("*** in database main ***\nPage 3 is never used".to_string())));
    assert!(!quick_check_passed(&Ok("OK".to_string())));
    assert!(!quick_check_passed(&Ok("ok ".to_string())));
    assert!(!quick_check_passed(&Err(sqlite(SqliteCode::DatabaseCorrupt, "malformed"))));
}

#[test]
fn optional_copies_never_overwrite() {
    assert!(should_copy_file(true, false));
    assert!(!should_copy_file(true, true));
    assert!(!should_copy_file(false, false));
    assert!(!should_copy_file(false, true));
}

#[test]
fn skip_suffixes() {
    let suffixes = [PARTIAL_SUFFIX, EXTRACTING_SUFFIX];
    assert!(has_skipped_suffix("foo.bin.partial", &suffixes));
    assert!(has_skipped_suffix("bar.extracting", &suffixes));
    assert!(has_skipped_suffix(".partial", &suffixes));
    assert!(!has_skipped_suffix("ggml-small.bin", &suffixes));
    assert!(!has_skipped_suffix("partial", &suffixes));
    assert!(!has_skipped_suffix("foo.partial.bin", &suffixes));
    assert!(!has_skipped_suffix("foo.bin.partial", &[]));
    assert!(has_skipped_suffix("модель.partial", &suffixes));
}

#[test]
fn link_precheck_and_depth_cap() {
    assert_eq!(link_precheck(false, 0), Some(true));
    assert_eq!(link_precheck(false, 100), Some(true));
    assert_eq!(link_precheck(true, 0), None);
    assert_eq!(link_precheck(true, 8), None);
    assert_eq!(link_precheck(true, 9), Some(false));
}

#[test]
fn entry_actions() {
    assert_eq!(entry_action(None, false), EntryAction::Unreadable);
    assert_eq!(entry_action(Some(EntryKind::Symlink), false), EntryAction::SkipSymlink);
    assert_eq!(entry_action(Some(EntryKind::Dir), true), EntryAction::Descend);
    assert_eq!(entry_action(Some(EntryKind::File), true), EntryAction::KeepExisting);
    assert_eq!(entry_action(Some(EntryKind::File), false), EntryAction::Link);
}

fn run_history(events: Vec<HistoryEvent>) -> Vec<HistoryAction> {
    let mut h = HistoryCopy::new();
    let mut steps = vec![h.pending()];
    for ev in events {
        steps.push(h.advance(ev));
    }
    steps
}

#[test]
fn history_missing_source_is_ok() {
    let steps = run_history(vec![HistoryEvent::Answer(false)]);
    assert_eq!(steps, vec![HistoryAction::ProbeSource, HistoryAction::Finish(true)]);
}

#[test]
fn history_keeps_existing_destination() {
    let steps = run_history(vec![HistoryEvent::Answer(true), HistoryEvent::Answer(true)]);
    assert_eq!(steps.last(), Some(&HistoryAction::Finish(true)));
    assert!(!steps.contains(&HistoryAction::Snapshot));
}

#[test]
fn history_skips_newer_schema_and_garbage_but_fails_on_unreadable() {
    for (check, expected) in [
        (SchemaCheck::Newer(999), true),
        (SchemaCheck::NotADatabase("not a database".to_string()), true),
        (SchemaCheck::Unreadable("locked".to_string()), false),
    ] {
        let steps = run_history(vec![
            HistoryEvent::Answer(true),
            HistoryEvent::Answer(false),
            HistoryEvent::Schema(check),
        ]);
        assert_eq!(steps.last(), Some(&HistoryAction::Finish(expected)));
    }
}

#[test]
fn history_snapshot_success() {
    let steps = run_history(vec![
        HistoryEvent::Answer(true),
        HistoryEvent::Answer(false),
        HistoryEvent::Schema(SchemaCheck::Supported),
        HistoryEvent::Snapshot(Ok(())),
    ]);
    assert_eq!(
        steps,
        vec![
            HistoryAction::ProbeSource,
            HistoryAction::ProbeDestination,
            HistoryAction::CheckSchema,
            HistoryAction::Snapshot,
            HistoryAction::Finish(true),
        ]
    );
}

#[test]
fn history_fallback_copy_paths() {
    // snapshot fails, copy succeeds and is sound
    let steps = run_history(vec![
        HistoryEvent::Answer(true),
        HistoryEvent::Answer(false),
        HistoryEvent::Schema(SchemaCheck::Supported),
        HistoryEvent::Snapshot(Err(BackupFailure::Failed("x".to_string()))),
        HistoryEvent::Done,
        HistoryEvent::Answer(true),
        HistoryEvent::Answer(true),
    ]);
    assert_eq!(steps[4], HistoryAction::CopySidecar);
    assert_eq!(steps[5], HistoryAction::CopyDatabase);
    assert_eq!(steps.last(), Some(&HistoryAction::Finish(true)));
    // copy fails: discarded, failure
    let steps = run_history(vec![
        HistoryEvent::Answer(true),
        HistoryEvent::Answer(false),
        HistoryEvent::Schema(SchemaCheck::Supported),
        HistoryEvent::Snapshot(Err(BackupFailure::LockTimeout)),
        HistoryEvent::Done,
        HistoryEvent::Answer(false),
        HistoryEvent::Done,
    ]);
    assert_eq!(steps[6], HistoryAction::DiscardCopy);
    assert_eq!(steps.last(), Some(&HistoryAction::Finish(false)));
    // torn copy after a lock timeout: discarded, retry later
    let torn = |failure: BackupFailure| {
        run_history(vec![
            HistoryEvent::Answer(true),
            HistoryEvent::Answer(false),
            HistoryEvent::Schema(SchemaCheck::Supported),
            HistoryEvent::Snapshot(Err(failure)),
            HistoryEvent::Done,
            HistoryEvent::Answer(true),
            HistoryEvent::Answer(false),
            HistoryEvent::Done,
        ])
    };
    let steps = torn(BackupFailure::LockTimeout);
    assert_eq!(steps[7], HistoryAction::DiscardCopy);
    assert_eq!(steps.last(), Some(&HistoryAction::Finish(false)));
    // torn copy after a real database error: the source is damaged, skip it
    let steps = torn(BackupFailure::Failed("malformed".to_string()));
    assert_eq!(steps[7], HistoryAction::DiscardCopy);
    assert_eq!(steps.last(), Some(&HistoryAction::Finish(true)));
}

#[test]
fn history_ignores_answers_to_other_questions() {
    let mut h = HistoryCopy::new();
    assert_eq!(h.advance(HistoryEvent::Done), HistoryAction::ProbeSource);
    assert_eq!(h.advance(HistoryEvent::Schema(SchemaCheck::Supported)), HistoryAction::ProbeSource);
    assert_eq!(h.advance(HistoryEvent::Answer(false)), HistoryAction::Finish(true));
    assert_eq!(h.advance(HistoryEvent::Answer(true)), HistoryAction::Finish(true));
}

fn run_plan(outcomes: &[bool]) -> Vec<MigrationAction> {
    let mut p = MigrationPlan::new();
    let mut steps = vec![p.pending()];
    for &ok in outcomes {
        if matches!(p.pending(), MigrationAction::Finish { .. }) {
            break;
        }
        steps.push(p.advance(ok));
    }
    steps
}

#[test]
fn full_run_copies_settings_then_writes_marker() {
    let steps = run_plan(&[true; 9]);
    assert_eq!(
        steps,
        vec![
            MigrationAction::CreateNewDir,
            MigrationAction::CopyHistory,
            MigrationAction::LinkRecordings,
            MigrationAction::CopyStartSound,
            MigrationAction::CopyStopSound,
            MigrationAction::LinkModels,
            MigrationAction::CopySettings,
            MigrationAction::WriteMarker,
            MigrationAction::Finish { complete: true },
        ]
    );
}

#[test]
fn failed_recordings_withhold_settings_and_marker() {
    let steps = run_plan(&[true, true, false, true, true, true, true, true]);
    assert!(!steps.contains(&MigrationAction::CopySettings));
    assert!(!steps.contains(&MigrationAction::WriteMarker));
    assert!(steps.contains(&MigrationAction::LinkModels));
    assert_eq!(steps.last(), Some(&MigrationAction::Finish { complete: false }));
}

#[test]
fn failed_history_withholds_marker() {
    let steps = run_plan(&[true, false, true, true, true, true, true, true]);
    assert!(!steps.contains(&MigrationAction::WriteMarker));
    assert_eq!(steps.last(), Some(&MigrationAction::Finish { complete: false }));
}

#[test]
fn optional_failures_do_not_block_completion() {
    let steps = run_plan(&[true, true, true, false, false, false, false, true]);
    assert!(steps.contains(&MigrationAction::WriteMarker));
    assert_eq!(steps.last(), Some(&MigrationAction::Finish { complete: true }));
}

#[test]
fn uncreatable_directory_stops_the_run() {
    let steps = run_plan(&[false, true, true]);
    assert_eq!(steps, vec![MigrationAction::CreateNewDir, MigrationAction::Finish { complete: false }]);
}
