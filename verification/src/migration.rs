//! One-time migration of user data from the legacy `com.pais.handy` app data
//! directory into the current identifier's directory: the decisions.
//!
//! Settings and history are copied, models and recordings are hard-linked,
//! the legacy directory is never deleted, and nothing already present in the
//! new directory is ever overwritten. Completion is recorded in a marker file
//! written only when the important items (history, recordings) made it
//! across, so a transient failure gets a real retry on the next launch;
//! after three failed runs the migration gives up and stops interfering,
//! and a fresh install without legacy data is recorded so that later
//! launches do not probe for it.
//!
//! The file-system and SQLite work is done by the caller; this module decides,
//! over plain values, what to do next and what the outcome is: the retry
//! budget, the classification of SQLite errors and schema probes, the pacing
//! of the snapshot, the directory-linking rules and the result of linking a
//! level, the launch decision ([`decide_launch`], [`after_run`]), and the
//! two step machines that drive the history copy ([`HistoryCopy`]) and the
//! whole run ([`MigrationPlan`]).

use vstd::prelude::*;
use vstd::string::*;
use crate::text::{ends_with, has_suffix, str_eq};

verus! {

/// The legacy app identifier, whose data directory is migrated from.
pub const LEGACY_IDENTIFIER: &'static str = "com.pais.handy";

/// The settings store file.
pub const SETTINGS_FILE: &'static str = "settings_store.json";

/// The temporary name a settings copy is written under before the rename.
pub const SETTINGS_TEMP_FILE: &'static str = "settings_store.json.migrating";

/// The marker file recording that the migration completed.
pub const MARKER_FILE: &'static str = ".migrated-from-com.pais.handy";

/// The history database file and its write-ahead-log sidecar.
pub const HISTORY_FILE: &'static str = "history.db";
pub const HISTORY_WAL_FILE: &'static str = "history.db-wal";

/// Directories hard-linked across.
pub const RECORDINGS_DIR: &'static str = "recordings";
pub const MODELS_DIR: &'static str = "models";

/// Optional custom sound files.
pub const CUSTOM_START_SOUND: &'static str = "custom_start.wav";
pub const CUSTOM_STOP_SOUND: &'static str = "custom_stop.wav";

/// Suffixes of interrupted model downloads and extractions, never linked.
pub const PARTIAL_SUFFIX: &'static str = ".partial";
pub const EXTRACTING_SUFFIX: &'static str = ".extracting";

/// How many times a transiently failing read or copy is attempted.
pub const MAX_ATTEMPTS: u32 = 3;

/// Pause between attempts.
pub const RETRY_PAUSE_MS: u64 = 200;

/// How long the SQLite snapshot may take before it gives up on the lock.
pub const BACKUP_DEADLINE_MS: u64 = 10_000;

/// Pages copied per snapshot step, and the pause after a busy step.
pub const BACKUP_PAGES_PER_STEP: i32 = 1024;
pub const BACKUP_PAUSE_MS: u64 = 50;

/// Directory trees deeper than this are not a layout the app ever produced.
pub const MAX_LINK_DEPTH: u32 = 8;

/// The primary result code of a failed SQLite call.
#[derive(Clone, Copy, PartialEq, Eq, Structural, Debug)]
pub enum SqliteCode {
    InternalMalfunction,
    PermissionDenied,
    OperationAborted,
    DatabaseBusy,
    DatabaseLocked,
    OutOfMemory,
    ReadOnly,
    OperationInterrupted,
    SystemIoFailure,
    DatabaseCorrupt,
    NotFound,
    DiskFull,
    CannotOpen,
    FileLockingProtocolFailed,
    SchemaChanged,
    TooBig,
    ConstraintViolation,
    TypeMismatch,
    ApiMisuse,
    NoLargeFileSupport,
    AuthorizationForStatementDenied,
    ParameterOutOfRange,
    NotADatabase,
    Unknown,
}

/// An error from a database call, with its rendered message.
pub enum DbError {
    /// SQLite itself reported a failure with this code.
    Sqlite { code: SqliteCode, message: String },
    /// Any other failure (a conversion, a bad path, ...).
    Other { message: String },
}

impl DbError {
    /// The message the error carries.
    pub open spec fn message_string(self) -> String {
        match self {
            DbError::Sqlite { message, .. } => message,
            DbError::Other { message } => message,
        }
    }

    /// The rendered message of the error.
    pub fn into_message(self) -> (m: String)
        ensures
            m == self.message_string(),
    {
        match self {
            DbError::Sqlite { message, .. } => message,
            DbError::Other { message } => message,
        }
    }
}

/// The file is not a SQLite database, or it is corrupt: retrying cannot help.
pub open spec fn is_permanent(e: DbError) -> bool {
    e matches DbError::Sqlite { code, .. } && (code == SqliteCode::NotADatabase || code == SqliteCode::DatabaseCorrupt)
}

/// Whether a database error means the file is permanently unusable (not
/// SQLite, or corrupt) rather than unreadable right now (lock, permissions).
pub fn is_permanently_unusable(e: &DbError) -> (r: bool)
    ensures
        r == is_permanent(*e),
{
    match e {
        DbError::Sqlite { code, .. } => match code {
            SqliteCode::NotADatabase => true,
            SqliteCode::DatabaseCorrupt => true,
            _ => false,
        },
        DbError::Other { .. } => false,
    }
}

/// Counts failed attempts of an operation that is retried a few times.
pub struct Attempts {
    failed: u32,
}

impl View for Attempts {
    type V = nat;

    closed spec fn view(&self) -> nat {
        self.failed as nat
    }
}

impl Attempts {
    /// No attempt has failed yet.
    pub fn new() -> (a: Attempts)
        ensures
            a@ == 0,
    {
        Attempts { failed: 0 }
    }

    /// Records a failed attempt; the count stops at `MAX_ATTEMPTS`.
    /// Returns whether to give up: once `MAX_ATTEMPTS` attempts have failed.
    pub fn record_failure(&mut self) -> (give_up: bool)
        ensures
            final(self)@ == if old(self)@ < MAX_ATTEMPTS { old(self)@ + 1 } else { old(self)@ },
            give_up == (final(self)@ >= MAX_ATTEMPTS),
    {
        if self.failed < MAX_ATTEMPTS {
            self.failed = self.failed + 1;
        }
        self.failed >= MAX_ATTEMPTS
    }

    /// How many attempts have failed.
    pub fn failed(&self) -> (n: u32)
        ensures
            n == self@,
    {
        self.failed
    }
}

/// The result of probing the legacy history database's schema version.
pub enum SchemaCheck {
    Supported,
    /// Written by a newer build than this one (the version).
    Newer(i32),
    /// Permanently unusable (not SQLite, or corrupt): skip it and migrate on.
    NotADatabase(String),
    /// Could not be read right now (lock, permissions): treat as failure.
    Unreadable(String),
}

/// Classifies reads of the legacy database's `user_version`, retrying
/// transient failures up to `MAX_ATTEMPTS` times.
pub struct SchemaProbe {
    attempts: Attempts,
}

/// The verdict for a successful read of schema `version`.
pub open spec fn version_verdict(version: i32, supported: i32) -> SchemaCheck {
    if version > supported { SchemaCheck::Newer(version) } else { SchemaCheck::Supported }
}

impl SchemaProbe {
    /// A probe with no failed read yet.
    pub fn new() -> (p: SchemaProbe)
        ensures
            p.failed_reads() == 0,
    {
        SchemaProbe { attempts: Attempts::new() }
    }

    /// How many reads have failed transiently so far.
    pub closed spec fn failed_reads(&self) -> nat {
        self.attempts@
    }

    /// Takes the result of one read of the schema version (this build
    /// supports up to `supported`). Returns the verdict when there is one:
    /// at once for a version or a permanent error, and for transient errors
    /// on the `MAX_ATTEMPTS`-th; `None` asks for another read.
    pub fn observe(&mut self, read: Result<i32, DbError>, supported: i32) -> (verdict: Option<SchemaCheck>)
        ensures
            (final(self).failed_reads(), verdict) == probe_spec(old(self).failed_reads(), read, supported),
    {
        match read {
            Ok(v) => {
                if v > supported {
                    Some(SchemaCheck::Newer(v))
                } else {
                    Some(SchemaCheck::Supported)
                }
            },
            Err(e) => {
                if is_permanently_unusable(&e) {
                    Some(SchemaCheck::NotADatabase(e.into_message()))
                } else if self.attempts.record_failure() {
                    Some(SchemaCheck::Unreadable(e.into_message()))
                } else {
                    None
                }
            },
        }
    }
}

/// The failed-read count and verdict after a read of the schema version,
/// `failed` reads having failed transiently before.
pub open spec fn probe_spec(failed: nat, read: Result<i32, DbError>, supported: i32) -> (nat, Option<SchemaCheck>) {
    match read {
        Ok(v) => (failed, Some(version_verdict(v, supported))),
        Err(e) => if is_permanent(e) {
            (failed, Some(SchemaCheck::NotADatabase(e.message_string())))
        } else {
            let f = if failed < MAX_ATTEMPTS { failed + 1 } else { failed };
            (f, if f >= MAX_ATTEMPTS { Some(SchemaCheck::Unreadable(e.message_string())) } else { None })
        },
    }
}

/// The first verdict over a sequence of reads, if any.
pub open spec fn probe_run(failed: nat, reads: Seq<Result<i32, DbError>>, supported: i32) -> Option<SchemaCheck>
    decreases reads.len(),
{
    if reads.len() == 0 {
        None
    } else {
        let (f1, v) = probe_spec(failed, reads[0], supported);
        if v is Some { v } else { probe_run(f1, reads.drop_first(), supported) }
    }
}

/// The schema is read at most `MAX_ATTEMPTS` times: whatever the reads
/// return, a fresh probe has its verdict by the `MAX_ATTEMPTS`-th read.
pub proof fn law_schema_probe_bounded(failed: nat, reads: Seq<Result<i32, DbError>>, supported: i32)
    requires
        failed < MAX_ATTEMPTS,
        reads.len() == MAX_ATTEMPTS - failed,
    ensures
        probe_run(failed, reads, supported) is Some,
    decreases reads.len(),
{
    let (f1, v) = probe_spec(failed, reads[0], supported);
    if v is None {
        law_schema_probe_bounded(f1, reads.drop_first(), supported);
    }
}

/// Why a SQLite snapshot of the history database did not complete.
pub enum BackupFailure {
    /// Could not finish within the deadline (source locked, or restarted by
    /// a concurrent writer): transient.
    LockTimeout,
    /// A real SQLite error from the source database: permanent.
    Failed(String),
}

impl BackupFailure {
    /// A failure from a database error.
    pub fn from_error(e: DbError) -> (f: BackupFailure)
        ensures
            f matches BackupFailure::Failed(m) && m == e.message_string(),
    {
        BackupFailure::Failed(e.into_message())
    }

    /// The failure, rendered for the log.
    pub fn describe(&self) -> (s: String)
        ensures
            s@ == match self {
                BackupFailure::LockTimeout => "timed out waiting for the database lock"@,
                BackupFailure::Failed(m) => m@,
            },
    {
        match self {
            BackupFailure::LockTimeout => String::from_str("timed out waiting for the database lock"),
            BackupFailure::Failed(m) => m.clone(),
        }
    }
}

/// The result of one snapshot step.
#[derive(Clone, Copy, PartialEq, Eq, Structural, Debug)]
pub enum BackupStep {
    /// The snapshot is complete.
    Done,
    /// Pages remain.
    More,
    /// Locks could not be acquired; retry.
    Busy,
    /// The source connection was writing; retry.
    Locked,
    /// A result this build does not know; treated like `Busy`.
    Other,
}

/// What the snapshot loop does after a step.
pub enum BackupTick {
    /// Stop with this result.
    Finished(Result<(), BackupFailure>),
    /// Step again at once.
    Continue,
    /// Pause `BACKUP_PAUSE_MS`, then step again.
    Pause,
}

/// Whether the snapshot's deadline has passed at `now`: the deadline is
/// checked before every step, because a concurrent writer restarts the
/// snapshot from the first page, so even a steady run of `More` must be
/// bounded.
pub fn backup_deadline_passed(now: u64, deadline: u64) -> (passed: bool)
    ensures
        passed == (now >= deadline),
{
    now >= deadline
}

/// The snapshot loop's reaction to a step's result.
pub fn backup_after_step(step: Result<BackupStep, DbError>) -> (tick: BackupTick)
    ensures
        match step {
            Ok(BackupStep::Done) => tick matches BackupTick::Finished(Ok(())),
            Ok(BackupStep::More) => tick is Continue,
            Ok(_) => tick is Pause,
            Err(e) => tick matches BackupTick::Finished(Err(BackupFailure::Failed(m))) && m == e.message_string(),
        },
{
    match step {
        Ok(BackupStep::Done) => BackupTick::Finished(Ok(())),
        Ok(BackupStep::More) => BackupTick::Continue,
        Ok(_) => BackupTick::Pause,
        Err(e) => BackupTick::Finished(Err(BackupFailure::from_error(e))),
    }
}

/// Whether `PRAGMA quick_check` on a freshly copied database came back
/// clean: anything but exactly `ok` means the copy must not be used.
pub fn quick_check_passed(result: &Result<String, DbError>) -> (sound: bool)
    ensures
        sound == (result matches Ok(verdict) && verdict@ == "ok"@),
{
    match result {
        Ok(verdict) => str_eq(verdict.as_str(), "ok"),
        Err(_) => false,
    }
}

/// Whether an optional file is copied: only when the source is a file and
/// nothing is at the destination yet (an existing destination is never
/// overwritten).
pub fn should_copy_file(source_is_file: bool, destination_exists: bool) -> (copy: bool)
    ensures
        copy == (source_is_file && !destination_exists),
{
    source_is_file && !destination_exists
}

/// Whether the name ends with one of the suffixes.
pub open spec fn skipped_by(name: Seq<char>, suffixes: Seq<Seq<char>>) -> bool {
    exists|i: int| 0 <= i < suffixes.len() && has_suffix(name, #[trigger] suffixes[i])
}

/// Whether an entry called `name` is left out because its name ends in one
/// of `suffixes`.
pub fn has_skipped_suffix(name: &str, suffixes: &[&str]) -> (skip: bool)
    ensures
        skip == skipped_by(name@, suffixes@.map_values(|s: &str| s@)),
{
    let ghost views = suffixes@.map_values(|s: &str| s@);
    let mut i: usize = 0;
    while i < suffixes.len()
        invariant
            i <= suffixes@.len(),
            views == suffixes@.map_values(|s: &str| s@),
            forall|j: int| 0 <= j < i ==> !has_suffix(name@, #[trigger] views[j]),
        decreases suffixes@.len() - i,
    {
        if ends_with(name, suffixes[i]) {
            assert(has_suffix(name@, views[i as int]));
            return true;
        }
        i = i + 1;
    }
    false
}

/// What linking a directory does before looking at its entries: `Some`
/// result at once, or `None` to go on.
pub open spec fn link_precheck_spec(source_is_dir: bool, depth: u32) -> Option<bool> {
    if !source_is_dir {
        Some(true)
    } else if depth > MAX_LINK_DEPTH {
        Some(false)
    } else {
        None
    }
}

/// Linking a tree whose source is not a directory succeeds trivially;
/// beyond `MAX_LINK_DEPTH` it fails rather than pretend a truncated tree is
/// complete; otherwise the entries are linked.
pub fn link_precheck(source_is_dir: bool, depth: u32) -> (r: Option<bool>)
    ensures
        r == link_precheck_spec(source_is_dir, depth),
{
    if !source_is_dir {
        Some(true)
    } else if depth > MAX_LINK_DEPTH {
        Some(false)
    } else {
        None
    }
}

/// The kind of a directory entry, from its own (not followed) metadata.
#[derive(Clone, Copy, PartialEq, Eq, Structural, Debug)]
pub enum EntryKind {
    Symlink,
    Dir,
    File,
}

/// What is done with one directory entry.
#[derive(Clone, Copy, PartialEq, Eq, Structural, Debug)]
pub enum EntryAction {
    /// Its metadata could not be read: the tree is incomplete.
    Unreadable,
    /// A symbolic link: left alone.
    SkipSymlink,
    /// A directory: linked recursively one level deeper.
    Descend,
    /// Something is already at the destination: kept (re-run safety).
    KeepExisting,
    /// Hard-link it (copy it where links are not supported).
    Link,
}

/// The action for an entry whose metadata gave `kind` (`None`: unreadable)
/// and whose destination path exists or not.
pub open spec fn entry_action_spec(kind: Option<EntryKind>, destination_exists: bool) -> EntryAction {
    match kind {
        None => EntryAction::Unreadable,
        Some(EntryKind::Symlink) => EntryAction::SkipSymlink,
        Some(EntryKind::Dir) => EntryAction::Descend,
        Some(EntryKind::File) => if destination_exists { EntryAction::KeepExisting } else { EntryAction::Link },
    }
}

/// Decides what to do with one (not skipped) directory entry: symlinks are
/// left alone, directories descended into, files linked unless something
/// is already at the destination.
pub fn entry_action(kind: Option<EntryKind>, destination_exists: bool) -> (a: EntryAction)
    ensures
        a == entry_action_spec(kind, destination_exists),
{
    match kind {
        None => EntryAction::Unreadable,
        Some(EntryKind::Symlink) => EntryAction::SkipSymlink,
        Some(EntryKind::Dir) => EntryAction::Descend,
        Some(EntryKind::File) => if destination_exists { EntryAction::KeepExisting } else { EntryAction::Link },
    }
}

/// The next step of the history copy, for the caller to perform.
#[derive(Clone, Copy, PartialEq, Eq, Structural, Debug)]
pub enum HistoryAction {
    /// Is the legacy `history.db` a file? Answer with `Answer`.
    ProbeSource,
    /// Does `history.db` exist in the new directory? Answer with `Answer`.
    ProbeDestination,
    /// Probe the legacy schema (a `SchemaProbe` run). Answer with `Schema`.
    CheckSchema,
    /// Snapshot the database with SQLite's backup API. Answer with `Snapshot`.
    Snapshot,
    /// Copy the WAL sidecar, best effort (`should_copy_file`). Answer `Done`.
    CopySidecar,
    /// Copy the database file with retries. Answer with `Answer`.
    CopyDatabase,
    /// Run `quick_check` on the copy. Answer with `Answer`.
    VerifyCopy,
    /// Remove the copied database and its sidecar. Answer `Done`.
    DiscardCopy,
    /// The copy is over with this result: `false` only when a usable source
    /// exists and neither approach worked.
    Finish(bool),
}

/// The answer to a [`HistoryAction`].
pub enum HistoryEvent {
    Answer(bool),
    Schema(SchemaCheck),
    Snapshot(Result<(), BackupFailure>),
    Done,
}

/// Drives the copy of the history database. It prefers SQLite's backup API
/// (a consistent snapshot even if the legacy app writes concurrently) and
/// falls back to a plain copy of the file plus its WAL sidecar. Newer
/// schemas and files that are not SQLite databases are skipped; an existing
/// destination is kept; a copy that fails or is torn is removed.
pub struct HistoryCopy {
    pending: HistoryAction,
    backup_timed_out: bool,
    result_after_discard: bool,
}

/// The mathematical value of a [`HistoryCopy`].
pub struct HistoryCopyView {
    pub pending: HistoryAction,
    pub backup_timed_out: bool,
    pub result_after_discard: bool,
}

impl View for HistoryCopy {
    type V = HistoryCopyView;

    closed spec fn view(&self) -> HistoryCopyView {
        HistoryCopyView {
            pending: self.pending,
            backup_timed_out: self.backup_timed_out,
            result_after_discard: self.result_after_discard,
        }
    }
}

/// The history copy at its start.
pub open spec fn history_start() -> HistoryCopyView {
    HistoryCopyView { pending: HistoryAction::ProbeSource, backup_timed_out: false, result_after_discard: false }
}

/// The history copy after the answer `ev` to its pending action. An event
/// that does not answer the pending action changes nothing.
pub open spec fn history_next(s: HistoryCopyView, ev: HistoryEvent) -> HistoryCopyView {
    match s.pending {
        HistoryAction::ProbeSource => match ev {
            HistoryEvent::Answer(is_file) =>
                HistoryCopyView { pending: if is_file { HistoryAction::ProbeDestination } else { HistoryAction::Finish(true) }, ..s },
            _ => s,
        },
        HistoryAction::ProbeDestination => match ev {
            HistoryEvent::Answer(exists) =>
                HistoryCopyView { pending: if exists { HistoryAction::Finish(true) } else { HistoryAction::CheckSchema }, ..s },
            _ => s,
        },
        HistoryAction::CheckSchema => match ev {
            HistoryEvent::Schema(check) => HistoryCopyView {
                pending: match check {
                    SchemaCheck::Supported => HistoryAction::Snapshot,
                    SchemaCheck::Unreadable(_) => HistoryAction::Finish(false),
                    _ => HistoryAction::Finish(true),
                },
                ..s
            },
            _ => s,
        },
        HistoryAction::Snapshot => match ev {
            HistoryEvent::Snapshot(r) => match r {
                Ok(()) => HistoryCopyView { pending: HistoryAction::Finish(true), ..s },
                Err(f) => HistoryCopyView { pending: HistoryAction::CopySidecar, backup_timed_out: f is LockTimeout, ..s },
            },
            _ => s,
        },
        HistoryAction::CopySidecar => match ev {
            HistoryEvent::Done => HistoryCopyView { pending: HistoryAction::CopyDatabase, ..s },
            _ => s,
        },
        HistoryAction::CopyDatabase => match ev {
            HistoryEvent::Answer(copied) => if copied {
                HistoryCopyView { pending: HistoryAction::VerifyCopy, ..s }
            } else {
                HistoryCopyView { pending: HistoryAction::DiscardCopy, result_after_discard: false, ..s }
            },
            _ => s,
        },
        HistoryAction::VerifyCopy => match ev {
            HistoryEvent::Answer(sound) => if sound {
                HistoryCopyView { pending: HistoryAction::Finish(true), ..s }
            } else {
                HistoryCopyView { pending: HistoryAction::DiscardCopy, result_after_discard: !s.backup_timed_out, ..s }
            },
            _ => s,
        },
        HistoryAction::DiscardCopy => match ev {
            HistoryEvent::Done => HistoryCopyView { pending: HistoryAction::Finish(s.result_after_discard), ..s },
            _ => s,
        },
        HistoryAction::Finish(_) => s,
    }
}

impl HistoryCopy {
    /// A history copy about to probe the source.
    pub fn new() -> (h: HistoryCopy)
        ensures
            h@ == history_start(),
    {
        HistoryCopy { pending: HistoryAction::ProbeSource, backup_timed_out: false, result_after_discard: false }
    }

    /// The step to perform next.
    pub fn pending(&self) -> (a: HistoryAction)
        ensures
            a == self@.pending,
    {
        self.pending
    }

    /// Takes the answer to the pending step; returns the next step.
    pub fn advance(&mut self, ev: HistoryEvent) -> (next: HistoryAction)
        ensures
            final(self)@ == history_next(old(self)@, ev),
            next == final(self)@.pending,
    {
        match self.pending {
            HistoryAction::ProbeSource => {
                if let HistoryEvent::Answer(is_file) = ev {
                    self.pending = if is_file { HistoryAction::ProbeDestination } else { HistoryAction::Finish(true) };
                }
            },
            HistoryAction::ProbeDestination => {
                if let HistoryEvent::Answer(exists) = ev {
                    self.pending = if exists { HistoryAction::Finish(true) } else { HistoryAction::CheckSchema };
                }
            },
            HistoryAction::CheckSchema => {
                if let HistoryEvent::Schema(check) = ev {
                    self.pending = match check {
                        SchemaCheck::Supported => HistoryAction::Snapshot,
                        SchemaCheck::Unreadable(_) => HistoryAction::Finish(false),
                        _ => HistoryAction::Finish(true),
                    };
                }
            },
            HistoryAction::Snapshot => {
                if let HistoryEvent::Snapshot(r) = ev {
                    match r {
                        Ok(()) => {
                            self.pending = HistoryAction::Finish(true);
                        },
                        Err(f) => {
                            self.backup_timed_out = match f {
                                BackupFailure::LockTimeout => true,
                                BackupFailure::Failed(_) => false,
                            };
                            self.pending = HistoryAction::CopySidecar;
                        },
                    }
                }
            },
            HistoryAction::CopySidecar => {
                if let HistoryEvent::Done = ev {
                    self.pending = HistoryAction::CopyDatabase;
                }
            },
            HistoryAction::CopyDatabase => {
                if let HistoryEvent::Answer(copied) = ev {
                    if copied {
                        self.pending = HistoryAction::VerifyCopy;
                    } else {
                        self.result_after_discard = false;
                        self.pending = HistoryAction::DiscardCopy;
                    }
                }
            },
            HistoryAction::VerifyCopy => {
                if let HistoryEvent::Answer(sound) = ev {
                    if sound {
                        self.pending = HistoryAction::Finish(true);
                    } else {
                        // A lock timeout means the tear is most likely the
                        // concurrent writer: retry on the next launch. A real
                        // database error means the source itself is bad.
                        self.result_after_discard = !self.backup_timed_out;
                        self.pending = HistoryAction::DiscardCopy;
                    }
                }
            },
            HistoryAction::DiscardCopy => {
                if let HistoryEvent::Done = ev {
                    self.pending = HistoryAction::Finish(self.result_after_discard);
                }
            },
            HistoryAction::Finish(_) => {},
        }
        self.pending
    }
}

/// What the file system and the database show during one history copy.
pub struct HistoryObservations {
    pub source_is_file: bool,
    pub destination_exists: bool,
    pub schema: SchemaCheck,
    pub snapshot: Result<(), BackupFailure>,
    pub copied: bool,
    pub sound: bool,
}

/// The answer that `obs` gives to `action`.
pub open spec fn history_answer(action: HistoryAction, obs: HistoryObservations) -> HistoryEvent {
    match action {
        HistoryAction::ProbeSource => HistoryEvent::Answer(obs.source_is_file),
        HistoryAction::ProbeDestination => HistoryEvent::Answer(obs.destination_exists),
        HistoryAction::CheckSchema => HistoryEvent::Schema(obs.schema),
        HistoryAction::Snapshot => HistoryEvent::Snapshot(obs.snapshot),
        HistoryAction::CopyDatabase => HistoryEvent::Answer(obs.copied),
        HistoryAction::VerifyCopy => HistoryEvent::Answer(obs.sound),
        _ => HistoryEvent::Done,
    }
}

/// The steps a history copy takes, answered from `obs`, up to `Finish`.
pub open spec fn history_trace(s: HistoryCopyView, obs: HistoryObservations, fuel: nat) -> Seq<HistoryAction>
    decreases fuel,
{
    if fuel == 0 || s.pending is Finish {
        seq![s.pending]
    } else {
        seq![s.pending] + history_trace(history_next(s, history_answer(s.pending, obs)), obs, (fuel - 1) as nat)
    }
}

/// The steps of a whole history copy answered from `obs`.
pub open spec fn history_steps(obs: HistoryObservations) -> Seq<HistoryAction> {
    history_trace(history_start(), obs, 8)
}

/// The result of a history copy with these observations.
pub open spec fn history_outcome(obs: HistoryObservations) -> bool {
    if !obs.source_is_file || obs.destination_exists {
        true
    } else {
        match obs.schema {
            SchemaCheck::Supported => match obs.snapshot {
                Ok(()) => true,
                Err(f) => obs.copied && (obs.sound || !(f is LockTimeout)),
            },
            SchemaCheck::Unreadable(_) => false,
            _ => true,
        }
    }
}

/// The steps of a history copy, spelled out for each kind of observation.
proof fn lemma_history_steps(obs: HistoryObservations)
    ensures
        !obs.source_is_file ==> history_steps(obs) == seq![HistoryAction::ProbeSource, HistoryAction::Finish(true)],
        obs.source_is_file && obs.destination_exists ==> history_steps(obs) == seq![
            HistoryAction::ProbeSource,
            HistoryAction::ProbeDestination,
            HistoryAction::Finish(true),
        ],
        obs.source_is_file && !obs.destination_exists && !(obs.schema is Supported) ==> history_steps(obs) == seq![
            HistoryAction::ProbeSource,
            HistoryAction::ProbeDestination,
            HistoryAction::CheckSchema,
            HistoryAction::Finish(!(obs.schema is Unreadable)),
        ],
        obs.source_is_file && !obs.destination_exists && obs.schema is Supported && obs.snapshot is Ok ==> history_steps(obs) == seq![
            HistoryAction::ProbeSource,
            HistoryAction::ProbeDestination,
            HistoryAction::CheckSchema,
            HistoryAction::Snapshot,
            HistoryAction::Finish(true),
        ],
        obs.source_is_file && !obs.destination_exists && obs.schema is Supported && obs.snapshot is Err && !obs.copied
            ==> history_steps(obs) == seq![
            HistoryAction::ProbeSource,
            HistoryAction::ProbeDestination,
            HistoryAction::CheckSchema,
            HistoryAction::Snapshot,
            HistoryAction::CopySidecar,
            HistoryAction::CopyDatabase,
            HistoryAction::DiscardCopy,
            HistoryAction::Finish(false),
        ],
        obs.source_is_file && !obs.destination_exists && obs.schema is Supported && obs.snapshot is Err && obs.copied && obs.sound
            ==> history_steps(obs) == seq![
            HistoryAction::ProbeSource,
            HistoryAction::ProbeDestination,
            HistoryAction::CheckSchema,
            HistoryAction::Snapshot,
            HistoryAction::CopySidecar,
            HistoryAction::CopyDatabase,
            HistoryAction::VerifyCopy,
            HistoryAction::Finish(true),
        ],
        obs.source_is_file && !obs.destination_exists && obs.schema is Supported && obs.snapshot is Err && obs.copied && !obs.sound
            ==> history_steps(obs) == seq![
            HistoryAction::ProbeSource,
            HistoryAction::ProbeDestination,
            HistoryAction::CheckSchema,
            HistoryAction::Snapshot,
            HistoryAction::CopySidecar,
            HistoryAction::CopyDatabase,
            HistoryAction::VerifyCopy,
            HistoryAction::DiscardCopy,
            HistoryAction::Finish(!(obs.snapshot->Err_0 is LockTimeout)),
        ],
{
    reveal_with_fuel(history_trace, 9);
}

/// A history copy ends with `Finish`, and its result is `history_outcome`.
pub proof fn law_history_result(obs: HistoryObservations)
    ensures
        history_steps(obs).last() == HistoryAction::Finish(history_outcome(obs)),
{
    lemma_history_steps(obs);
}

/// The history copy reports failure only when a usable source exists, no
/// database is at the destination, and neither approach worked: the source
/// could not be read right now, or the snapshot failed and then the file
/// copy failed, or was torn while the snapshot had timed out on the lock.
pub proof fn law_history_fails_only_when_both_approaches_fail(obs: HistoryObservations)
    ensures
        !history_outcome(obs) <==> {
            &&& obs.source_is_file
            &&& !obs.destination_exists
            &&& (obs.schema is Unreadable || {
                &&& obs.schema is Supported
                &&& obs.snapshot is Err
                &&& (!obs.copied || (!obs.sound && obs.snapshot->Err_0 is LockTimeout))
            })
        },
{
}

/// An existing destination database is never touched: no snapshot and no
/// copy is made.
pub proof fn law_history_keeps_existing_destination(obs: HistoryObservations)
    requires
        obs.destination_exists,
    ensures
        !history_steps(obs).contains(HistoryAction::Snapshot),
        !history_steps(obs).contains(HistoryAction::CopySidecar),
        !history_steps(obs).contains(HistoryAction::CopyDatabase),
        history_outcome(obs),
{
    lemma_history_steps(obs);
    let steps = history_steps(obs);
    assert forall|a: HistoryAction| #[trigger] steps.contains(a) implies a != HistoryAction::Snapshot && a != HistoryAction::CopySidecar
        && a != HistoryAction::CopyDatabase by {
        let k = choose|k: int| 0 <= k < steps.len() && steps[k] == a;
    }
}

/// A plain copy that failed or is not sound is removed before the copy
/// finishes, so a corrupt database is never left for the history manager;
/// and the WAL sidecar is copied right before the database file.
pub proof fn law_history_discards_bad_copy(obs: HistoryObservations)
    ensures
        ({
            let steps = history_steps(obs);
            &&& (steps.contains(HistoryAction::CopyDatabase) && !(obs.copied && obs.sound)) ==> steps[steps.len() - 2] == HistoryAction::DiscardCopy
            &&& (steps.contains(HistoryAction::CopyDatabase) && obs.copied && obs.sound) ==> !steps.contains(HistoryAction::DiscardCopy)
            &&& forall|i: int| 0 <= i < steps.len() && #[trigger] steps[i] == HistoryAction::CopyDatabase ==> i > 0 && steps[i - 1] == HistoryAction::CopySidecar
        }),
{
    lemma_history_steps(obs);
    let steps = history_steps(obs);
    if steps.contains(HistoryAction::CopyDatabase) {
        let k = choose|k: int| 0 <= k < steps.len() && steps[k] == HistoryAction::CopyDatabase;
        assert(k == 5);
    }
    if steps.contains(HistoryAction::DiscardCopy) && obs.copied && obs.sound {
        let k = choose|k: int| 0 <= k < steps.len() && steps[k] == HistoryAction::DiscardCopy;
    }
}

/// An existing destination file is never linked over, and only plain files
/// are linked: symlinks are left alone and directories descended into.
pub proof fn law_link_never_overwrites(kind: Option<EntryKind>, destination_exists: bool)
    ensures
        entry_action_spec(kind, destination_exists) == EntryAction::Link <==> kind == Some(EntryKind::File) && !destination_exists,
{
}

/// The next step of a migration run, for the caller to perform. Each is
/// answered with whether it succeeded.
#[derive(Clone, Copy, PartialEq, Eq, Structural, Debug)]
pub enum MigrationAction {
    /// Create the new data directory (and its parents).
    CreateNewDir,
    /// Copy the history database (a `HistoryCopy` run).
    CopyHistory,
    /// Hard-link the legacy recordings tree, when it is a directory (success
    /// when it is not).
    LinkRecordings,
    /// Copy the optional custom start sound, best effort.
    CopyStartSound,
    /// Copy the optional custom stop sound, best effort.
    CopyStopSound,
    /// Hard-link the legacy models tree, when it is a directory, skipping
    /// interrupted downloads (`.partial`, `.extracting`); best effort.
    LinkModels,
    /// Copy the settings file unless the new directory has one already.
    CopySettings,
    /// Write the completion marker.
    WriteMarker,
    /// The run is over; `complete` when the important items made it across
    /// and the completion marker was written.
    Finish { complete: bool },
}

/// Drives one migration run from the legacy directory into the new one.
/// The important items are the history and the recordings: only when both
/// made it across are the settings copied and the completion marker
/// written; otherwise the whole (idempotent) run happens again on the next
/// launch.
pub struct MigrationPlan {
    pending: MigrationAction,
    history_ok: bool,
    recordings_ok: bool,
}

/// The mathematical value of a [`MigrationPlan`].
pub struct MigrationPlanView {
    pub pending: MigrationAction,
    pub history_ok: bool,
    pub recordings_ok: bool,
}

impl View for MigrationPlan {
    type V = MigrationPlanView;

    closed spec fn view(&self) -> MigrationPlanView {
        MigrationPlanView { pending: self.pending, history_ok: self.history_ok, recordings_ok: self.recordings_ok }
    }
}

/// A migration run at its start.
pub open spec fn migration_start() -> MigrationPlanView {
    MigrationPlanView { pending: MigrationAction::CreateNewDir, history_ok: false, recordings_ok: false }
}

/// The run after its pending step reported `succeeded`.
pub open spec fn migration_next(s: MigrationPlanView, succeeded: bool) -> MigrationPlanView {
    match s.pending {
        MigrationAction::CreateNewDir => MigrationPlanView {
            pending: if succeeded { MigrationAction::CopyHistory } else { MigrationAction::Finish { complete: false } },
            ..s
        },
        MigrationAction::CopyHistory => MigrationPlanView { pending: MigrationAction::LinkRecordings, history_ok: succeeded, ..s },
        MigrationAction::LinkRecordings => MigrationPlanView { pending: MigrationAction::CopyStartSound, recordings_ok: succeeded, ..s },
        MigrationAction::CopyStartSound => MigrationPlanView { pending: MigrationAction::CopyStopSound, ..s },
        MigrationAction::CopyStopSound => MigrationPlanView { pending: MigrationAction::LinkModels, ..s },
        MigrationAction::LinkModels => MigrationPlanView {
            pending: if s.history_ok && s.recordings_ok { MigrationAction::CopySettings } else { MigrationAction::Finish { complete: false } },
            ..s
        },
        MigrationAction::CopySettings => MigrationPlanView { pending: MigrationAction::WriteMarker, ..s },
        MigrationAction::WriteMarker => MigrationPlanView { pending: MigrationAction::Finish { complete: succeeded }, ..s },
        MigrationAction::Finish { .. } => s,
    }
}

impl MigrationPlan {
    /// A run about to create the new directory.
    pub fn new() -> (p: MigrationPlan)
        ensures
            p@ == migration_start(),
    {
        MigrationPlan { pending: MigrationAction::CreateNewDir, history_ok: false, recordings_ok: false }
    }

    /// The step to perform next.
    pub fn pending(&self) -> (a: MigrationAction)
        ensures
            a == self@.pending,
    {
        self.pending
    }

    /// Takes whether the pending step succeeded; returns the next step.
    pub fn advance(&mut self, succeeded: bool) -> (next: MigrationAction)
        ensures
            final(self)@ == migration_next(old(self)@, succeeded),
            next == final(self)@.pending,
    {
        match self.pending {
            MigrationAction::CreateNewDir => {
                self.pending = if succeeded { MigrationAction::CopyHistory } else { MigrationAction::Finish { complete: false } };
            },
            MigrationAction::CopyHistory => {
                self.history_ok = succeeded;
                self.pending = MigrationAction::LinkRecordings;
            },
            MigrationAction::LinkRecordings => {
                self.recordings_ok = succeeded;
                self.pending = MigrationAction::CopyStartSound;
            },
            MigrationAction::CopyStartSound => {
                self.pending = MigrationAction::CopyStopSound;
            },
            MigrationAction::CopyStopSound => {
                self.pending = MigrationAction::LinkModels;
            },
            MigrationAction::LinkModels => {
                self.pending = if self.history_ok && self.recordings_ok {
                    MigrationAction::CopySettings
                } else {
                    MigrationAction::Finish { complete: false }
                };
            },
            MigrationAction::CopySettings => {
                self.pending = MigrationAction::WriteMarker;
            },
            MigrationAction::WriteMarker => {
                // Without the marker the next launch runs again: count the
                // run as incomplete, so that it counts toward giving up.
                self.pending = MigrationAction::Finish { complete: succeeded };
            },
            MigrationAction::Finish { .. } => {},
        }
        self.pending
    }
}

/// How each step of one migration run turns out.
pub struct MigrationObservations {
    pub dir_created: bool,
    pub history_ok: bool,
    pub recordings_ok: bool,
    pub start_sound_ok: bool,
    pub stop_sound_ok: bool,
    pub models_ok: bool,
    pub settings_ok: bool,
    pub marker_ok: bool,
}

/// Whether `action` succeeds under `obs`.
pub open spec fn migration_answer(action: MigrationAction, obs: MigrationObservations) -> bool {
    match action {
        MigrationAction::CreateNewDir => obs.dir_created,
        MigrationAction::CopyHistory => obs.history_ok,
        MigrationAction::LinkRecordings => obs.recordings_ok,
        MigrationAction::CopyStartSound => obs.start_sound_ok,
        MigrationAction::CopyStopSound => obs.stop_sound_ok,
        MigrationAction::LinkModels => obs.models_ok,
        MigrationAction::CopySettings => obs.settings_ok,
        MigrationAction::WriteMarker => obs.marker_ok,
        MigrationAction::Finish { .. } => true,
    }
}

/// The steps a run takes, answered from `obs`, up to `Finish`.
pub open spec fn migration_trace(s: MigrationPlanView, obs: MigrationObservations, fuel: nat) -> Seq<MigrationAction>
    decreases fuel,
{
    if fuel == 0 || s.pending is Finish {
        seq![s.pending]
    } else {
        seq![s.pending] + migration_trace(migration_next(s, migration_answer(s.pending, obs)), obs, (fuel - 1) as nat)
    }
}

/// The steps of a whole run answered from `obs`.
pub open spec fn migration_steps(obs: MigrationObservations) -> Seq<MigrationAction> {
    migration_trace(migration_start(), obs, 8)
}

/// The steps of a run, spelled out.
proof fn lemma_migration_steps(obs: MigrationObservations)
    ensures
        !obs.dir_created ==> migration_steps(obs) == seq![
            MigrationAction::CreateNewDir,
            MigrationAction::Finish { complete: false },
        ],
        obs.dir_created && !(obs.history_ok && obs.recordings_ok) ==> migration_steps(obs) == seq![
            MigrationAction::CreateNewDir,
            MigrationAction::CopyHistory,
            MigrationAction::LinkRecordings,
            MigrationAction::CopyStartSound,
            MigrationAction::CopyStopSound,
            MigrationAction::LinkModels,
            MigrationAction::Finish { complete: false },
        ],
        obs.dir_created && obs.history_ok && obs.recordings_ok ==> migration_steps(obs) == seq![
            MigrationAction::CreateNewDir,
            MigrationAction::CopyHistory,
            MigrationAction::LinkRecordings,
            MigrationAction::CopyStartSound,
            MigrationAction::CopyStopSound,
            MigrationAction::LinkModels,
            MigrationAction::CopySettings,
            MigrationAction::WriteMarker,
            MigrationAction::Finish { complete: obs.marker_ok },
        ],
{
    reveal_with_fuel(migration_trace, 9);
}

/// The completion marker is written, and the settings copied, exactly when
/// the new directory could be created and both important items (history
/// and recordings) made it across, whatever happened to the optional ones;
/// the settings come right before the marker, and the run ends complete
/// exactly when, in addition, the marker could be written.
pub proof fn law_marker_only_after_important_items(obs: MigrationObservations)
    ensures
        ({
            let steps = migration_steps(obs);
            let important = obs.dir_created && obs.history_ok && obs.recordings_ok;
            &&& steps.contains(MigrationAction::WriteMarker) <==> important
            &&& steps.contains(MigrationAction::CopySettings) <==> important
            &&& steps.last() == MigrationAction::Finish { complete: important && obs.marker_ok }
            &&& important ==> steps[steps.len() - 3] == MigrationAction::CopySettings && steps[steps.len() - 2] == MigrationAction::WriteMarker
        }),
{
    lemma_migration_steps(obs);
    let steps = migration_steps(obs);
    let important = obs.dir_created && obs.history_ok && obs.recordings_ok;
    if important {
        assert(steps[7] == MigrationAction::WriteMarker);
        assert(steps[6] == MigrationAction::CopySettings);
    } else {
        assert forall|a: MigrationAction| #[trigger] steps.contains(a) implies a != MigrationAction::WriteMarker && a != MigrationAction::CopySettings by {
            let k = choose|k: int| 0 <= k < steps.len() && steps[k] == a;
        }
    }
}

/// Once the new directory exists, every item is attempted in the same run,
/// whatever the others did: history, recordings, sounds and models.
pub proof fn law_every_item_attempted(obs: MigrationObservations)
    requires
        obs.dir_created,
    ensures
        migration_steps(obs).contains(MigrationAction::CopyHistory),
        migration_steps(obs).contains(MigrationAction::LinkRecordings),
        migration_steps(obs).contains(MigrationAction::CopyStartSound),
        migration_steps(obs).contains(MigrationAction::CopyStopSound),
        migration_steps(obs).contains(MigrationAction::LinkModels),
{
    lemma_migration_steps(obs);
    let steps = migration_steps(obs);
    assert(steps[1] == MigrationAction::CopyHistory);
    assert(steps[2] == MigrationAction::LinkRecordings);
    assert(steps[3] == MigrationAction::CopyStartSound);
    assert(steps[4] == MigrationAction::CopyStopSound);
    assert(steps[5] == MigrationAction::LinkModels);
}

/// How one directory entry fared when a tree was linked.
#[derive(Clone, Copy, PartialEq, Eq, Structural, Debug)]
pub enum EntryOutcome {
    /// The directory listing failed on this entry: it was never seen.
    Unlisted,
    /// Its name ends in a skipped suffix.
    SkippedBySuffix,
    /// `entry_action` chose `action`; `succeeded` tells whether a link (or
    /// its copy fallback) went through, or whether the subtree linked
    /// completely. For the other actions it carries nothing.
    Handled { action: EntryAction, succeeded: bool },
}

/// Whether an entry came across as the linking promises: skipped by name,
/// a symlink left alone, an existing destination kept, or linked (or its
/// subtree linked) successfully.
pub open spec fn entry_came_across(o: EntryOutcome) -> bool {
    match o {
        EntryOutcome::Unlisted => false,
        EntryOutcome::SkippedBySuffix => true,
        EntryOutcome::Handled { action, succeeded } => match action {
            EntryAction::Unreadable => false,
            EntryAction::SkipSymlink => true,
            EntryAction::KeepExisting => true,
            EntryAction::Descend => succeeded,
            EntryAction::Link => succeeded,
        },
    }
}

/// The result of linking one directory level: the destination directory
/// could be created, the source listed, and every entry came across.
pub open spec fn link_level_ok(created: bool, listed: bool, outcomes: Seq<EntryOutcome>) -> bool {
    created && listed && forall|i: int| 0 <= i < outcomes.len() ==> entry_came_across(#[trigger] outcomes[i])
}

/// The result of linking one directory level, entries whose listing
/// failed included: `false` when the destination could not be created,
/// the source could not be listed, or any entry did not come across.
pub fn link_level_result(created: bool, listed: bool, outcomes: &[EntryOutcome]) -> (ok: bool)
    ensures
        ok == link_level_ok(created, listed, outcomes@),
{
    if !created || !listed {
        return false;
    }
    let mut i: usize = 0;
    while i < outcomes.len()
        invariant
            i <= outcomes@.len(),
            forall|j: int| 0 <= j < i ==> entry_came_across(#[trigger] outcomes@[j]),
        decreases outcomes@.len() - i,
    {
        let came_across = match outcomes[i] {
            EntryOutcome::Unlisted => false,
            EntryOutcome::SkippedBySuffix => true,
            EntryOutcome::Handled { action, succeeded } => match action {
                EntryAction::Unreadable => false,
                EntryAction::SkipSymlink => true,
                EntryAction::KeepExisting => true,
                EntryAction::Descend => succeeded,
                EntryAction::Link => succeeded,
            },
        };
        if !came_across {
            return false;
        }
        i = i + 1;
    }
    true
}

/// A linked level reports success only if every file entry was linked or
/// already present, every subdirectory linked completely, and no entry was
/// lost to a failed listing or an unreadable status.
pub proof fn law_link_success_means_every_entry_came_across(created: bool, listed: bool, outcomes: Seq<EntryOutcome>, i: int)
    requires
        link_level_ok(created, listed, outcomes),
        0 <= i < outcomes.len(),
    ensures
        outcomes[i] != EntryOutcome::Unlisted,
        outcomes[i] matches EntryOutcome::Handled { action, succeeded } ==> {
            &&& action != EntryAction::Unreadable
            &&& (action == EntryAction::Link || action == EntryAction::Descend) ==> succeeded
        },
{
    assert(entry_came_across(outcomes[i]));
}

/// What the migration does at launch.
#[derive(Clone, Copy, PartialEq, Eq, Structural, Debug)]
pub enum LaunchAction {
    /// Nothing to do this launch.
    Skip,
    /// Look whether the legacy data directory exists, then decide again.
    ProbeLegacyDir,
    /// There is no legacy directory: record that this is a fresh install,
    /// so later launches do not probe for it again.
    RecordFreshInstall,
    /// Run the migration.
    Migrate,
    /// Earlier runs failed `MAX_ATTEMPTS` times: log where the legacy data
    /// lives and stop interfering.
    GiveUp,
}

/// The marker recording that this install has no legacy data.
pub const NO_LEGACY_MARKER_FILE: &'static str = ".no-legacy-com.pais.handy";

/// The file counting the migration runs that did not complete.
pub const FAILED_RUNS_FILE: &'static str = ".migration-failed-runs";

/// The launch decision. `dir_resolved`: the new data directory
/// and its parent are known; `no_legacy_recorded`: an earlier launch found
/// no legacy directory; `failed_runs`: how many runs did not complete;
/// `legacy_is_dir`: the probe's result, `None` before probing.
pub open spec fn launch_spec(
    is_portable: bool,
    dir_resolved: bool,
    marker_exists: bool,
    no_legacy_recorded: bool,
    failed_runs: u32,
    legacy_is_dir: Option<bool>,
) -> LaunchAction {
    if is_portable || !dir_resolved || marker_exists || no_legacy_recorded {
        LaunchAction::Skip
    } else if failed_runs >= MAX_ATTEMPTS {
        LaunchAction::GiveUp
    } else {
        match legacy_is_dir {
            None => LaunchAction::ProbeLegacyDir,
            Some(false) => LaunchAction::RecordFreshInstall,
            Some(true) => LaunchAction::Migrate,
        }
    }
}

/// Decides, at each launch, whether the migration runs: never on a portable
/// build (its data lives next to the executable), without a resolvable data
/// directory, once completed, or on a recorded fresh install; not after
/// `MAX_ATTEMPTS` failed runs; otherwise after probing for the legacy
/// directory, when it exists.
pub fn decide_launch(
    is_portable: bool,
    dir_resolved: bool,
    marker_exists: bool,
    no_legacy_recorded: bool,
    failed_runs: u32,
    legacy_is_dir: Option<bool>,
) -> (a: LaunchAction)
    ensures
        a == launch_spec(is_portable, dir_resolved, marker_exists, no_legacy_recorded, failed_runs, legacy_is_dir),
{
    if is_portable || !dir_resolved || marker_exists || no_legacy_recorded {
        LaunchAction::Skip
    } else if failed_runs >= MAX_ATTEMPTS {
        LaunchAction::GiveUp
    } else {
        match legacy_is_dir {
            None => LaunchAction::ProbeLegacyDir,
            Some(false) => LaunchAction::RecordFreshInstall,
            Some(true) => LaunchAction::Migrate,
        }
    }
}

/// The count of failed runs after a run that completed or not; it stops at
/// `MAX_ATTEMPTS`.
pub open spec fn after_run_spec(failed_runs: u32, complete: bool) -> u32 {
    if complete {
        failed_runs
    } else if failed_runs < MAX_ATTEMPTS {
        (failed_runs + 1) as u32
    } else {
        failed_runs
    }
}

/// Counts a run that did not complete.
pub fn after_run(failed_runs: u32, complete: bool) -> (n: u32)
    ensures
        n == after_run_spec(failed_runs, complete),
{
    if complete {
        failed_runs
    } else if failed_runs < MAX_ATTEMPTS {
        failed_runs + 1
    } else {
        failed_runs
    }
}

/// The stored form of a failed-run count: one ASCII digit (counts above 9
/// are stored as 9).
pub open spec fn run_count_bytes_spec(n: u32) -> Seq<u8> {
    seq![((if n > 9 { 9u32 } else { n }) + 48) as u8]
}

/// Encodes a failed-run count for the counter file.
pub fn run_count_bytes(n: u32) -> (b: Vec<u8>)
    ensures
        b@ == run_count_bytes_spec(n),
{
    let digit: u8 = if n > 9 { 9 } else { n as u8 };
    let mut b: Vec<u8> = Vec::new();
    b.push(digit + 48);
    b
}

/// The failed-run count a counter file holds: its single ASCII digit; a
/// missing, empty or garbled file counts as no failed run.
pub open spec fn parse_run_count_spec(bytes: Seq<u8>) -> u32 {
    if bytes.len() == 1 && 48 <= bytes[0] <= 57 { (bytes[0] - 48) as u32 } else { 0 }
}

/// Decodes the counter file's contents.
pub fn parse_run_count(bytes: &[u8]) -> (n: u32)
    ensures
        n == parse_run_count_spec(bytes@),
{
    if bytes.len() == 1 && 48 <= bytes[0] && bytes[0] <= 57 {
        (bytes[0] - 48) as u32
    } else {
        0
    }
}

/// A completed migration, a portable build, an unresolvable data directory
/// or a recorded fresh install skips the migration without probing for the
/// legacy directory.
pub proof fn law_launch_skips_without_probing(
    is_portable: bool,
    dir_resolved: bool,
    marker_exists: bool,
    no_legacy_recorded: bool,
    failed_runs: u32,
    legacy_is_dir: Option<bool>,
)
    requires
        is_portable || !dir_resolved || marker_exists || no_legacy_recorded,
    ensures
        launch_spec(is_portable, dir_resolved, marker_exists, no_legacy_recorded, failed_runs, legacy_is_dir) == LaunchAction::Skip,
{
}

/// After `MAX_ATTEMPTS` failed runs the migration never runs again (it
/// gives up, or is skipped).
pub proof fn law_no_migration_after_three_failed_runs(
    is_portable: bool,
    dir_resolved: bool,
    marker_exists: bool,
    no_legacy_recorded: bool,
    failed_runs: u32,
    legacy_is_dir: Option<bool>,
)
    requires
        failed_runs >= MAX_ATTEMPTS,
    ensures
        launch_spec(is_portable, dir_resolved, marker_exists, no_legacy_recorded, failed_runs, legacy_is_dir) != LaunchAction::Migrate,
        launch_spec(is_portable, dir_resolved, marker_exists, no_legacy_recorded, failed_runs, legacy_is_dir) != LaunchAction::ProbeLegacyDir,
{
}

/// The migration runs only when every check passed: not portable, data
/// directory known, no completion marker, no recorded fresh install, fewer
/// than `MAX_ATTEMPTS` failed runs, and the probe found the legacy directory.
pub proof fn law_migrate_only_when_every_probe_succeeded(
    is_portable: bool,
    dir_resolved: bool,
    marker_exists: bool,
    no_legacy_recorded: bool,
    failed_runs: u32,
    legacy_is_dir: Option<bool>,
)
    ensures
        launch_spec(is_portable, dir_resolved, marker_exists, no_legacy_recorded, failed_runs, legacy_is_dir) == LaunchAction::Migrate
            <==> (!is_portable && dir_resolved && !marker_exists && !no_legacy_recorded && failed_runs < MAX_ATTEMPTS
                && legacy_is_dir == Some(true)),
{
}

/// Counting failed runs from none, the `MAX_ATTEMPTS`-th failure makes the
/// launch decision give up; a completed run leaves the count alone.
pub proof fn law_gives_up_after_three_failed_runs(legacy_is_dir: Option<bool>)
    ensures
        ({
            let n3 = after_run_spec(after_run_spec(after_run_spec(0, false), false), false);
            &&& after_run_spec(0, false) < MAX_ATTEMPTS
            &&& after_run_spec(after_run_spec(0, false), false) < MAX_ATTEMPTS
            &&& n3 == MAX_ATTEMPTS
            &&& launch_spec(false, true, false, false, n3, legacy_is_dir) == LaunchAction::GiveUp
            &&& after_run_spec(n3, false) == n3
        }),
{
}

/// The counter file reads back the count that was written, for any count
/// the launch decision keeps (at most 9).
pub proof fn law_run_count_round_trip(n: u32)
    requires
        n <= 9,
    ensures
        parse_run_count_spec(run_count_bytes_spec(n)) == n,
{
}

/// Copying a file with retries succeeds at once when the source is not a
/// file (there is nothing to copy); otherwise the copy is attempted.
pub fn retry_copy_precheck(source_is_file: bool) -> (r: Option<bool>)
    ensures
        r == if source_is_file { None } else { Some(true) },
{
    if source_is_file { None } else { Some(true) }
}

/// The failed-copy count and result after one copy attempt, `failed`
/// attempts having failed before.
pub open spec fn copy_retry_spec(failed: nat, copied: bool) -> (nat, Option<bool>) {
    if copied {
        (failed, Some(true))
    } else {
        let f = if failed < MAX_ATTEMPTS { failed + 1 } else { failed };
        (f, if f >= MAX_ATTEMPTS { Some(false) } else { None })
    }
}

/// Drives the copy of one file with retries against transient locks: up
/// to `MAX_ATTEMPTS` attempts, `RETRY_PAUSE_MS` apart.
pub struct CopyRetry {
    attempts: Attempts,
}

impl CopyRetry {
    /// No attempt made yet.
    pub fn new() -> (c: CopyRetry)
        ensures
            c.failed_copies() == 0,
    {
        CopyRetry { attempts: Attempts::new() }
    }

    /// How many attempts have failed so far.
    pub closed spec fn failed_copies(&self) -> nat {
        self.attempts@
    }

    /// Takes whether an attempt copied the file. Returns the result when
    /// there is one: `true` on a successful copy, `false` on the
    /// `MAX_ATTEMPTS`-th failure; `None` asks for another attempt.
    pub fn observe(&mut self, copied: bool) -> (result: Option<bool>)
        ensures
            (final(self).failed_copies(), result) == copy_retry_spec(old(self).failed_copies(), copied),
    {
        if copied {
            Some(true)
        } else if self.attempts.record_failure() {
            Some(false)
        } else {
            None
        }
    }
}

/// The result over a sequence of attempts, if any.
pub open spec fn copy_retry_run(failed: nat, attempts: Seq<bool>) -> Option<bool>
    decreases attempts.len(),
{
    if attempts.len() == 0 {
        None
    } else {
        let (f1, r) = copy_retry_spec(failed, attempts[0]);
        if r is Some { r } else { copy_retry_run(f1, attempts.drop_first()) }
    }
}

/// The result of copying a file with retries, the attempts turning out as
/// `attempts`.
pub open spec fn retry_copy_outcome(source_is_file: bool, attempts: Seq<bool>) -> Option<bool> {
    if !source_is_file { Some(true) } else { copy_retry_run(0, attempts) }
}

proof fn lemma_copy_retry_run(failed: nat, attempts: Seq<bool>)
    requires
        failed < MAX_ATTEMPTS,
    ensures
        attempts.len() >= MAX_ATTEMPTS - failed ==> copy_retry_run(failed, attempts) is Some,
        copy_retry_run(failed, attempts) == Some(false) ==> {
            &&& attempts.len() >= MAX_ATTEMPTS - failed
            &&& forall|i: int| 0 <= i < MAX_ATTEMPTS - failed ==> !#[trigger] attempts[i]
        },
        copy_retry_run(failed, attempts) == Some(true) ==>
            exists|i: int| 0 <= i < MAX_ATTEMPTS - failed && i < attempts.len() && #[trigger] attempts[i],
    decreases attempts.len(),
{
    if attempts.len() > 0 {
        let (f1, r) = copy_retry_spec(failed, attempts[0]);
        if r is None {
            lemma_copy_retry_run(f1, attempts.drop_first());
            let rest = attempts.drop_first();
            if copy_retry_run(failed, attempts) == Some(false) {
                assert forall|i: int| 0 <= i < MAX_ATTEMPTS - failed implies !#[trigger] attempts[i] by {
                    if i > 0 {
                        assert(attempts[i] == rest[i - 1]);
                    }
                }
            }
            if copy_retry_run(failed, attempts) == Some(true) {
                let j = choose|j: int| 0 <= j < MAX_ATTEMPTS - f1 && j < rest.len() && #[trigger] rest[j];
                assert(attempts[j + 1] == rest[j]);
            }
        } else if r == Some(true) {
            assert(attempts[0]);
        }
    }
}

/// A file copy with retries reports failure only when the source is a file
/// and the first `MAX_ATTEMPTS` attempts all failed; it reports success only
/// when there was nothing to copy or one of those attempts copied; and it
/// is decided by the `MAX_ATTEMPTS`-th attempt at the latest.
pub proof fn law_copy_fails_only_after_three_failed_copies(source_is_file: bool, attempts: Seq<bool>)
    ensures
        retry_copy_outcome(source_is_file, attempts) == Some(false) ==> {
            &&& source_is_file
            &&& attempts.len() >= MAX_ATTEMPTS
            &&& forall|i: int| 0 <= i < MAX_ATTEMPTS ==> !#[trigger] attempts[i]
        },
        retry_copy_outcome(source_is_file, attempts) == Some(true) ==>
            !source_is_file || exists|i: int| 0 <= i < MAX_ATTEMPTS && i < attempts.len() && #[trigger] attempts[i],
        attempts.len() >= MAX_ATTEMPTS ==> retry_copy_outcome(source_is_file, attempts) is Some,
{
    lemma_copy_retry_run(0, attempts);
}

/// A directory entry as the recursive linking walk meets it.
pub enum LinkEntry {
    /// The listing failed on this entry.
    Unlisted,
    /// An entry called `name`.
    Named { name: Seq<char>, node: LinkNode },
}

/// What a listed entry (or the root of the walk) is, and how the walk's
/// outside work on it went.
pub enum LinkNode {
    /// Its metadata could not be read.
    Unreadable,
    Symlink,
    /// A file; whether something was at the destination already, and
    /// whether linking it (or the copy fallback) went through.
    File { destination_exists: bool, link_ok: bool },
    /// A directory; whether its destination could be created, whether it
    /// could be listed, and its entries.
    Dir { created: bool, listed: bool, entries: Seq<LinkEntry> },
}

/// The result of linking the tree `node` found at `depth`, names ending in
/// one of `skip` left out, as the walk composes `link_precheck`,
/// `has_skipped_suffix`, `entry_action` and `link_level_result`.
pub open spec fn link_node(node: LinkNode, depth: nat, skip: Seq<Seq<char>>) -> bool
    decreases node,
{
    match node {
        LinkNode::Dir { created, listed, entries } => if depth > MAX_LINK_DEPTH {
            false
        } else {
            created && listed && link_entries(entries, depth, skip)
        },
        _ => true,
    }
}

/// Whether every entry of a level came across.
pub open spec fn link_entries(entries: Seq<LinkEntry>, depth: nat, skip: Seq<Seq<char>>) -> bool
    decreases entries,
{
    if entries.len() == 0 {
        true
    } else {
        link_entry(entries[0], depth, skip) && link_entries(entries.drop_first(), depth, skip)
    }
}

/// Whether one entry of a level at `depth` came across.
pub open spec fn link_entry(entry: LinkEntry, depth: nat, skip: Seq<Seq<char>>) -> bool
    decreases entry,
{
    match entry {
        LinkEntry::Unlisted => false,
        LinkEntry::Named { name, node } => skipped_by(name, skip) || match node {
            LinkNode::Unreadable => false,
            LinkNode::Symlink => true,
            LinkNode::File { destination_exists, link_ok } => destination_exists || link_ok,
            LinkNode::Dir { .. } => link_node(node, depth + 1, skip),
        },
    }
}

/// The kind `entry_action` is given for a node (`None`: unreadable).
pub open spec fn node_kind(node: LinkNode) -> Option<EntryKind> {
    match node {
        LinkNode::Unreadable => None,
        LinkNode::Symlink => Some(EntryKind::Symlink),
        LinkNode::File { .. } => Some(EntryKind::File),
        LinkNode::Dir { .. } => Some(EntryKind::Dir),
    }
}

/// The outcome the walk records for an entry of a level at `depth`.
pub open spec fn entry_outcome(entry: LinkEntry, depth: nat, skip: Seq<Seq<char>>) -> EntryOutcome {
    match entry {
        LinkEntry::Unlisted => EntryOutcome::Unlisted,
        LinkEntry::Named { name, node } => if skipped_by(name, skip) {
            EntryOutcome::SkippedBySuffix
        } else {
            EntryOutcome::Handled {
                action: entry_action_spec(
                    node_kind(node),
                    match node {
                        LinkNode::File { destination_exists, .. } => destination_exists,
                        _ => false,
                    },
                ),
                succeeded: match node {
                    LinkNode::File { link_ok, .. } => link_ok,
                    LinkNode::Dir { .. } => link_node(node, depth + 1, skip),
                    LinkNode::Symlink => true,
                    LinkNode::Unreadable => false,
                },
            }
        },
    }
}

proof fn lemma_link_entries_all(entries: Seq<LinkEntry>, depth: nat, skip: Seq<Seq<char>>)
    ensures
        link_entries(entries, depth, skip) <==> forall|i: int| 0 <= i < entries.len() ==> link_entry(#[trigger] entries[i], depth, skip),
    decreases entries.len(),
{
    if entries.len() > 0 {
        let rest = entries.drop_first();
        lemma_link_entries_all(rest, depth, skip);
        if link_entries(entries, depth, skip) {
            assert forall|i: int| 0 <= i < entries.len() implies link_entry(#[trigger] entries[i], depth, skip) by {
                if i > 0 {
                    assert(entries[i] == rest[i - 1]);
                }
            }
        }
        if forall|i: int| 0 <= i < entries.len() ==> link_entry(#[trigger] entries[i], depth, skip) {
            assert(link_entry(entries[0], depth, skip));
            assert forall|i: int| 0 <= i < rest.len() implies link_entry(#[trigger] rest[i], depth, skip) by {
                assert(rest[i] == entries[i + 1]);
            }
        }
    }
}

/// The abstract walk is the composition of the verified pieces: a root
/// that is not a directory succeeds (`link_precheck`), a directory past the
/// depth cap fails, and otherwise a level succeeds exactly when
/// `link_level_result` accepts the outcomes the walk records, each
/// subdirectory's outcome being its own walk one level deeper.
pub proof fn law_tree_walk_composes_levels(node: LinkNode, depth: nat, skip: Seq<Seq<char>>)
    requires
        depth <= u32::MAX,
    ensures
        link_precheck_spec(node is Dir, depth as u32) matches Some(r) ==> link_node(node, depth, skip) == r,
        node is Dir && depth <= MAX_LINK_DEPTH ==>
            link_node(node, depth, skip) == link_level_ok(
                node->created,
                node->listed,
                Seq::new(node->entries.len(), |i: int| entry_outcome(node->entries[i], depth, skip)),
            ),
{
    if let LinkNode::Dir { created, listed, entries } = node {
        if depth <= MAX_LINK_DEPTH {
            lemma_link_entries_all(entries, depth, skip);
            let outcomes = Seq::new(entries.len(), |i: int| entry_outcome(entries[i], depth, skip));
            assert forall|i: int| 0 <= i < entries.len() implies
                entry_came_across(#[trigger] outcomes[i]) == link_entry(entries[i], depth, skip) by {
            }
            if link_node(node, depth, skip) {
                assert forall|i: int| 0 <= i < outcomes.len() implies entry_came_across(#[trigger] outcomes[i]) by {
                    assert(link_entry(entries[i], depth, skip));
                }
            }
            if link_level_ok(created, listed, outcomes) {
                assert forall|i: int| 0 <= i < entries.len() implies link_entry(#[trigger] entries[i], depth, skip) by {
                    assert(entry_came_across(outcomes[i]));
                }
            }
        }
    }
}

/// The node reached from `node` by following the entries at `path`, each
/// a listed entry whose name is not skipped and, but for the last, a
/// directory; `None` when there is no such node.
pub open spec fn descend(node: LinkNode, path: Seq<int>, skip: Seq<Seq<char>>) -> Option<LinkNode>
    decreases path.len(),
{
    if path.len() == 0 {
        Some(node)
    } else {
        match node {
            LinkNode::Dir { entries, .. } => if 0 <= path[0] < entries.len() {
                match entries[path[0]] {
                    LinkEntry::Named { name, node: child } => if skipped_by(name, skip) {
                        None
                    } else {
                        descend(child, path.drop_first(), skip)
                    },
                    LinkEntry::Unlisted => None,
                }
            } else {
                None
            },
            _ => None,
        }
    }
}

/// A successful walk brought across every file it could reach: every file
/// below the root, along listed entries with names that are not skipped,
/// was linked or already present at the destination.
pub proof fn law_tree_link_brings_every_file_across(
    node: LinkNode,
    depth: nat,
    skip: Seq<Seq<char>>,
    path: Seq<int>,
    destination_exists: bool,
    link_ok: bool,
)
    requires
        link_node(node, depth, skip),
        path.len() > 0,
        descend(node, path, skip) == Some(LinkNode::File { destination_exists, link_ok }),
    ensures
        destination_exists || link_ok,
    decreases path.len(),
{
    if path.len() > 0 {
        if let LinkNode::Dir { entries, .. } = node {
            lemma_link_entries_all(entries, depth, skip);
            assert(link_entry(entries[path[0]], depth, skip));
            if let LinkEntry::Named { name, node: child } = entries[path[0]] {
                if path.len() == 1 {
                    assert(descend(child, path.drop_first(), skip) == Some(child));
                } else {
                    law_tree_link_brings_every_file_across(child, depth + 1, skip, path.drop_first(), destination_exists, link_ok);
                }
            }
        }
    }
}

/// A walk that reaches a directory past the depth cap fails: the whole
/// link is reported unsuccessful rather than pretending a truncated tree is
/// complete. Likewise an entry lost to the listing anywhere the walk
/// reaches makes it fail.
pub proof fn law_tree_link_fails_on_deep_or_lost_entries(
    node: LinkNode,
    depth: nat,
    skip: Seq<Seq<char>>,
    path: Seq<int>,
    target: LinkNode,
)
    requires
        descend(node, path, skip) == Some(target),
        target is Dir,
    ensures
        depth + path.len() > MAX_LINK_DEPTH ==> !link_node(node, depth, skip),
        (target matches LinkNode::Dir { entries, .. } && entries.contains(LinkEntry::Unlisted)) ==> !link_node(node, depth, skip),
    decreases path.len(),
{
    if path.len() == 0 {
        if let LinkNode::Dir { entries, .. } = target {
            lemma_link_entries_all(entries, depth, skip);
            if entries.contains(LinkEntry::Unlisted) {
                let k = choose|k: int| 0 <= k < entries.len() && entries[k] == LinkEntry::Unlisted;
                assert(!link_entry(entries[k], depth, skip));
            }
        }
    } else {
        if let LinkNode::Dir { entries, .. } = node {
            lemma_link_entries_all(entries, depth, skip);
            if let LinkEntry::Named { name, node: child } = entries[path[0]] {
                law_tree_link_fails_on_deep_or_lost_entries(child, depth + 1, skip, path.drop_first(), target);
                if link_node(node, depth, skip) && depth <= MAX_LINK_DEPTH {
                    assert(link_entry(entries[path[0]], depth, skip));
                    if path.len() == 1 {
                        assert(descend(child, path.drop_first(), skip) == Some(child));
                    }
                }
            }
        }
    }
}

/// Only a file that is not a database, or a corrupt one, is permanently
/// unusable; every other SQLite code (locks, I/O, permissions, ...) and
/// every other error is transient.
pub proof fn law_only_corruption_is_permanent(code: SqliteCode, message: String)
    ensures
        is_permanent(DbError::Sqlite { code, message }) <==> (code == SqliteCode::NotADatabase || code == SqliteCode::DatabaseCorrupt),
        !is_permanent(DbError::Other { message }),
{
}

/// Schema reads: a version is judged at once (newer than supported, or
/// supported); a permanent error at once makes the file not a database; a
/// transient error never does, but counts one failed read and gives
/// `Unreadable` exactly on the `MAX_ATTEMPTS`-th, asking for another read
/// before. Neither a version nor a permanent error counts as a failed read.
pub proof fn law_schema_read_verdicts(failed: nat, read: Result<i32, DbError>, supported: i32)
    requires
        failed < MAX_ATTEMPTS,
    ensures
        ({
            let (f1, v) = probe_spec(failed, read, supported);
            &&& (read is Ok && read->Ok_0 > supported ==> v == Some(SchemaCheck::Newer(read->Ok_0)) && f1 == failed)
            &&& (read is Ok && read->Ok_0 <= supported ==> v == Some(SchemaCheck::Supported) && f1 == failed)
            &&& (read is Err && is_permanent(read->Err_0) ==>
                v == Some(SchemaCheck::NotADatabase(read->Err_0.message_string())) && f1 == failed)
            &&& (read is Err && !is_permanent(read->Err_0) ==> {
                &&& f1 == failed + 1
                &&& !(v matches Some(SchemaCheck::NotADatabase(_)))
                &&& (failed + 1 == MAX_ATTEMPTS ==> v == Some(SchemaCheck::Unreadable(read->Err_0.message_string())))
                &&& (failed + 1 < MAX_ATTEMPTS ==> v is None)
            })
        }),
{
}

/// Every launch that is not ruled out (not portable, data directory known,
/// no completion marker, no recorded fresh install) and has seen fewer than
/// `MAX_ATTEMPTS` failed runs probes for the legacy directory and then
/// migrates when it exists or records a fresh install when it does not: a
/// failed run gets a real retry. With `MAX_ATTEMPTS` or more failed runs it
/// gives up instead.
pub proof fn law_launch_retries_until_give_up(failed_runs: u32)
    ensures
        failed_runs < MAX_ATTEMPTS ==> {
            &&& launch_spec(false, true, false, false, failed_runs, None) == LaunchAction::ProbeLegacyDir
            &&& launch_spec(false, true, false, false, failed_runs, Some(true)) == LaunchAction::Migrate
            &&& launch_spec(false, true, false, false, failed_runs, Some(false)) == LaunchAction::RecordFreshInstall
        },
        failed_runs >= MAX_ATTEMPTS ==> {
            &&& launch_spec(false, true, false, false, failed_runs, None) == LaunchAction::GiveUp
            &&& launch_spec(false, true, false, false, failed_runs, Some(true)) == LaunchAction::GiveUp
            &&& launch_spec(false, true, false, false, failed_runs, Some(false)) == LaunchAction::GiveUp
        },
{
}

/// A completed run leaves the count of failed runs alone; an incomplete one
/// adds one, up to `MAX_ATTEMPTS`, where it stays.
pub proof fn law_failed_runs_count(n: u32)
    ensures
        after_run_spec(n, true) == n,
        n < MAX_ATTEMPTS ==> after_run_spec(n, false) == n + 1,
        n >= MAX_ATTEMPTS ==> after_run_spec(n, false) == n,
{
}

/// The counter file holds one digit; anything else reads as no failed run.
pub proof fn law_run_count_parse(bytes: Seq<u8>, d: u8)
    ensures
        48 <= d <= 57 ==> parse_run_count_spec(seq![d]) == d - 48,
        bytes.len() != 1 ==> parse_run_count_spec(bytes) == 0,
        bytes.len() == 1 && !(48 <= bytes[0] <= 57) ==> parse_run_count_spec(bytes) == 0,
        parse_run_count_spec(bytes) <= 9,
{
}

/// Linking a level: a source that is not a directory needs nothing and
/// succeeds; a directory deeper than `MAX_LINK_DEPTH` fails; others go on.
/// An entry is linked exactly when it is a file with nothing at its
/// destination, descended into exactly when it is a directory, and fails
/// exactly when its status could not be read.
pub proof fn law_link_rules(source_is_dir: bool, depth: u32, kind: Option<EntryKind>, destination_exists: bool)
    ensures
        !source_is_dir ==> link_precheck_spec(source_is_dir, depth) == Some(true),
        source_is_dir && depth > MAX_LINK_DEPTH ==> link_precheck_spec(source_is_dir, depth) == Some(false),
        source_is_dir && depth <= MAX_LINK_DEPTH ==> link_precheck_spec(source_is_dir, depth) is None,
        (entry_action_spec(kind, destination_exists) == EntryAction::Descend) <==> kind == Some(EntryKind::Dir),
        (entry_action_spec(kind, destination_exists) == EntryAction::Unreadable) <==> kind is None,
        (entry_action_spec(kind, destination_exists) == EntryAction::SkipSymlink) <==> kind == Some(EntryKind::Symlink),
        (entry_action_spec(kind, destination_exists) == EntryAction::KeepExisting) <==> kind == Some(EntryKind::File) && destination_exists,
{
}

/// An entry came across when it was skipped by name, is a symlink left
/// alone, or a file already present; a file or directory came across
/// exactly when its link (or subtree) succeeded; an entry lost to the
/// listing or whose status could not be read never did.
pub proof fn law_entry_came_across(action: EntryAction, succeeded: bool)
    ensures
        entry_came_across(EntryOutcome::SkippedBySuffix),
        !entry_came_across(EntryOutcome::Unlisted),
        entry_came_across(EntryOutcome::Handled { action: EntryAction::SkipSymlink, succeeded }),
        entry_came_across(EntryOutcome::Handled { action: EntryAction::KeepExisting, succeeded }),
        !entry_came_across(EntryOutcome::Handled { action: EntryAction::Unreadable, succeeded }),
        entry_came_across(EntryOutcome::Handled { action: EntryAction::Link, succeeded }) == succeeded,
        entry_came_across(EntryOutcome::Handled { action: EntryAction::Descend, succeeded }) == succeeded,
{
}

} // verus!
