//! The backup operation itself: paths, failure taxonomy, and the decision
//! logic that turns the outcome of each filesystem step into the next step.

use vstd::prelude::*;
use vstd::string::*;

verus! {

/// `dir` and `name` joined with a single separator.
pub open spec fn path_join_spec(dir: Seq<char>, name: Seq<char>) -> Seq<char> {
    dir + "/"@ + name
}

/// Joins a directory path and an entry name.
pub fn path_join(dir: &str, name: &str) -> (r: String)
    ensures
        r@ == path_join_spec(dir@, name@),
{
    let mut s = String::from_str(dir);
    s.append("/");
    s.append(name);
    proof {
        assert(s@ =~= path_join_spec(dir@, name@));
    }
    s
}

/// The name of the live database file inside the application-data directory.
pub open spec fn source_file_name() -> Seq<char> {
    "sales.db"@
}

/// The name of the backup directory inside the user documents directory.
pub open spec fn backup_dir_name() -> Seq<char> {
    "SalesNoteBackups"@
}

/// The backup filename derived from the invocation time `t`:
/// `sales_backup_<YYYYMMDD_HHMMSS>.db`.
pub open spec fn backup_filename_spec(t: crate::time::Timestamp) -> Seq<char> {
    "sales_backup_"@ + crate::time::timestamp_chars(t) + ".db"@
}

/// Renders the backup filename for invocation time `t`.
pub fn backup_filename(t: &crate::time::Timestamp) -> (r: String)
    requires
        t.wf(),
    ensures
        r@ == backup_filename_spec(*t),
{
    let mut s = String::from_str("sales_backup_");
    let token = crate::time::timestamp_token(t);
    s.append(token.as_str());
    s.append(".db");
    proof {
        assert(s@ =~= backup_filename_spec(*t));
    }
    s
}

/// Why a backup invocation failed.
#[derive(Clone, Debug, PartialEq, Eq)]
pub enum BackupError {
    /// The platform could not supply the application-data or documents
    /// directory; the payload is the platform's reason.
    DirectoryResolutionFailed(String),
    /// The backup directory was absent and could not be created; the payload
    /// is the filesystem's reason.
    DirectoryCreationFailed(String),
    /// The platform clock could not supply a renderable time (a clock before
    /// the Unix epoch, or a year outside the four-digit range).
    ClockUnavailable,
    /// The live database file does not exist at its expected path.
    SourceMissing,
    /// The copy failed after the source was confirmed present; the payload is
    /// the filesystem's reason.
    CopyFailed(String),
}

/// The descriptive string for each failure, identifying the failing step.
pub open spec fn message_chars(e: BackupError) -> Seq<char> {
    match e {
        BackupError::DirectoryResolutionFailed(reason) => "Directory resolution failed: "@
            + reason@,
        BackupError::DirectoryCreationFailed(reason) => "Directory creation failed: "@ + reason@,
        BackupError::ClockUnavailable => "Clock unavailable"@,
        BackupError::SourceMissing => "Database file not found"@,
        BackupError::CopyFailed(reason) => "Copy failed: "@ + reason@,
    }
}

impl BackupError {
    /// Renders the failure as a descriptive string for the caller.
    pub fn message(&self) -> (r: String)
        ensures
            r@ == message_chars(*self),
    {
        match self {
            BackupError::DirectoryResolutionFailed(reason) => String::from_str(
                "Directory resolution failed: ",
            ).concat(reason.as_str()),
            BackupError::DirectoryCreationFailed(reason) => String::from_str(
                "Directory creation failed: ",
            ).concat(reason.as_str()),
            BackupError::ClockUnavailable => String::from_str("Clock unavailable"),
            BackupError::SourceMissing => String::from_str("Database file not found"),
            BackupError::CopyFailed(reason) => String::from_str("Copy failed: ").concat(
                reason.as_str(),
            ),
        }
    }
}

/// The two paths computed from the resolved platform directories.
#[derive(Clone, Debug, PartialEq, Eq)]
pub struct BackupPaths {
    /// `applicationDataDirectory/sales.db`, the live database file.
    pub source_path: String,
    /// `documentsDirectory/SalesNoteBackups`, the backup directory.
    pub backup_dir: String,
}

/// A fully planned copy: where to read, where to write, and what to report.
#[derive(Clone, Debug, PartialEq, Eq)]
pub struct BackupJob {
    /// The live database file.
    pub source_path: String,
    /// `backup_dir/sales_backup_<YYYYMMDD_HHMMSS>.db`, the artifact path.
    pub backup_path: String,
    /// The `HH:MM` display time returned to the caller on success.
    pub display_time: String,
}

/// Where one backup invocation stands. Each phase but `Finished` names the
/// one filesystem step the embedding application performs next; the outcome
/// comes back as a [`BackupEvent`] and [`backup_step`] decides what follows.
#[derive(Debug, PartialEq, Eq)]
pub enum BackupPhase {
    /// Next step: resolve the application-data and documents directories.
    Start,
    /// Next step: create the backup directory if it is absent (creating it
    /// when present must stay a no-op, not an error).
    EnsureDir(BackupPaths),
    /// Next step: read the local wall clock; a clock that cannot supply a
    /// renderable time ends the invocation as its own failure.
    ReadClock(BackupPaths),
    /// Next step: check whether the source file exists.
    CheckSource(BackupJob),
    /// Next step: copy the source file to the artifact path, overwriting a
    /// same-named file if one is already there.
    CopyFile(BackupJob),
    /// The invocation is over with this result.
    Finished(Result<String, BackupError>),
}

/// The outcome of one filesystem step, reported back by the embedding
/// application.
#[derive(Clone, Debug, PartialEq, Eq)]
pub enum BackupEvent {
    /// Both platform directories were resolved.
    DirsResolved { app_data_dir: String, documents_dir: String },
    /// The platform could not supply one of the two directories.
    DirsUnavailable { reason: String },
    /// The backup directory exists, whether it was just created or was
    /// already present.
    DirEnsured,
    /// The backup directory was absent and could not be created.
    DirCreationFailed { reason: String },
    /// The local wall clock was read.
    ClockRead { now: crate::time::Timestamp },
    /// The platform clock could not supply a renderable time.
    ClockUnavailable,
    /// The source file exists.
    SourceFound,
    /// The source file does not exist.
    SourceAbsent,
    /// The copy completed.
    Copied,
    /// The copy failed.
    CopyFailed { reason: String },
}

/// The transition relation of the backup operation: from phase `phase`,
/// outcome `event` leads to phase `next`.
///
/// An event that does not answer the pending step leaves the phase as it is;
/// in particular every `Finished` phase is final. A `ClockRead` event only
/// relates renderable clock values (see [`crate::time::Timestamp::wf`]).
pub open spec fn steps_to(phase: BackupPhase, event: BackupEvent, next: BackupPhase) -> bool {
    match (phase, event) {
        (BackupPhase::Start, BackupEvent::DirsResolved { app_data_dir, documents_dir }) => {
            &&& next matches BackupPhase::EnsureDir(p)
            &&& p.source_path@ == path_join_spec(app_data_dir@, source_file_name())
            &&& p.backup_dir@ == path_join_spec(documents_dir@, backup_dir_name())
        },
        (BackupPhase::Start, BackupEvent::DirsUnavailable { reason }) => next
            == BackupPhase::Finished(Err(BackupError::DirectoryResolutionFailed(reason))),
        (BackupPhase::EnsureDir(p), BackupEvent::DirEnsured) => next == BackupPhase::ReadClock(p),
        (BackupPhase::EnsureDir(p), BackupEvent::DirCreationFailed { reason }) => next
            == BackupPhase::Finished(Err(BackupError::DirectoryCreationFailed(reason))),
        (BackupPhase::ReadClock(p), BackupEvent::ClockRead { now }) => {
            &&& now.wf()
            &&& next matches BackupPhase::CheckSource(j)
            &&& j.source_path == p.source_path
            &&& j.backup_path@ == path_join_spec(p.backup_dir@, backup_filename_spec(now))
            &&& j.display_time@ == crate::time::display_chars(now)
        },
        (BackupPhase::ReadClock(_), BackupEvent::ClockUnavailable) => next == BackupPhase::Finished(
            Err(BackupError::ClockUnavailable),
        ),
        (BackupPhase::CheckSource(j), BackupEvent::SourceFound) => next == BackupPhase::CopyFile(
            j,
        ),
        (BackupPhase::CheckSource(j), BackupEvent::SourceAbsent) => next == BackupPhase::Finished(
            Err(BackupError::SourceMissing),
        ),
        (BackupPhase::CopyFile(j), BackupEvent::Copied) => next == BackupPhase::Finished(
            Ok(j.display_time),
        ),
        (BackupPhase::CopyFile(j), BackupEvent::CopyFailed { reason }) => next
            == BackupPhase::Finished(Err(BackupError::CopyFailed(reason))),
        (p, _) => next == p,
    }
}

/// Advances one backup invocation by one step: from `phase`, the reported
/// outcome `event` decides the next phase, as [`steps_to`] states.
pub fn backup_step(phase: BackupPhase, event: BackupEvent) -> (next: BackupPhase)
    requires
        event matches BackupEvent::ClockRead { now } ==> now.wf(),
    ensures
        steps_to(phase, event, next),
{
    match (phase, event) {
        (BackupPhase::Start, BackupEvent::DirsResolved { app_data_dir, documents_dir }) => {
            BackupPhase::EnsureDir(
                BackupPaths {
                    source_path: path_join(app_data_dir.as_str(), "sales.db"),
                    backup_dir: path_join(documents_dir.as_str(), "SalesNoteBackups"),
                },
            )
        },
        (BackupPhase::Start, BackupEvent::DirsUnavailable { reason }) => BackupPhase::Finished(
            Err(BackupError::DirectoryResolutionFailed(reason)),
        ),
        (BackupPhase::EnsureDir(p), BackupEvent::DirEnsured) => BackupPhase::ReadClock(p),
        (BackupPhase::EnsureDir(_), BackupEvent::DirCreationFailed { reason }) => {
            BackupPhase::Finished(Err(BackupError::DirectoryCreationFailed(reason)))
        },
        (BackupPhase::ReadClock(p), BackupEvent::ClockRead { now }) => {
            let filename = backup_filename(&now);
            BackupPhase::CheckSource(
                BackupJob {
                    source_path: p.source_path,
                    backup_path: path_join(p.backup_dir.as_str(), filename.as_str()),
                    display_time: crate::time::display_time(&now),
                },
            )
        },
        (BackupPhase::ReadClock(_), BackupEvent::ClockUnavailable) => BackupPhase::Finished(
            Err(BackupError::ClockUnavailable),
        ),
        (BackupPhase::CheckSource(j), BackupEvent::SourceFound) => BackupPhase::CopyFile(j),
        (BackupPhase::CheckSource(_), BackupEvent::SourceAbsent) => BackupPhase::Finished(
            Err(BackupError::SourceMissing),
        ),
        (BackupPhase::CopyFile(j), BackupEvent::Copied) => BackupPhase::Finished(
            Ok(j.display_time),
        ),
        (BackupPhase::CopyFile(_), BackupEvent::CopyFailed { reason }) => BackupPhase::Finished(
            Err(BackupError::CopyFailed(reason)),
        ),
        (p, _) => p,
    }
}


/// `phases` is a run of the backup operation over the outcomes `events`:
/// one phase more than there are events, each consecutive pair related by
/// [`steps_to`] under the event between them.
pub open spec fn is_run(phases: Seq<BackupPhase>, events: Seq<BackupEvent>) -> bool {
    &&& phases.len() == events.len() + 1
    &&& forall|i: int|
        0 <= i < events.len() ==> steps_to(phases[i], #[trigger] events[i], phases[i + 1])
}

/// A finished invocation is final: once a run reaches a result, every later
/// phase of the run carries that same result.
pub proof fn lemma_finished_is_final(
    phases: Seq<BackupPhase>,
    events: Seq<BackupEvent>,
    outcome: Result<String, BackupError>,
    k: int,
)
    requires
        is_run(phases, events),
        0 <= k < phases.len(),
        phases[k] == BackupPhase::Finished(outcome),
    ensures
        forall|j: int| k <= j < phases.len() ==> phases[j] == BackupPhase::Finished(outcome),
{
    assert forall|j: int| k <= j < phases.len() implies phases[j] == BackupPhase::Finished(
        outcome,
    ) by {
        lemma_finished_stays(phases, events, outcome, k, j);
    }
}

proof fn lemma_finished_stays(
    phases: Seq<BackupPhase>,
    events: Seq<BackupEvent>,
    outcome: Result<String, BackupError>,
    k: int,
    j: int,
)
    requires
        is_run(phases, events),
        0 <= k <= j < phases.len(),
        phases[k] == BackupPhase::Finished(outcome),
    ensures
        phases[j] == BackupPhase::Finished(outcome),
    decreases j - k,
{
    if j > k {
        lemma_finished_stays(phases, events, outcome, k, j - 1);
        assert(steps_to(phases[j - 1], events[j - 1], phases[j]));
    }
}

/// A missing source aborts the invocation: once the source file is found
/// absent, the run ends with `SourceMissing`, whatever outcomes follow, and
/// the copy phase is never entered.
pub proof fn lemma_absent_source_aborts(
    phases: Seq<BackupPhase>,
    events: Seq<BackupEvent>,
    job: BackupJob,
)
    requires
        is_run(phases, events),
        events.len() > 0,
        phases[0] == BackupPhase::CheckSource(job),
        events[0] == BackupEvent::SourceAbsent,
    ensures
        phases.last() == BackupPhase::Finished(Err(BackupError::SourceMissing)),
        forall|j: int| 0 <= j < phases.len() ==> !(phases[j] is CopyFile),
{
    assert(steps_to(phases[0], events[0], phases[1]));
    lemma_finished_is_final(phases, events, Err(BackupError::SourceMissing), 1);
    assert forall|j: int| 0 <= j < phases.len() implies !(phases[j] is CopyFile) by {
        if j > 0 {
            assert(phases[j] == BackupPhase::Finished(Err(BackupError::SourceMissing)));
        }
    }
}

/// A backup directory that already exists is no error: the `DirEnsured`
/// outcome, which covers both the directory being freshly created and its
/// being already present, always advances the invocation to the clock read.
pub proof fn lemma_existing_dir_is_no_error(paths: BackupPaths, next: BackupPhase)
    requires
        steps_to(BackupPhase::EnsureDir(paths), BackupEvent::DirEnsured, next),
    ensures
        next == BackupPhase::ReadClock(paths),
{
}

/// Two invocations within the same second collide: equal clock values yield
/// the same backup filename, so the later copy overwrites the earlier
/// artifact at the identical path.
pub proof fn lemma_same_second_collision(t1: crate::time::Timestamp, t2: crate::time::Timestamp)
    requires
        t1.year == t2.year,
        t1.month == t2.month,
        t1.day == t2.day,
        t1.hour == t2.hour,
        t1.minute == t2.minute,
        t1.second == t2.second,
    ensures
        backup_filename_spec(t1) == backup_filename_spec(t2),
{
    assert(t1 == t2);
}

/// An unobstructed run reaches the copy with the exact paths the backup
/// operation derives: the source is `appDataDir/sales.db`, the artifact is
/// `documentsDir/SalesNoteBackups/sales_backup_<YYYYMMDD_HHMMSS>.db`, and the
/// pending display time renders the clock value that was read.
pub proof fn lemma_run_reaches_copy(
    phases: Seq<BackupPhase>,
    app_data_dir: String,
    documents_dir: String,
    now: crate::time::Timestamp,
    events: Seq<BackupEvent>,
)
    requires
        is_run(phases, events),
        events.len() == 4,
        phases[0] == BackupPhase::Start,
        events[0] == (BackupEvent::DirsResolved { app_data_dir, documents_dir }),
        events[1] == BackupEvent::DirEnsured,
        events[2] == (BackupEvent::ClockRead { now }),
        events[3] == BackupEvent::SourceFound,
    ensures
        phases[4] matches BackupPhase::CopyFile(job) && job.source_path@ == path_join_spec(
            app_data_dir@,
            source_file_name(),
        ) && job.backup_path@ == path_join_spec(
            path_join_spec(documents_dir@, backup_dir_name()),
            backup_filename_spec(now),
        ) && job.display_time@ == crate::time::display_chars(now),
{
    assert(steps_to(phases[0], events[0], phases[1]));
    assert(steps_to(phases[1], events[1], phases[2]));
    assert(steps_to(phases[2], events[2], phases[3]));
    assert(steps_to(phases[3], events[3], phases[4]));
}

/// An unobstructed run succeeds, and reports the clock value that was read,
/// rendered as the short `HH:MM` display time.
pub proof fn lemma_successful_run(
    phases: Seq<BackupPhase>,
    app_data_dir: String,
    documents_dir: String,
    now: crate::time::Timestamp,
    events: Seq<BackupEvent>,
)
    requires
        is_run(phases, events),
        events.len() == 5,
        phases[0] == BackupPhase::Start,
        events[0] == (BackupEvent::DirsResolved { app_data_dir, documents_dir }),
        events[1] == BackupEvent::DirEnsured,
        events[2] == (BackupEvent::ClockRead { now }),
        events[3] == BackupEvent::SourceFound,
        events[4] == BackupEvent::Copied,
    ensures
        phases[5] matches BackupPhase::Finished(outcome) && outcome matches Ok(display)
            && display@ == crate::time::display_chars(now),
{
    lemma_run_reaches_copy(phases.take(5), app_data_dir, documents_dir, now, events.take(4));
    assert(steps_to(phases[4], events[4], phases[5]));
}


/// What one outcome does to the filesystem, modeled as the byte contents at
/// each path: the completed copy writes the source file's bytes, as they
/// read at copy time, to the artifact path; no other outcome of the
/// operation changes any file's bytes.
pub open spec fn file_effect(
    phase: BackupPhase,
    event: BackupEvent,
    files: Map<Seq<char>, Seq<u8>>,
) -> Map<Seq<char>, Seq<u8>> {
    match (phase, event) {
        (BackupPhase::CopyFile(job), BackupEvent::Copied) => files.insert(
            job.backup_path@,
            files[job.source_path@],
        ),
        _ => files,
    }
}

/// The byte contents at each path after a whole run over `events`.
pub open spec fn run_file_effect(
    phases: Seq<BackupPhase>,
    events: Seq<BackupEvent>,
    files: Map<Seq<char>, Seq<u8>>,
) -> Map<Seq<char>, Seq<u8>>
    decreases events.len(),
{
    if events.len() == 0 {
        files
    } else {
        run_file_effect(
            phases.drop_first(),
            events.drop_first(),
            file_effect(phases[0], events[0], files),
        )
    }
}

/// Content fidelity: whatever bytes the source file holds when the copy
/// runs, a successful run writes exactly those bytes to the artifact path
/// and touches no other file.
pub proof fn lemma_content_fidelity(
    phases: Seq<BackupPhase>,
    app_data_dir: String,
    documents_dir: String,
    now: crate::time::Timestamp,
    events: Seq<BackupEvent>,
    files: Map<Seq<char>, Seq<u8>>,
)
    requires
        is_run(phases, events),
        events.len() == 5,
        phases[0] == BackupPhase::Start,
        events[0] == (BackupEvent::DirsResolved { app_data_dir, documents_dir }),
        events[1] == BackupEvent::DirEnsured,
        events[2] == (BackupEvent::ClockRead { now }),
        events[3] == BackupEvent::SourceFound,
        events[4] == BackupEvent::Copied,
        files.dom().contains(path_join_spec(app_data_dir@, source_file_name())),
    ensures
        run_file_effect(phases, events, files) == files.insert(
            path_join_spec(
                path_join_spec(documents_dir@, backup_dir_name()),
                backup_filename_spec(now),
            ),
            files[path_join_spec(app_data_dir@, source_file_name())],
        ),
        run_file_effect(phases, events, files)[path_join_spec(
            path_join_spec(documents_dir@, backup_dir_name()),
            backup_filename_spec(now),
        )] == files[path_join_spec(app_data_dir@, source_file_name())],
{
    lemma_run_reaches_copy(phases.take(5), app_data_dir, documents_dir, now, events.take(4));
    let p1 = phases.drop_first();
    let e1 = events.drop_first();
    let p2 = p1.drop_first();
    let e2 = e1.drop_first();
    let p3 = p2.drop_first();
    let e3 = e2.drop_first();
    let p4 = p3.drop_first();
    let e4 = e3.drop_first();
    assert(run_file_effect(phases, events, files) == run_file_effect(p1, e1, files));
    assert(run_file_effect(p1, e1, files) == run_file_effect(p2, e2, files));
    assert(run_file_effect(p2, e2, files) == run_file_effect(p3, e3, files));
    assert(run_file_effect(p3, e3, files) == run_file_effect(p4, e4, files));
    assert(p4[0] == phases[4]);
    assert(e4[0] == BackupEvent::Copied);
    assert(e4.drop_first().len() == 0);
    assert(run_file_effect(p4.drop_first(), e4.drop_first(), file_effect(p4[0], e4[0], files))
        == file_effect(p4[0], e4[0], files));
    assert(run_file_effect(p4, e4, files) == file_effect(phases[4], events[4], files));
}


/// What one outcome does to the set of directories that exist: after the
/// directory step is answered, the backup directory is present, whether it
/// was just created or was already there; no other outcome creates or
/// removes a directory.
pub open spec fn dir_effect(
    phase: BackupPhase,
    event: BackupEvent,
    dirs: Set<Seq<char>>,
) -> Set<Seq<char>> {
    match (phase, event) {
        (BackupPhase::EnsureDir(p), BackupEvent::DirEnsured) => dirs.insert(p.backup_dir@),
        _ => dirs,
    }
}

/// The set of directories that exist after a whole run over `events`.
pub open spec fn run_dir_effect(
    phases: Seq<BackupPhase>,
    events: Seq<BackupEvent>,
    dirs: Set<Seq<char>>,
) -> Set<Seq<char>>
    decreases events.len(),
{
    if events.len() == 0 {
        dirs
    } else {
        run_dir_effect(
            phases.drop_first(),
            events.drop_first(),
            dir_effect(phases[0], events[0], dirs),
        )
    }
}

proof fn lemma_no_dir_outcome_no_dir_change(
    phases: Seq<BackupPhase>,
    events: Seq<BackupEvent>,
    dirs: Set<Seq<char>>,
)
    requires
        forall|i: int| 0 <= i < events.len() ==> #[trigger] events[i] != BackupEvent::DirEnsured,
    ensures
        run_dir_effect(phases, events, dirs) == dirs,
    decreases events.len(),
{
    if events.len() > 0 {
        assert(dir_effect(phases[0], events[0], dirs) == dirs);
        assert forall|i: int|
            0 <= i < events.drop_first().len() implies #[trigger] events.drop_first()[i]
            != BackupEvent::DirEnsured by {
            assert(events.drop_first()[i] == events[i + 1]);
        }
        lemma_no_dir_outcome_no_dir_change(phases.drop_first(), events.drop_first(), dirs);
    }
}

/// Idempotent directory creation: one invocation leaves the directories
/// with the backup directory added and nothing else; when the backup
/// directory already exists — as on every invocation after the first — the
/// invocation changes no directory at all, and the directory step is still
/// no error. Repeated invocations therefore create the directory exactly
/// once: the ensured set is a fixed point of further runs.
///
/// The directory step is answered once per invocation, so no later outcome
/// of the run is `DirEnsured`.
pub proof fn lemma_directory_created_once(
    phases: Seq<BackupPhase>,
    app_data_dir: String,
    documents_dir: String,
    events: Seq<BackupEvent>,
    dirs: Set<Seq<char>>,
)
    requires
        is_run(phases, events),
        events.len() >= 2,
        phases[0] == BackupPhase::Start,
        events[0] == (BackupEvent::DirsResolved { app_data_dir, documents_dir }),
        events[1] == BackupEvent::DirEnsured,
        forall|i: int| 2 <= i < events.len() ==> #[trigger] events[i] != BackupEvent::DirEnsured,
    ensures
        run_dir_effect(phases, events, dirs) == dirs.insert(
            path_join_spec(documents_dir@, backup_dir_name()),
        ),
        dirs.contains(path_join_spec(documents_dir@, backup_dir_name())) ==> run_dir_effect(
            phases,
            events,
            dirs,
        ) == dirs,
{
    let p1 = phases.drop_first();
    let e1 = events.drop_first();
    let p2 = p1.drop_first();
    let e2 = e1.drop_first();
    assert(steps_to(phases[0], events[0], phases[1]));
    assert(run_dir_effect(phases, events, dirs) == run_dir_effect(p1, e1, dirs));
    assert(p1[0] == phases[1]);
    assert(e1[0] == events[1]);
    let ensured = dir_effect(phases[1], events[1], dirs);
    assert(run_dir_effect(p1, e1, dirs) == run_dir_effect(p2, e2, ensured));
    assert forall|i: int| 0 <= i < e2.len() implies #[trigger] e2[i] != BackupEvent::DirEnsured by {
        assert(e2[i] == e1[i + 1]);
        assert(e1[i + 1] == events[i + 2]);
    }
    lemma_no_dir_outcome_no_dir_change(p2, e2, ensured);
    assert(ensured == dirs.insert(path_join_spec(documents_dir@, backup_dir_name())));
    if dirs.contains(path_join_spec(documents_dir@, backup_dir_name())) {
        assert(dirs.insert(path_join_spec(documents_dir@, backup_dir_name())) =~= dirs);
    }
}

} // verus!
