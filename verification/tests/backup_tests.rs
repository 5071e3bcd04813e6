use sales_backup::backup::{
    backup_filename, backup_step, path_join, BackupError, BackupEvent, BackupPhase,
};
use sales_backup::time::Timestamp;

fn clock(year: u32, month: u32, day: u32, hour: u32, minute: u32, second: u32) -> Timestamp {
    Timestamp::new(year, month, day, hour, minute, second).unwrap()
}

#[test]
fn path_join_inserts_one_separator() {
    assert_eq!(path_join("/home/u/Documents", "SalesNoteBackups"), "/home/u/Documents/SalesNoteBackups");
    assert_eq!(path_join("a", "b"), "a/b");
}

#[test]
fn backup_filename_is_deterministic_and_exact() {
    let t = clock(2024, 3, 5, 9, 2, 11);
    assert_eq!(backup_filename(&t), "sales_backup_20240305_090211.db");
    assert_eq!(backup_filename(&t), backup_filename(&t));
}

#[test]
fn messages_identify_the_failing_step() {
    assert_eq!(
        BackupError::DirectoryResolutionFailed("no documents directory".to_string()).message(),
        "Directory resolution failed: no documents directory"
    );
    assert_eq!(
        BackupError::DirectoryCreationFailed("permission denied".to_string()).message(),
        "Directory creation failed: permission denied"
    );
    assert_eq!(BackupError::ClockUnavailable.message(), "Clock unavailable");
    assert_eq!(BackupError::SourceMissing.message(), "Database file not found");
    assert_eq!(
        BackupError::CopyFailed("disk full".to_string()).message(),
        "Copy failed: disk full"
    );
}

fn dirs_resolved() -> BackupEvent {
    BackupEvent::DirsResolved {
        app_data_dir: "/data/com.salesnote".to_string(),
        documents_dir: "/home/u/Documents".to_string(),
    }
}

#[test]
fn successful_run_copies_and_reports_display_time() {
    let phase = backup_step(BackupPhase::Start, dirs_resolved());
    let paths = match &phase {
        BackupPhase::EnsureDir(p) => p.clone(),
        other => panic!("expected EnsureDir, got {:?}", other),
    };
    assert_eq!(paths.source_path, "/data/com.salesnote/sales.db");
    assert_eq!(paths.backup_dir, "/home/u/Documents/SalesNoteBackups");

    let phase = backup_step(phase, BackupEvent::DirEnsured);
    assert_eq!(phase, BackupPhase::ReadClock(paths));

    let now = clock(2024, 3, 5, 9, 2, 11);
    let phase = backup_step(phase, BackupEvent::ClockRead { now });
    let job = match &phase {
        BackupPhase::CheckSource(j) => j.clone(),
        other => panic!("expected CheckSource, got {:?}", other),
    };
    assert_eq!(job.source_path, "/data/com.salesnote/sales.db");
    assert_eq!(
        job.backup_path,
        "/home/u/Documents/SalesNoteBackups/sales_backup_20240305_090211.db"
    );
    assert_eq!(job.display_time, "09:02");

    let phase = backup_step(phase, BackupEvent::SourceFound);
    assert_eq!(phase, BackupPhase::CopyFile(job));

    let phase = backup_step(phase, BackupEvent::Copied);
    assert_eq!(phase, BackupPhase::Finished(Ok("09:02".to_string())));
}

#[test]
fn absent_source_fails_and_copies_nothing() {
    let phase = backup_step(BackupPhase::Start, dirs_resolved());
    let phase = backup_step(phase, BackupEvent::DirEnsured);
    let now = clock(2024, 3, 5, 9, 2, 11);
    let phase = backup_step(phase, BackupEvent::ClockRead { now });
    let phase = backup_step(phase, BackupEvent::SourceAbsent);
    assert_eq!(phase, BackupPhase::Finished(Err(BackupError::SourceMissing)));

    // The result is final: a later outcome cannot turn it into a success.
    let phase = backup_step(phase, BackupEvent::Copied);
    assert_eq!(phase, BackupPhase::Finished(Err(BackupError::SourceMissing)));
}

#[test]
fn unresolved_directories_fail_resolution() {
    let phase = backup_step(
        BackupPhase::Start,
        BackupEvent::DirsUnavailable { reason: "no documents directory".to_string() },
    );
    assert_eq!(
        phase,
        BackupPhase::Finished(Err(BackupError::DirectoryResolutionFailed(
            "no documents directory".to_string()
        )))
    );
}

#[test]
fn uncreatable_backup_directory_fails_creation() {
    let phase = backup_step(BackupPhase::Start, dirs_resolved());
    let phase = backup_step(
        phase,
        BackupEvent::DirCreationFailed { reason: "permission denied".to_string() },
    );
    assert_eq!(
        phase,
        BackupPhase::Finished(Err(BackupError::DirectoryCreationFailed(
            "permission denied".to_string()
        )))
    );
}

#[test]
fn unrenderable_clock_is_reported() {
    let phase = backup_step(BackupPhase::Start, dirs_resolved());
    let phase = backup_step(phase, BackupEvent::DirEnsured);
    let phase = backup_step(phase, BackupEvent::ClockUnavailable);
    assert_eq!(phase, BackupPhase::Finished(Err(BackupError::ClockUnavailable)));
}

#[test]
fn failed_copy_is_reported() {
    let phase = backup_step(BackupPhase::Start, dirs_resolved());
    let phase = backup_step(phase, BackupEvent::DirEnsured);
    let now = clock(2024, 3, 5, 9, 2, 11);
    let phase = backup_step(phase, BackupEvent::ClockRead { now });
    let phase = backup_step(phase, BackupEvent::SourceFound);
    let phase = backup_step(phase, BackupEvent::CopyFailed { reason: "disk full".to_string() });
    assert_eq!(
        phase,
        BackupPhase::Finished(Err(BackupError::CopyFailed("disk full".to_string())))
    );
}

#[test]
fn existing_directory_is_not_an_error() {
    // The embedding application reports DirEnsured both when it created the
    // directory and when the directory was already there: repeating the
    // operation never fails on an existing backup directory.
    for _ in 0..3 {
        let phase = backup_step(BackupPhase::Start, dirs_resolved());
        let phase = backup_step(phase, BackupEvent::DirEnsured);
        assert!(matches!(phase, BackupPhase::ReadClock(_)));
    }
}

#[test]
fn same_second_runs_collide_on_one_path() {
    let now = clock(2024, 3, 5, 9, 2, 11);
    let run = |now: Timestamp| {
        let phase = backup_step(BackupPhase::Start, dirs_resolved());
        let phase = backup_step(phase, BackupEvent::DirEnsured);
        let phase = backup_step(phase, BackupEvent::ClockRead { now });
        match phase {
            BackupPhase::CheckSource(j) => j.backup_path,
            other => panic!("expected CheckSource, got {:?}", other),
        }
    };
    let first = run(now);
    let second = run(now);
    // The second copy goes to the identical path and overwrites the first.
    assert_eq!(first, second);
}

#[test]
fn unanswered_step_leaves_the_phase() {
    let phase = backup_step(BackupPhase::Start, BackupEvent::Copied);
    assert_eq!(phase, BackupPhase::Start);
}
