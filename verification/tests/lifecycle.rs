use download_core::manager::DownloadManager;
use download_core::task::DownloadState;
use download_core::task::ErrorKind;
use download_core::task::FileIdentity;
use download_core::task::FileMetadata;

fn id(key: u64) -> FileIdentity {
    FileIdentity { key }
}

fn target(size: u64) -> FileMetadata {
    FileMetadata {
        expected_size: Some(size),
    }
}

#[test]
fn start_creates_queued_task() {
    let mut m = DownloadManager::new();
    assert_eq!(m.start(id(1), target(1000)), Ok(()));
    let t = m.snapshot(id(1)).expect("task must be tracked");
    assert_eq!(t.state, DownloadState::Queued);
    assert_eq!(t.bytes_done, 0);
    assert_eq!(t.bytes_total, Some(1000));
    assert_eq!(t.error, None);
    assert_eq!(m.tracked_tasks(), 1);
}

#[test]
fn duplicate_start_is_already_in_progress() {
    let mut m = DownloadManager::new();
    assert_eq!(m.start(id(1), target(1000)), Ok(()));
    assert_eq!(
        m.start(id(1), target(1000)),
        Err(ErrorKind::AlreadyInProgress)
    );
    assert!(m.accept(id(1)));
    assert_eq!(
        m.start(id(1), target(1000)),
        Err(ErrorKind::AlreadyInProgress)
    );
    // Duplicate clicks never create a second task for the identity.
    assert_eq!(m.tracked_tasks(), 1);
    let t = m.snapshot(id(1)).unwrap();
    assert_eq!(t.state, DownloadState::Downloading);
}

#[test]
fn pause_unknown_identity_is_not_found() {
    let mut m = DownloadManager::new();
    assert_eq!(m.pause(id(9)), Err(ErrorKind::NotFound));
}

#[test]
fn cancel_unknown_identity_is_not_found() {
    let mut m = DownloadManager::new();
    assert_eq!(m.cancel(id(9)), Err(ErrorKind::NotFound));
}

#[test]
fn snapshot_unknown_identity_is_none() {
    let m = DownloadManager::new();
    assert!(m.snapshot(id(9)).is_none());
}

#[test]
fn pause_of_queued_task_is_a_noop() {
    let mut m = DownloadManager::new();
    m.start(id(1), target(1000)).unwrap();
    assert_eq!(m.pause(id(1)), Ok(()));
    assert_eq!(m.snapshot(id(1)).unwrap().state, DownloadState::Queued);
}

#[test]
fn pause_resume_keeps_progress() {
    let mut m = DownloadManager::new();
    m.start(id(1), target(1000)).unwrap();
    assert!(m.accept(id(1)));
    assert!(m.report_progress(id(1), 400));
    assert_eq!(m.pause(id(1)), Ok(()));
    let paused = m.snapshot(id(1)).unwrap();
    assert_eq!(paused.state, DownloadState::Paused);
    assert_eq!(paused.bytes_done, 400);
    // Starting the same identity again resumes in place, not from zero.
    assert_eq!(m.start(id(1), target(1000)), Ok(()));
    let resumed = m.snapshot(id(1)).unwrap();
    assert_eq!(resumed.state, DownloadState::Downloading);
    assert!(resumed.bytes_done >= paused.bytes_done);
    assert_eq!(resumed.bytes_done, 400);
    assert_eq!(m.tracked_tasks(), 1);
}

#[test]
fn cancel_live_task_is_terminal() {
    let mut m = DownloadManager::new();
    m.start(id(1), target(1000)).unwrap();
    assert!(m.accept(id(1)));
    assert_eq!(m.cancel(id(1)), Ok(()));
    assert_eq!(m.snapshot(id(1)).unwrap().state, DownloadState::Cancelled);
    // Cancelling again is an accepted no-op.
    assert_eq!(m.cancel(id(1)), Ok(()));
    assert_eq!(m.snapshot(id(1)).unwrap().state, DownloadState::Cancelled);
}

#[test]
fn progress_is_monotonic() {
    let mut m = DownloadManager::new();
    m.start(id(1), target(1000)).unwrap();
    assert!(m.accept(id(1)));
    assert!(m.report_progress(id(1), 400));
    // A regressing report is discarded.
    assert!(!m.report_progress(id(1), 300));
    assert_eq!(m.snapshot(id(1)).unwrap().bytes_done, 400);
}

#[test]
fn progress_never_exceeds_known_total() {
    let mut m = DownloadManager::new();
    m.start(id(1), target(1000)).unwrap();
    assert!(m.accept(id(1)));
    assert!(!m.report_progress(id(1), 1500));
    assert_eq!(m.snapshot(id(1)).unwrap().bytes_done, 0);
    assert!(m.report_progress(id(1), 1000));
    assert_eq!(m.snapshot(id(1)).unwrap().bytes_done, 1000);
}

#[test]
fn progress_on_paused_task_is_discarded() {
    let mut m = DownloadManager::new();
    m.start(id(1), target(1000)).unwrap();
    assert!(m.accept(id(1)));
    assert!(m.report_progress(id(1), 100));
    m.pause(id(1)).unwrap();
    assert!(!m.report_progress(id(1), 700));
    assert_eq!(m.snapshot(id(1)).unwrap().bytes_done, 100);
}

#[test]
fn unknown_total_accepts_any_monotonic_progress() {
    let mut m = DownloadManager::new();
    m.start(id(1), FileMetadata { expected_size: None }).unwrap();
    assert!(m.accept(id(1)));
    assert!(m.report_progress(id(1), 123_456_789));
    assert_eq!(m.snapshot(id(1)).unwrap().bytes_done, 123_456_789);
}

#[test]
fn accept_only_moves_queued_tasks() {
    let mut m = DownloadManager::new();
    m.start(id(1), target(1000)).unwrap();
    assert!(m.accept(id(1)));
    assert!(!m.accept(id(1)));
    assert!(!m.accept(id(2)));
    assert_eq!(m.snapshot(id(1)).unwrap().state, DownloadState::Downloading);
}
