use download_core::manager::DownloadManager;
use download_core::queue::Notification;
use download_core::task::DownloadState;
use download_core::task::ErrorKind;
use download_core::task::FailureReason;
use download_core::task::FileIdentity;
use download_core::task::FileMetadata;

fn id(key: u64) -> FileIdentity {
    FileIdentity { key }
}

fn target(size: u64) -> FileMetadata {
    FileMetadata {
        expected_size: Some(size),
    }
}

#[test]
fn completion_pushes_exactly_one_notification() {
    let mut m = DownloadManager::new();
    m.start(id(1), target(1000)).unwrap();
    assert!(m.accept(id(1)));
    assert!(m.report_progress(id(1), 1000));
    assert!(m.report_completed(id(1)));
    assert_eq!(m.pending(), 1);
    // A second completion report for the same task instance is discarded:
    // the task is already terminal.
    assert!(!m.report_completed(id(1)));
    assert_eq!(m.pending(), 1);
    let n = m.drain_one().expect("one notification pending");
    assert_eq!(n, Notification::DownloadedFile(id(1), target(1000)));
}

#[test]
fn completed_notification_matches_completed_snapshot() {
    let mut m = DownloadManager::new();
    m.start(id(1), target(1000)).unwrap();
    assert!(m.accept(id(1)));
    assert!(m.report_progress(id(1), 640));
    assert!(m.report_completed(id(1)));
    let n = m.drain_one().unwrap();
    assert_eq!(n.identity(), id(1));
    let t = m.snapshot(id(1)).unwrap();
    assert_eq!(t.state, DownloadState::Completed);
    // A completed task with a known total has every byte accounted for.
    assert_eq!(t.bytes_done, 1000);
}

#[test]
fn errored_report_carries_reason() {
    let mut m = DownloadManager::new();
    m.start(id(3), target(1000)).unwrap();
    assert!(m.accept(id(3)));
    assert!(m.report_progress(id(3), 200));
    assert!(m.report_errored(id(3), FailureReason::Io));
    let n = m.drain_one().unwrap();
    assert_eq!(
        n,
        Notification::DownloadErrored(id(3), ErrorKind::TransferError(FailureReason::Io))
    );
    let t = m.snapshot(id(3)).unwrap();
    assert_eq!(t.state, DownloadState::Errored);
    assert_eq!(t.error, Some(ErrorKind::TransferError(FailureReason::Io)));
    assert_eq!(t.bytes_done, 200);
}

#[test]
fn cancelled_task_reports_are_silent() {
    let mut m = DownloadManager::new();
    m.start(id(1), target(1000)).unwrap();
    assert!(m.accept(id(1)));
    assert!(m.report_progress(id(1), 999));
    assert_eq!(m.cancel(id(1)), Ok(()));
    // The worker races past cancellation and reports anyway: both outcomes
    // are discarded and nothing ever reaches the queue.
    assert!(!m.report_completed(id(1)));
    assert!(!m.report_errored(id(1), FailureReason::Aborted));
    assert_eq!(m.pending(), 0);
    assert!(m.drain_one().is_none());
    assert!(!m.poll_wake());
    assert_eq!(m.snapshot(id(1)).unwrap().state, DownloadState::Cancelled);
}

#[test]
fn drain_twice_with_no_push_is_empty_the_second_time() {
    let mut m = DownloadManager::new();
    m.start(id(1), target(10)).unwrap();
    assert!(m.accept(id(1)));
    assert!(m.report_completed(id(1)));
    assert!(m.drain_one().is_some());
    assert!(m.drain_one().is_none());
    assert!(m.drain_one().is_none());
}

#[test]
fn drain_on_empty_queue_is_none() {
    let mut m = DownloadManager::new();
    assert!(m.drain_one().is_none());
    assert!(m.drain_one().is_none());
}

#[test]
fn notifications_drain_in_completion_order() {
    let mut m = DownloadManager::new();
    m.start(id(1), target(1000)).unwrap();
    m.start(id(2), target(10)).unwrap();
    assert!(m.accept(id(1)));
    assert!(m.accept(id(2)));
    // The smaller transfer finishes first although it started second.
    assert!(m.report_completed(id(2)));
    assert!(m.report_completed(id(1)));
    let first = m.drain_one().unwrap();
    let second = m.drain_one().unwrap();
    assert_eq!(first.identity(), id(2));
    assert_eq!(second.identity(), id(1));
    assert!(m.drain_one().is_none());
}

#[test]
fn signal_coalesces_multiple_pushes_into_one_wake() {
    let mut m = DownloadManager::new();
    m.start(id(1), target(10)).unwrap();
    m.start(id(2), target(10)).unwrap();
    assert!(m.accept(id(1)));
    assert!(m.accept(id(2)));
    assert!(!m.poll_wake());
    assert!(m.report_completed(id(1)));
    assert!(m.report_completed(id(2)));
    // Two pushes between two checks collapse into one wake...
    assert!(m.poll_wake());
    assert!(!m.poll_wake());
    // ...so the consumer drains until empty on that one wake.
    assert_eq!(m.pending(), 2);
    let drained = m.drain_all();
    assert_eq!(drained.len(), 2);
    assert_eq!(drained[0].identity(), id(1));
    assert_eq!(drained[1].identity(), id(2));
    assert_eq!(m.pending(), 0);
}

#[test]
fn drain_all_on_empty_queue_is_empty() {
    let mut m = DownloadManager::new();
    assert!(m.drain_all().is_empty());
}
