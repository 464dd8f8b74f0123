//! Core data types of the download lifecycle: identities, target metadata,
//! task state, error taxonomy, and the per-task transition steps.

use vstd::prelude::*;

verus! {

/// Opaque key uniquely identifying a downloadable artifact (a model/file pair)
/// within the catalog. Immutable once created; used as the dedup key for
/// "at most one concurrent transfer per file".
#[derive(Clone, Copy, PartialEq, Eq, Structural, Debug, Hash)]
pub struct FileIdentity {
    pub key: u64,
}

/// Target descriptor for a transfer: what the catalog announces about the
/// file before any byte is moved.
#[derive(Clone, Copy, PartialEq, Eq, Debug)]
pub struct FileMetadata {
    /// Expected size in bytes, when the catalog announces one.
    pub expected_size: Option<u64>,
}

/// Lifecycle state of one transfer task instance.
/// `Completed`, `Errored` and `Cancelled` are terminal for the instance;
/// a fresh attempt after a terminal state is a new `Queued` task.
#[derive(Clone, Copy, PartialEq, Eq, Structural, Debug)]
pub enum DownloadState {
    Queued,
    Downloading,
    Paused,
    Completed,
    Errored,
    Cancelled,
}

impl DownloadState {
    /// A terminal state is never left by the same task instance.
    pub open spec fn spec_terminal(&self) -> bool {
        self is Completed || self is Errored || self is Cancelled
    }

    #[verifier::when_used_as_spec(spec_terminal)]
    pub fn is_terminal(&self) -> (r: bool)
        ensures
            r == self.spec_terminal(),
    {
        match self {
            DownloadState::Completed => true,
            DownloadState::Errored => true,
            DownloadState::Cancelled => true,
            _ => false,
        }
    }
}

/// Why a transfer failed, as reported by the worker that ran it.
#[derive(Clone, Copy, PartialEq, Eq, Structural, Debug)]
pub enum FailureReason {
    Io,
    Network,
    Verification,
    Aborted,
}

/// Error taxonomy of the core: control-operation errors are returned
/// synchronously; transfer errors travel through the notification pipeline.
#[derive(Clone, Copy, PartialEq, Eq, Structural, Debug)]
pub enum ErrorKind {
    /// A control operation addressed an identity whose task is already in
    /// flight; non-fatal and ignorable.
    AlreadyInProgress,
    /// A control operation addressed an untracked identity; non-fatal.
    NotFound,
    /// An I/O, network or verification failure during a transfer, reported
    /// via a notification rather than a return value.
    TransferError(FailureReason),
}

/// One file transfer: identity, target, progress, and lifecycle state.
/// Owned exclusively by the registry; handed out only as read-only copies.
#[derive(Clone, Copy, PartialEq, Eq, Debug)]
pub struct DownloadTask {
    pub id: FileIdentity,
    pub state: DownloadState,
    pub bytes_total: Option<u64>,
    pub bytes_done: u64,
    pub error: Option<ErrorKind>,
}

impl DownloadTask {
    /// Well-formedness of a single task: progress never exceeds the known
    /// total, the error field is set exactly in `Errored`, and a completed
    /// task with a known total has all its bytes.
    pub open spec fn wf(self) -> bool {
        &&& (self.bytes_total matches Some(t) ==> self.bytes_done <= t)
        &&& (self.error is Some <==> self.state is Errored)
        &&& (self.state is Completed ==> (self.bytes_total matches Some(t) ==> self.bytes_done
            == t))
    }

    /// A live (non-terminal) task occupies its identity: no second task for
    /// the same file may exist while one is live.
    pub open spec fn is_live(self) -> bool {
        !self.state.spec_terminal()
    }
}

/// The task a first `Download` action creates: queued, nothing transferred.
pub open spec fn spec_fresh_task(f: FileIdentity, target: FileMetadata) -> DownloadTask {
    DownloadTask {
        id: f,
        state: DownloadState::Queued,
        bytes_total: target.expected_size,
        bytes_done: 0,
        error: None,
    }
}

#[verifier::when_used_as_spec(spec_fresh_task)]
pub fn fresh_task(f: FileIdentity, target: FileMetadata) -> (t: DownloadTask)
    ensures
        t == spec_fresh_task(f, target),
{
    DownloadTask {
        id: f,
        state: DownloadState::Queued,
        bytes_total: target.expected_size,
        bytes_done: 0,
        error: None,
    }
}

/// Effect of a `Download` action on an existing task for the same identity:
/// a paused task resumes in place (progress kept), a queued or downloading
/// task is left alone (the action is idempotent), and a terminal task is
/// replaced by a fresh queued instance.
pub open spec fn start_step(t: DownloadTask, target: FileMetadata) -> DownloadTask {
    if t.state is Paused {
        DownloadTask { state: DownloadState::Downloading, ..t }
    } else if t.state is Queued || t.state is Downloading {
        t
    } else {
        spec_fresh_task(t.id, target)
    }
}

/// Effect of a `Pause` action: only a downloading task pauses; every other
/// state is left alone.
pub open spec fn pause_step(t: DownloadTask) -> DownloadTask {
    if t.state is Downloading {
        DownloadTask { state: DownloadState::Paused, ..t }
    } else {
        t
    }
}

/// Effect of a `Cancel` action: any live task is cancelled; a terminal task
/// is left alone.
pub open spec fn cancel_step(t: DownloadTask) -> DownloadTask {
    if t.is_live() {
        DownloadTask { state: DownloadState::Cancelled, ..t }
    } else {
        t
    }
}

/// Effect of a worker accepting a queued task and opening the transfer.
pub open spec fn accept_step(t: DownloadTask) -> DownloadTask {
    if t.state is Queued {
        DownloadTask { state: DownloadState::Downloading, ..t }
    } else {
        t
    }
}

/// Effect of a worker progress report. Only a downloading task advances, and
/// only monotonically, never past a known total; any other report (stale,
/// regressing, or oversized) is discarded.
pub open spec fn progress_step(t: DownloadTask, bytes: u64) -> DownloadTask {
    if t.state is Downloading && bytes >= t.bytes_done && (t.bytes_total matches Some(tot)
        ==> bytes <= tot) {
        DownloadTask { bytes_done: bytes, ..t }
    } else {
        t
    }
}

/// Effect of a worker completion report. Only a downloading task completes —
/// a task cancelled or paused mid-flight discards the report — and a known
/// total is fully accounted for on completion.
pub open spec fn complete_step(t: DownloadTask) -> DownloadTask {
    if t.state is Downloading {
        DownloadTask {
            state: DownloadState::Completed,
            bytes_done: match t.bytes_total {
                Some(tot) => tot,
                None => t.bytes_done,
            },
            ..t
        }
    } else {
        t
    }
}

/// Effect of a worker failure report. Only a downloading task errors; the
/// failure reason is recorded on the task.
pub open spec fn errored_step(t: DownloadTask, reason: FailureReason) -> DownloadTask {
    if t.state is Downloading {
        DownloadTask {
            state: DownloadState::Errored,
            error: Some(ErrorKind::TransferError(reason)),
            ..t
        }
    } else {
        t
    }
}

} // verus!
