//! The download lifecycle manager: the assembly of registry, notification
//! queue and wake-up signal. Control operations (start / pause / cancel /
//! snapshot) touch only the task map; worker terminal reports update the
//! task's state first and only then, and only when the transition actually
//! happened, make a notification visible and raise the signal — so the
//! consumer never observes a notification for a task whose snapshot still
//! reads `Downloading`, and a cancelled task never produces one at all.

use vstd::prelude::*;

use crate::queue::NotificationQueue;
use crate::queue::Notification;
use crate::queue::drain_rest;
use crate::queue::drained_item;
use crate::registry::DownloadRegistry;
use crate::registry::cancel_post;
use crate::registry::control_result;
use crate::registry::has_task;
use crate::registry::lemma_task_of_unique;
use crate::registry::pause_post;
use crate::registry::start_post;
use crate::registry::start_result;
use crate::registry::stepped_post;
use crate::registry::task_of;
use crate::registry::tasks_wf;
use crate::signal::SignalChannel;
use crate::task::DownloadTask;
use crate::task::ErrorKind;
use crate::task::FailureReason;
use crate::task::FileIdentity;
use crate::task::FileMetadata;
use crate::task::accept_step;
use crate::task::complete_step;
use crate::task::errored_step;
use crate::task::progress_step;

verus! {

/// Abstract state of the whole manager: the task map, the pending
/// notifications in FIFO order, and whether a wake is pending.
pub struct ManagerView {
    pub tasks: Seq<DownloadTask>,
    pub queue: Seq<Notification>,
    pub signal: bool,
}

impl ManagerView {
    /// The manager's invariant is the task map's well-formedness.
    pub open spec fn inv(self) -> bool {
        tasks_wf(self.tasks)
    }
}

/// The notification a completed transfer produces: the identity plus the
/// metadata the task was started with.
pub open spec fn completed_notification(f: FileIdentity, meta: FileMetadata) -> Notification {
    Notification::DownloadedFile(f, meta)
}

/// The notification a failed transfer produces: the identity plus the
/// transfer error carrying the worker's reason.
pub open spec fn errored_notification(f: FileIdentity, reason: FailureReason) -> Notification {
    Notification::DownloadErrored(f, ErrorKind::TransferError(reason))
}

/// Whether a completion or failure report for `f` takes effect on `pre`:
/// exactly when a task for `f` is tracked and downloading. A report for a
/// cancelled, paused, queued, terminal or untracked identity is discarded.
pub open spec fn report_fires(pre: Seq<DownloadTask>, f: FileIdentity) -> bool {
    has_task(pre, f) && task_of(pre, f).state is Downloading
}

/// Manager-wide effect of a worker completion report: when it fires, the
/// task steps to `Completed`, its notification is appended, and the signal
/// is raised; otherwise nothing changes anywhere.
pub open spec fn report_completed_post(pre: ManagerView, post: ManagerView, f: FileIdentity) -> bool {
    if report_fires(pre.tasks, f) {
        &&& stepped_post(pre.tasks, post.tasks, f, |t: DownloadTask| complete_step(t))
        &&& post.queue == pre.queue.push(
            completed_notification(
                f,
                FileMetadata { expected_size: task_of(pre.tasks, f).bytes_total },
            ),
        )
        &&& post.signal
    } else {
        &&& post.tasks == pre.tasks
        &&& post.queue == pre.queue
        &&& post.signal == pre.signal
    }
}

/// Manager-wide effect of a worker failure report: when it fires, the task
/// steps to `Errored` with the reason, its notification is appended, and the
/// signal is raised; otherwise nothing changes anywhere.
pub open spec fn report_errored_post(
    pre: ManagerView,
    post: ManagerView,
    f: FileIdentity,
    reason: FailureReason,
) -> bool {
    if report_fires(pre.tasks, f) {
        &&& stepped_post(pre.tasks, post.tasks, f, |t: DownloadTask| errored_step(t, reason))
        &&& post.queue == pre.queue.push(errored_notification(f, reason))
        &&& post.signal
    } else {
        &&& post.tasks == pre.tasks
        &&& post.queue == pre.queue
        &&& post.signal == pre.signal
    }
}

/// Owns the registry, the notification queue and the signal channel, and is
/// the only writer of all three.
pub struct DownloadManager {
    registry: DownloadRegistry,
    queue: NotificationQueue,
    signal: SignalChannel,
}

impl View for DownloadManager {
    type V = ManagerView;

    closed spec fn view(&self) -> ManagerView {
        ManagerView { tasks: self.registry@, queue: self.queue@, signal: self.signal@ }
    }
}

impl DownloadManager {
    /// A manager with nothing tracked, nothing queued, no wake pending.
    pub fn new() -> (m: DownloadManager)
        ensures
            m@.inv(),
            m@.tasks =~= Seq::<DownloadTask>::empty(),
            m@.queue =~= Seq::<Notification>::empty(),
            !m@.signal,
    {
        DownloadManager {
            registry: DownloadRegistry::new(),
            queue: NotificationQueue::new(),
            signal: SignalChannel::new(),
        }
    }

    /// `Download` action: create, resume, or idempotently ignore, per the
    /// registry's contract. Queue and signal are untouched — starting is a
    /// foreground control operation, not a reportable outcome.
    pub fn start(&mut self, f: FileIdentity, target: FileMetadata) -> (r: Result<(), ErrorKind>)
        requires
            old(self)@.inv(),
        ensures
            final(self)@.inv(),
            start_post(old(self)@.tasks, final(self)@.tasks, f, target),
            r == start_result(old(self)@.tasks, f),
            final(self)@.queue == old(self)@.queue,
            final(self)@.signal == old(self)@.signal,
    {
        self.registry.start(f, target)
    }

    /// `Pause` action: pause a downloading task in place; queue and signal
    /// untouched.
    pub fn pause(&mut self, f: FileIdentity) -> (r: Result<(), ErrorKind>)
        requires
            old(self)@.inv(),
        ensures
            final(self)@.inv(),
            pause_post(old(self)@.tasks, final(self)@.tasks, f),
            r == control_result(old(self)@.tasks, f),
            final(self)@.queue == old(self)@.queue,
            final(self)@.signal == old(self)@.signal,
    {
        self.registry.pause(f)
    }

    /// `Cancel` action: cancel any live task. Cancellation is silent: the
    /// queue and the signal are untouched, now and also later, because a
    /// cancelled task discards any subsequent worker report.
    pub fn cancel(&mut self, f: FileIdentity) -> (r: Result<(), ErrorKind>)
        requires
            old(self)@.inv(),
        ensures
            final(self)@.inv(),
            cancel_post(old(self)@.tasks, final(self)@.tasks, f),
            r == control_result(old(self)@.tasks, f),
            final(self)@.queue == old(self)@.queue,
            final(self)@.signal == old(self)@.signal,
    {
        self.registry.cancel(f)
    }

    /// Read-only copy of the task for `f`, for progress display.
    pub fn snapshot(&self, f: FileIdentity) -> (r: Option<DownloadTask>)
        requires
            self@.inv(),
        ensures
            match r {
                Some(t) => has_task(self@.tasks, f) && t == task_of(self@.tasks, f) && t.id == f,
                None => !has_task(self@.tasks, f),
            },
    {
        self.registry.snapshot(f)
    }

    /// Worker handshake: the worker accepted `f`'s queued task and opened
    /// the transfer. Queue and signal untouched.
    pub fn accept(&mut self, f: FileIdentity) -> (accepted: bool)
        requires
            old(self)@.inv(),
        ensures
            final(self)@.inv(),
            if has_task(old(self)@.tasks, f) {
                stepped_post(old(self)@.tasks, final(self)@.tasks, f, |t: DownloadTask| accept_step(t))
            } else {
                final(self)@.tasks == old(self)@.tasks
            },
            accepted == (has_task(old(self)@.tasks, f) && task_of(old(self)@.tasks, f).state
                is Queued),
            final(self)@.queue == old(self)@.queue,
            final(self)@.signal == old(self)@.signal,
    {
        self.registry.mark_accepted(f)
    }

    /// Worker progress report: progress labels only, no notification and no
    /// wake — intermediate updates may coalesce and only snapshots carry
    /// them to readers.
    pub fn report_progress(&mut self, f: FileIdentity, bytes: u64) -> (applied: bool)
        requires
            old(self)@.inv(),
        ensures
            final(self)@.inv(),
            if has_task(old(self)@.tasks, f) {
                stepped_post(
                    old(self)@.tasks,
                    final(self)@.tasks,
                    f,
                    |t: DownloadTask| progress_step(t, bytes),
                )
            } else {
                final(self)@.tasks == old(self)@.tasks
            },
            applied == (has_task(old(self)@.tasks, f) && progress_step(
                task_of(old(self)@.tasks, f),
                bytes,
            ) != task_of(old(self)@.tasks, f)),
            final(self)@.queue == old(self)@.queue,
            final(self)@.signal == old(self)@.signal,
    {
        self.registry.mark_progress(f, bytes)
    }

    /// Worker completion report. The task's state is settled to `Completed`
    /// strictly before its notification becomes visible, and the
    /// notification is pushed exactly when the transition fired — a report
    /// racing a cancellation (or pause) is discarded with nothing queued.
    pub fn report_completed(&mut self, f: FileIdentity) -> (notified: bool)
        requires
            old(self)@.inv(),
        ensures
            final(self)@.inv(),
            report_completed_post(old(self)@, final(self)@, f),
            notified == report_fires(old(self)@.tasks, f),
    {
        match self.registry.mark_completed(f) {
            Some(meta) => {
                self.queue.push(Notification::DownloadedFile(f, meta));
                self.signal.raise();
                true
            },
            None => {
                proof {
                    let pre = old(self)@.tasks;
                    if has_task(pre, f) {
                        assert forall|i: int| 0 <= i < pre.len() implies self@.tasks[i]
                            == pre[i] by {
                            if pre[i].id == f {
                                lemma_task_of_unique(pre, f, i);
                            }
                        }
                        assert(self@.tasks =~= pre);
                    }
                }
                false
            },
        }
    }

    /// Worker failure report. As with completion: state first, then exactly
    /// one notification when and only when the transition fired.
    pub fn report_errored(&mut self, f: FileIdentity, reason: FailureReason) -> (notified: bool)
        requires
            old(self)@.inv(),
        ensures
            final(self)@.inv(),
            report_errored_post(old(self)@, final(self)@, f, reason),
            notified == report_fires(old(self)@.tasks, f),
    {
        let fired = self.registry.mark_errored(f, reason);
        if fired {
            self.queue.push(Notification::DownloadErrored(f, ErrorKind::TransferError(reason)));
            self.signal.raise();
        } else {
            proof {
                let pre = old(self)@.tasks;
                if has_task(pre, f) {
                    assert forall|i: int| 0 <= i < pre.len() implies self@.tasks[i] == pre[i] by {
                        if pre[i].id == f {
                            lemma_task_of_unique(pre, f, i);
                        }
                    }
                    assert(self@.tasks =~= pre);
                }
            }
        }
        fired
    }

    /// Foreground, once per tick: report whether workers signalled since the
    /// last tick, and clear the signal. Cheap when nothing is pending. On a
    /// wake the consumer should drain until empty — wakes coalesce.
    pub fn poll_wake(&mut self) -> (woken: bool)
        requires
            old(self)@.inv(),
        ensures
            final(self)@.inv(),
            woken == old(self)@.signal,
            !final(self)@.signal,
            final(self)@.tasks == old(self)@.tasks,
            final(self)@.queue == old(self)@.queue,
    {
        self.signal.take()
    }

    /// Foreground, non-blocking: consume the oldest pending notification.
    pub fn drain_one(&mut self) -> (r: Option<Notification>)
        requires
            old(self)@.inv(),
        ensures
            final(self)@.inv(),
            r == drained_item(old(self)@.queue),
            final(self)@.queue == drain_rest(old(self)@.queue),
            final(self)@.tasks == old(self)@.tasks,
            final(self)@.signal == old(self)@.signal,
    {
        self.queue.drain_one()
    }

    /// Foreground: consume every pending notification, oldest first — the
    /// "drain until empty" a coalesced wake calls for. Returns them in the
    /// order they were pushed.
    pub fn drain_all(&mut self) -> (drained: Vec<Notification>)
        requires
            old(self)@.inv(),
        ensures
            final(self)@.inv(),
            drained@ == old(self)@.queue,
            final(self)@.queue =~= Seq::<Notification>::empty(),
            final(self)@.tasks == old(self)@.tasks,
            final(self)@.signal == old(self)@.signal,
    {
        let ghost orig = self@;
        let mut drained: Vec<Notification> = Vec::new();
        proof {
            assert(orig.queue =~= drained@ + self@.queue);
        }
        loop
            invariant
                self@.inv(),
                orig.queue == drained@ + self@.queue,
                self@.tasks == orig.tasks,
                self@.signal == orig.signal,
            ensures
                self@.inv(),
                drained@ == orig.queue,
                self@.queue.len() == 0,
                self@.tasks == orig.tasks,
                self@.signal == orig.signal,
            decreases self@.queue.len(),
        {
            match self.queue.drain_one() {
                Some(n) => {
                    drained.push(n);
                    proof {
                        assert(orig.queue =~= drained@ + self@.queue);
                    }
                },
                None => {
                    proof {
                        assert(drained@ =~= orig.queue);
                    }
                    break;
                },
            }
        }
        proof {
            assert(self@.queue =~= Seq::<Notification>::empty());
        }
        drained
    }

    /// Number of pending notifications.
    pub fn pending(&self) -> (n: usize)
        ensures
            n == self@.queue.len(),
    {
        self.queue.len()
    }

    /// Number of tracked tasks (live and terminal together).
    pub fn tracked_tasks(&self) -> (n: usize)
        ensures
            n == self@.tasks.len(),
    {
        self.registry.len()
    }
}

} // verus!
