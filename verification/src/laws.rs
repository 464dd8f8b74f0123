//! The system-wide guarantees of the download core, stated and proved over
//! the same spec functions the executable operations' contracts use: one
//! task per identity, resume keeps progress, cancellation is silent, a
//! completed notification matches a completed snapshot, and draining never
//! duplicates.

use vstd::prelude::*;

use crate::manager::ManagerView;
use crate::manager::completed_notification;
use crate::manager::report_completed_post;
use crate::manager::report_errored_post;
use crate::manager::report_fires;
use crate::queue::Notification;
use crate::queue::drain_rest;
use crate::queue::drained_item;
use crate::registry::cancel_post;
use crate::registry::has_task;
use crate::registry::lemma_stepped_wf;
use crate::registry::lemma_task_of_unique;
use crate::registry::pause_post;
use crate::registry::start_post;
use crate::registry::task_of;
use crate::registry::tasks_wf;
use crate::task::DownloadTask;
use crate::task::FailureReason;
use crate::task::FileIdentity;
use crate::task::FileMetadata;
use crate::task::cancel_step;
use crate::task::pause_step;
use crate::task::start_step;

verus! {

/// For any identity, a well-formed task map never holds two tasks for it at
/// once — in particular never two in a non-terminal state. Any two indices
/// carrying the identity coincide.
pub proof fn lemma_at_most_one_task_per_identity(
    s: Seq<DownloadTask>,
    f: FileIdentity,
    i: int,
    j: int,
)
    requires
        tasks_wf(s),
        0 <= i < s.len(),
        0 <= j < s.len(),
        s[i].id == f,
        s[j].id == f,
    ensures
        i == j,
{
    assert(s[i].id == s[j].id);
}

/// Pausing a downloading task and then starting the same identity again
/// resumes it in place: the task is downloading once more and its byte
/// count is exactly what it was before the pause — progress is never lost
/// (and in particular never decreases) across the pause/resume boundary.
pub proof fn lemma_pause_then_start_resumes(
    s0: Seq<DownloadTask>,
    s1: Seq<DownloadTask>,
    s2: Seq<DownloadTask>,
    f: FileIdentity,
    target: FileMetadata,
)
    requires
        tasks_wf(s0),
        has_task(s0, f),
        task_of(s0, f).state is Downloading,
        pause_post(s0, s1, f),
        start_post(s1, s2, f, target),
    ensures
        has_task(s2, f),
        task_of(s2, f).state is Downloading,
        task_of(s2, f).bytes_done == task_of(s0, f).bytes_done,
        task_of(s2, f).bytes_total == task_of(s0, f).bytes_total,
{
    let i = choose|i: int| 0 <= i < s0.len() && s0[i].id == f;
    lemma_task_of_unique(s0, f, i);
    assert(s1[i] == pause_step(s0[i]));
    lemma_stepped_wf(s0, s1);
    lemma_task_of_unique(s1, f, i);
    assert(s2[i] == start_step(s1[i], target));
    lemma_stepped_wf(s1, s2);
    lemma_task_of_unique(s2, f, i);
}

/// Cancelling a task in any non-terminal state silences it: a worker
/// completion or failure report arriving afterwards — even one racing a
/// near-complete transfer — changes nothing and pushes no notification, so
/// a cancelled identity never reaches the notification pipeline.
pub proof fn lemma_cancel_is_silent(
    pre: ManagerView,
    mid: ManagerView,
    after_complete: ManagerView,
    after_error: ManagerView,
    f: FileIdentity,
    reason: FailureReason,
)
    requires
        pre.inv(),
        has_task(pre.tasks, f),
        !task_of(pre.tasks, f).state.spec_terminal(),
        cancel_post(pre.tasks, mid.tasks, f),
        report_completed_post(mid, after_complete, f),
        report_errored_post(mid, after_error, f, reason),
    ensures
        after_complete.queue == mid.queue,
        after_complete.tasks == mid.tasks,
        after_complete.signal == mid.signal,
        after_error.queue == mid.queue,
        after_error.tasks == mid.tasks,
        after_error.signal == mid.signal,
{
    let i = choose|i: int| 0 <= i < pre.tasks.len() && pre.tasks[i].id == f;
    lemma_task_of_unique(pre.tasks, f, i);
    assert(mid.tasks[i] == cancel_step(pre.tasks[i]));
    lemma_stepped_wf(pre.tasks, mid.tasks);
    lemma_task_of_unique(mid.tasks, f, i);
    assert(task_of(mid.tasks, f).state is Cancelled);
    assert(!report_fires(mid.tasks, f));
}

/// Every completed notification corresponds to a task whose snapshot after
/// the report is `Completed`, with every byte of a known total accounted
/// for: the notification pushed is exactly the completion record for the
/// reported identity, and it is pushed only together with that state.
pub proof fn lemma_completed_notification_matches_state(
    pre: ManagerView,
    post: ManagerView,
    f: FileIdentity,
)
    requires
        pre.inv(),
        report_completed_post(pre, post, f),
        post.queue.len() != pre.queue.len(),
    ensures
        post.queue == pre.queue.push(
            completed_notification(
                f,
                FileMetadata { expected_size: task_of(pre.tasks, f).bytes_total },
            ),
        ),
        has_task(post.tasks, f),
        task_of(post.tasks, f).state is Completed,
        task_of(post.tasks, f).bytes_total matches Some(t) ==> task_of(post.tasks, f).bytes_done
            == t,
        post.signal,
{
    assert(report_fires(pre.tasks, f));
    let i = choose|i: int| 0 <= i < pre.tasks.len() && pre.tasks[i].id == f;
    lemma_task_of_unique(pre.tasks, f, i);
    lemma_stepped_wf(pre.tasks, post.tasks);
    lemma_task_of_unique(post.tasks, f, i);
}

/// A terminal outcome is produced exactly once per task instance: when a
/// worker report fires it appends exactly one notification and leaves the
/// task terminal, so no further report for that identity can fire — and a
/// report that does not fire never touches the queue at all.
pub proof fn lemma_terminal_outcome_reported_once(
    pre: ManagerView,
    after_complete: ManagerView,
    after_error: ManagerView,
    f: FileIdentity,
    reason: FailureReason,
)
    requires
        pre.inv(),
        report_completed_post(pre, after_complete, f),
        report_errored_post(pre, after_error, f, reason),
    ensures
        report_fires(pre.tasks, f) ==> after_complete.queue.len() == pre.queue.len() + 1
            && !report_fires(after_complete.tasks, f) && after_error.queue.len()
            == pre.queue.len() + 1 && !report_fires(after_error.tasks, f),
        !report_fires(pre.tasks, f) ==> after_complete.queue == pre.queue && after_error.queue
            == pre.queue,
{
    if report_fires(pre.tasks, f) {
        let i = choose|i: int| 0 <= i < pre.tasks.len() && pre.tasks[i].id == f;
        lemma_task_of_unique(pre.tasks, f, i);
        lemma_stepped_wf(pre.tasks, after_complete.tasks);
        lemma_task_of_unique(after_complete.tasks, f, i);
        lemma_stepped_wf(pre.tasks, after_error.tasks);
        lemma_task_of_unique(after_error.tasks, f, i);
    }
}

/// Draining is consumption: each drain removes what it returns, so draining
/// twice with no intervening push never hands out the same notification
/// occurrence twice, and a queue emptied by the first drain returns `None`
/// the second time.
pub proof fn lemma_drain_twice_no_duplication(q: Seq<Notification>)
    ensures
        q.len() == 0 ==> drained_item(q) is None && drained_item(drain_rest(q)) is None,
        q.len() == 1 ==> drained_item(q) == Some(q[0]) && drained_item(drain_rest(q)) is None,
        q.len() >= 2 ==> drained_item(q) == Some(q[0]) && drained_item(drain_rest(q)) == Some(
            q[1],
        ) && drain_rest(drain_rest(q)) == q.skip(2),
{
    if q.len() >= 2 {
        assert(drain_rest(drain_rest(q)) =~= q.skip(2));
    }
}

} // verus!
