//! The download registry: sole owner of the task map. It enforces at most
//! one task per file identity, exposes the control operations
//! (start / pause / cancel / snapshot), and applies the state-only updates
//! that transfer workers report (accepted, progress, completed, errored).
//! The registry never performs I/O; it only labels tasks.

use vstd::prelude::*;

use crate::task::DownloadState;
use crate::task::DownloadTask;
use crate::task::ErrorKind;
use crate::task::FailureReason;
use crate::task::FileIdentity;
use crate::task::FileMetadata;
use crate::task::accept_step;
use crate::task::cancel_step;
use crate::task::complete_step;
use crate::task::errored_step;
use crate::task::fresh_task;
use crate::task::pause_step;
use crate::task::progress_step;
use crate::task::spec_fresh_task;
use crate::task::start_step;

verus! {

/// Some task in `s` carries identity `f`.
pub open spec fn has_task(s: Seq<DownloadTask>, f: FileIdentity) -> bool {
    exists|i: int| 0 <= i < s.len() && s[i].id == f
}

/// The task in `s` carrying identity `f` (meaningful under `tasks_wf`, which
/// makes that task unique, and `has_task`).
pub open spec fn task_of(s: Seq<DownloadTask>, f: FileIdentity) -> DownloadTask {
    s[choose|i: int| 0 <= i < s.len() && s[i].id == f]
}

/// Well-formedness of the task map: every task is well-formed, and no two
/// tasks carry the same identity.
pub open spec fn tasks_wf(s: Seq<DownloadTask>) -> bool {
    &&& forall|i: int| 0 <= i < s.len() ==> (#[trigger] s[i]).wf()
    &&& forall|i: int, j: int|
        #![trigger s[i].id, s[j].id]
        0 <= i < s.len() && 0 <= j < s.len() && s[i].id == s[j].id ==> i == j
}

/// Under `tasks_wf`, an index holding identity `f` is the one `task_of`
/// denotes: the identity determines the task.
pub proof fn lemma_task_of_unique(s: Seq<DownloadTask>, f: FileIdentity, i: int)
    requires
        tasks_wf(s),
        0 <= i < s.len(),
        s[i].id == f,
    ensures
        has_task(s, f),
        task_of(s, f) == s[i],
{
    assert(has_task(s, f));
    let j = choose|j: int| 0 <= j < s.len() && s[j].id == f;
    assert(s[j].id == s[i].id);
}

/// Pointwise description of one control or worker operation on the task map:
/// every task for `f` becomes `stepped`, every other task is untouched, and
/// nothing is added or removed.
pub open spec fn stepped_post(
    pre: Seq<DownloadTask>,
    post: Seq<DownloadTask>,
    f: FileIdentity,
    stepped: spec_fn(DownloadTask) -> DownloadTask,
) -> bool {
    &&& post.len() == pre.len()
    &&& forall|i: int|
        #![trigger post[i]]
        0 <= i < pre.len() ==> post[i] == (if pre[i].id == f {
            stepped(pre[i])
        } else {
            pre[i]
        })
}

/// Task-map effect of `start(f, target)`: a tracked identity is stepped in
/// place (resume / no-op / fresh replacement per `start_step`); an untracked
/// identity gains a fresh queued task.
pub open spec fn start_post(
    pre: Seq<DownloadTask>,
    post: Seq<DownloadTask>,
    f: FileIdentity,
    target: FileMetadata,
) -> bool {
    if has_task(pre, f) {
        stepped_post(pre, post, f, |t: DownloadTask| start_step(t, target))
    } else {
        post == pre.push(spec_fresh_task(f, target))
    }
}

/// Result of `start(f, _)`: `AlreadyInProgress` exactly when a queued or
/// downloading task for `f` exists (the call is then a no-op); `Ok` when a
/// paused task resumes or a fresh task is created.
pub open spec fn start_result(pre: Seq<DownloadTask>, f: FileIdentity) -> Result<
    (),
    ErrorKind,
> {
    if has_task(pre, f) && (task_of(pre, f).state is Queued || task_of(pre, f).state
        is Downloading) {
        Err(ErrorKind::AlreadyInProgress)
    } else {
        Ok(())
    }
}

/// Task-map effect of `pause(f)`: the tracked task is stepped per
/// `pause_step`; an untracked identity changes nothing.
pub open spec fn pause_post(
    pre: Seq<DownloadTask>,
    post: Seq<DownloadTask>,
    f: FileIdentity,
) -> bool {
    if has_task(pre, f) {
        stepped_post(pre, post, f, |t: DownloadTask| pause_step(t))
    } else {
        post == pre
    }
}

/// Task-map effect of `cancel(f)`: the tracked task is stepped per
/// `cancel_step`; an untracked identity changes nothing.
pub open spec fn cancel_post(
    pre: Seq<DownloadTask>,
    post: Seq<DownloadTask>,
    f: FileIdentity,
) -> bool {
    if has_task(pre, f) {
        stepped_post(pre, post, f, |t: DownloadTask| cancel_step(t))
    } else {
        post == pre
    }
}

/// Result of `pause(f)` and of `cancel(f)`: `NotFound` exactly when no task
/// for `f` is tracked; otherwise `Ok`, also where the call was a no-op.
pub open spec fn control_result(pre: Seq<DownloadTask>, f: FileIdentity) -> Result<
    (),
    ErrorKind,
> {
    if has_task(pre, f) {
        Ok(())
    } else {
        Err(ErrorKind::NotFound)
    }
}

/// Owns the set of download tasks and enforces the dedup invariant.
pub struct DownloadRegistry {
    tasks: Vec<DownloadTask>,
}

impl View for DownloadRegistry {
    type V = Seq<DownloadTask>;

    closed spec fn view(&self) -> Seq<DownloadTask> {
        self.tasks@
    }
}

impl DownloadRegistry {
    /// An empty registry: nothing tracked.
    pub fn new() -> (r: DownloadRegistry)
        ensures
            r@ =~= Seq::<DownloadTask>::empty(),
            tasks_wf(r@),
    {
        DownloadRegistry { tasks: Vec::new() }
    }

    /// Index of the task for `f`, when one is tracked.
    fn find(&self, f: FileIdentity) -> (r: Option<usize>)
        ensures
            match r {
                Some(i) => i < self@.len() && self@[i as int].id == f,
                None => !has_task(self@, f),
            },
    {
        let n = self.tasks.len();
        let mut i: usize = 0;
        while i < n
            invariant
                n == self@.len(),
                i <= n,
                forall|j: int| 0 <= j < i ==> self@[j].id != f,
            decreases n - i,
        {
            if self.tasks[i].id == f {
                return Some(i);
            }
            i = i + 1;
        }
        None
    }

    /// Number of tracked tasks (live and terminal together).
    pub fn len(&self) -> (n: usize)
        ensures
            n == self@.len(),
    {
        self.tasks.len()
    }

    /// Read-only copy of the task for `f`, for presentation polling.
    pub fn snapshot(&self, f: FileIdentity) -> (r: Option<DownloadTask>)
        requires
            tasks_wf(self@),
        ensures
            match r {
                Some(t) => has_task(self@, f) && t == task_of(self@, f) && t.id == f,
                None => !has_task(self@, f),
            },
    {
        match self.find(f) {
            Some(i) => {
                let t = self.tasks[i];
                proof {
                    lemma_task_of_unique(self@, f, i as int);
                }
                Some(t)
            },
            None => None,
        }
    }

    /// `Download` action for `f`. If a task for `f` is tracked: resumes it if
    /// paused, leaves it alone if queued or downloading (duplicate clicks are
    /// idempotent), or replaces it by a fresh queued task if terminal.
    /// Otherwise creates a fresh queued task.
    pub fn start(&mut self, f: FileIdentity, target: FileMetadata) -> (r: Result<(), ErrorKind>)
        requires
            tasks_wf(old(self)@),
        ensures
            tasks_wf(final(self)@),
            start_post(old(self)@, final(self)@, f, target),
            r == start_result(old(self)@, f),
    {
        match self.find(f) {
            Some(i) => {
                proof {
                    lemma_task_of_unique(self@, f, i as int);
                }
                let t = self.tasks[i];
                let ghost pre = self@;
                match t.state {
                    DownloadState::Paused => {
                        self.tasks[i].state = DownloadState::Downloading;
                        proof {
                            lemma_stepped_wf(pre, self@);
                        }
                        Ok(())
                    },
                    DownloadState::Queued | DownloadState::Downloading => {
                        proof {
                            assert(stepped_post(
                                pre,
                                self@,
                                f,
                                |t: DownloadTask| start_step(t, target),
                            ));
                        }
                        Err(ErrorKind::AlreadyInProgress)
                    },
                    _ => {
                        self.tasks[i] = fresh_task(f, target);
                        proof {
                            lemma_stepped_wf(pre, self@);
                        }
                        Ok(())
                    },
                }
            },
            None => {
                self.tasks.push(fresh_task(f, target));
                proof {
                    let pre = old(self)@;
                    let post = self@;
                    assert forall|i: int, j: int|
                        #![trigger post[i].id, post[j].id]
                        0 <= i < post.len() && 0 <= j < post.len() && post[i].id == post[j].id
                        implies i == j by {
                        if i < pre.len() && j == pre.len() as int {
                            assert(pre[i].id == f);
                        }
                        if j < pre.len() && i == pre.len() as int {
                            assert(pre[j].id == f);
                        }
                    }
                }
                Ok(())
            },
        }
    }

    /// `Pause` action for `f`: a downloading task pauses, keeping its byte
    /// offset so a later resume continues in place; any other tracked state
    /// is a no-op. `NotFound` for an untracked identity.
    pub fn pause(&mut self, f: FileIdentity) -> (r: Result<(), ErrorKind>)
        requires
            tasks_wf(old(self)@),
        ensures
            tasks_wf(final(self)@),
            pause_post(old(self)@, final(self)@, f),
            r == control_result(old(self)@, f),
    {
        match self.find(f) {
            Some(i) => {
                proof {
                    lemma_task_of_unique(self@, f, i as int);
                }
                let ghost pre = self@;
                let t = self.tasks[i];
                match t.state {
                    DownloadState::Downloading => {
                        self.tasks[i].state = DownloadState::Paused;
                    },
                    _ => {},
                }
                proof {
                    lemma_stepped_wf(pre, self@);
                }
                Ok(())
            },
            None => Err(ErrorKind::NotFound),
        }
    }

    /// `Cancel` action for `f`: any live task is cancelled (its partial
    /// progress is kept as a label only); a terminal task is a no-op.
    /// `NotFound` for an untracked identity. Cancellation is silent: no
    /// notification is ever produced for a cancelled task.
    pub fn cancel(&mut self, f: FileIdentity) -> (r: Result<(), ErrorKind>)
        requires
            tasks_wf(old(self)@),
        ensures
            tasks_wf(final(self)@),
            cancel_post(old(self)@, final(self)@, f),
            r == control_result(old(self)@, f),
    {
        match self.find(f) {
            Some(i) => {
                proof {
                    lemma_task_of_unique(self@, f, i as int);
                }
                let ghost pre = self@;
                let t = self.tasks[i];
                if !t.state.is_terminal() {
                    self.tasks[i].state = DownloadState::Cancelled;
                }
                proof {
                    lemma_stepped_wf(pre, self@);
                }
                Ok(())
            },
            None => Err(ErrorKind::NotFound),
        }
    }

    /// Worker handshake: the worker owning `f`'s transfer accepted the task
    /// and opened the transfer. Returns whether the task moved to
    /// `Downloading`.
    pub fn mark_accepted(&mut self, f: FileIdentity) -> (accepted: bool)
        requires
            tasks_wf(old(self)@),
        ensures
            tasks_wf(final(self)@),
            if has_task(old(self)@, f) {
                stepped_post(old(self)@, final(self)@, f, |t: DownloadTask| accept_step(t))
            } else {
                final(self)@ == old(self)@
            },
            accepted == (has_task(old(self)@, f) && task_of(old(self)@, f).state is Queued),
    {
        match self.find(f) {
            Some(i) => {
                proof {
                    lemma_task_of_unique(self@, f, i as int);
                }
                let ghost pre = self@;
                let t = self.tasks[i];
                let accepted = match t.state {
                    DownloadState::Queued => {
                        self.tasks[i].state = DownloadState::Downloading;
                        true
                    },
                    _ => false,
                };
                proof {
                    lemma_stepped_wf(pre, self@);
                }
                accepted
            },
            None => false,
        }
    }

    /// Worker progress report for `f`: `bytes` is the new absolute offset.
    /// Applied only to a downloading task, only monotonically, and never past
    /// a known total; any other report is discarded (readers must tolerate
    /// coalesced or missed updates and trust only the latest snapshot).
    /// Returns whether the report was applied.
    pub fn mark_progress(&mut self, f: FileIdentity, bytes: u64) -> (applied: bool)
        requires
            tasks_wf(old(self)@),
        ensures
            tasks_wf(final(self)@),
            if has_task(old(self)@, f) {
                stepped_post(old(self)@, final(self)@, f, |t: DownloadTask| progress_step(t, bytes))
            } else {
                final(self)@ == old(self)@
            },
            applied == (has_task(old(self)@, f) && progress_step(task_of(old(self)@, f), bytes)
                != task_of(old(self)@, f)),
    {
        match self.find(f) {
            Some(i) => {
                proof {
                    lemma_task_of_unique(self@, f, i as int);
                }
                let ghost pre = self@;
                let t = self.tasks[i];
                let in_bound = match t.bytes_total {
                    Some(tot) => bytes <= tot,
                    None => true,
                };
                let mut applied = false;
                match t.state {
                    DownloadState::Downloading => {
                        if bytes >= t.bytes_done && in_bound {
                            if bytes != t.bytes_done {
                                applied = true;
                            }
                            self.tasks[i].bytes_done = bytes;
                        }
                    },
                    _ => {},
                }
                proof {
                    lemma_stepped_wf(pre, self@);
                }
                applied
            },
            None => false,
        }
    }

    /// Worker completion report for `f`. Only a downloading task completes:
    /// a task cancelled or paused while the report was in flight discards it,
    /// which is what keeps cancellation silent. On success the task's byte
    /// count is settled at the known total. Returns the completed task's
    /// announced metadata when the transition happened, `None` otherwise.
    pub fn mark_completed(&mut self, f: FileIdentity) -> (meta: Option<FileMetadata>)
        requires
            tasks_wf(old(self)@),
        ensures
            tasks_wf(final(self)@),
            if has_task(old(self)@, f) {
                stepped_post(old(self)@, final(self)@, f, |t: DownloadTask| complete_step(t))
            } else {
                final(self)@ == old(self)@
            },
            meta == (if has_task(old(self)@, f) && task_of(old(self)@, f).state is Downloading {
                Some(FileMetadata { expected_size: task_of(old(self)@, f).bytes_total })
            } else {
                Option::<FileMetadata>::None
            }),
    {
        match self.find(f) {
            Some(i) => {
                proof {
                    lemma_task_of_unique(self@, f, i as int);
                }
                let ghost pre = self@;
                let t = self.tasks[i];
                let meta = match t.state {
                    DownloadState::Downloading => {
                        self.tasks[i].state = DownloadState::Completed;
                        match t.bytes_total {
                            Some(tot) => {
                                self.tasks[i].bytes_done = tot;
                            },
                            None => {},
                        }
                        Some(FileMetadata { expected_size: t.bytes_total })
                    },
                    _ => None,
                };
                proof {
                    lemma_stepped_wf(pre, self@);
                }
                meta
            },
            None => None,
        }
    }

    /// Worker failure report for `f`. Only a downloading task errors; the
    /// reason is recorded on the task. A report racing a cancellation or a
    /// pause is discarded. Returns whether the transition happened.
    pub fn mark_errored(&mut self, f: FileIdentity, reason: FailureReason) -> (errored: bool)
        requires
            tasks_wf(old(self)@),
        ensures
            tasks_wf(final(self)@),
            if has_task(old(self)@, f) {
                stepped_post(old(self)@, final(self)@, f, |t: DownloadTask| errored_step(t, reason))
            } else {
                final(self)@ == old(self)@
            },
            errored == (has_task(old(self)@, f) && task_of(old(self)@, f).state is Downloading),
    {
        match self.find(f) {
            Some(i) => {
                proof {
                    lemma_task_of_unique(self@, f, i as int);
                }
                let ghost pre = self@;
                let t = self.tasks[i];
                let errored = match t.state {
                    DownloadState::Downloading => {
                        self.tasks[i].state = DownloadState::Errored;
                        self.tasks[i].error = Some(ErrorKind::TransferError(reason));
                        true
                    },
                    _ => false,
                };
                proof {
                    lemma_stepped_wf(pre, self@);
                }
                errored
            },
            None => false,
        }
    }

}

/// A pointwise update that replaces each task only by one with the same
/// identity that is itself well-formed keeps the whole map well-formed.
pub proof fn lemma_stepped_wf(pre: Seq<DownloadTask>, post: Seq<DownloadTask>)
    requires
        tasks_wf(pre),
        post.len() == pre.len(),
        forall|i: int|
            #![trigger post[i]]
            0 <= i < pre.len() ==> (post[i] == pre[i] || (post[i].id == pre[i].id
                && post[i].wf())),
    ensures
        tasks_wf(post),
{
    assert forall|i: int| 0 <= i < post.len() implies (#[trigger] post[i]).wf() by {
        assert(pre[i].wf());
    }
    assert forall|i: int, j: int|
        #![trigger post[i].id, post[j].id]
        0 <= i < post.len() && 0 <= j < post.len() && post[i].id == post[j].id implies i == j by {
        assert(pre[i].id == post[i].id || post[i] == pre[i]);
        assert(pre[j].id == post[j].id || post[j] == pre[j]);
        assert(pre[i].id == pre[j].id);
    }
}

} // verus!
