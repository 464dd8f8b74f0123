//! The notification queue: a FIFO of terminal transfer outcomes, written by
//! background workers (one push per terminal transition, completions and
//! failures only — never cancellations) and drained by the single foreground
//! consumer. Unbounded by design: terminal outcomes are low-frequency events,
//! so producers never block and no notification is ever dropped. Cross-thread
//! exclusion around it is the embedder's concern; every operation here is a
//! short, non-blocking move of a small value record.

use vstd::prelude::*;

use crate::task::ErrorKind;
use crate::task::FileIdentity;
use crate::task::FileMetadata;

verus! {

/// A one-shot record of a terminal transfer outcome, produced exactly once
/// per terminal transition and consumed exactly once by the foreground.
#[derive(Clone, Copy, PartialEq, Eq, Debug)]
pub enum Notification {
    /// The transfer for this identity completed and verified; carries the
    /// announced metadata of the finished file.
    DownloadedFile(FileIdentity, FileMetadata),
    /// The transfer for this identity failed; carries the failure.
    DownloadErrored(FileIdentity, ErrorKind),
}

impl Notification {
    /// The identity this notification reports on.
    pub open spec fn spec_identity(&self) -> FileIdentity {
        match *self {
            Notification::DownloadedFile(f, _) => f,
            Notification::DownloadErrored(f, _) => f,
        }
    }

    #[verifier::when_used_as_spec(spec_identity)]
    pub fn identity(&self) -> (f: FileIdentity)
        ensures
            f == self.spec_identity(),
    {
        match self {
            Notification::DownloadedFile(f, _) => *f,
            Notification::DownloadErrored(f, _) => *f,
        }
    }
}

/// What one drain step hands the consumer: the oldest notification, if any.
pub open spec fn drained_item(q: Seq<Notification>) -> Option<Notification> {
    if q.len() == 0 {
        None
    } else {
        Some(q[0])
    }
}

/// What one drain step leaves behind: everything but the oldest notification.
pub open spec fn drain_rest(q: Seq<Notification>) -> Seq<Notification> {
    if q.len() == 0 {
        q
    } else {
        q.drop_first()
    }
}

/// FIFO queue of notifications; insertion order is completion order across
/// all workers, and that order is what the consumer observes.
pub struct NotificationQueue {
    items: Vec<Notification>,
}

impl View for NotificationQueue {
    type V = Seq<Notification>;

    closed spec fn view(&self) -> Seq<Notification> {
        self.items@
    }
}

impl NotificationQueue {
    /// An empty queue.
    pub fn new() -> (q: NotificationQueue)
        ensures
            q@ =~= Seq::<Notification>::empty(),
    {
        NotificationQueue { items: Vec::new() }
    }

    /// Producer side: append one notification at the back. Never drops,
    /// never duplicates, never blocks.
    pub fn push(&mut self, n: Notification)
        ensures
            final(self)@ == old(self)@.push(n),
    {
        self.items.push(n);
    }

    /// Consumer side, non-blocking: remove and return the oldest
    /// notification; `None` on an empty queue, which it leaves empty.
    pub fn drain_one(&mut self) -> (r: Option<Notification>)
        ensures
            r == drained_item(old(self)@),
            final(self)@ == drain_rest(old(self)@),
    {
        if self.items.len() == 0 {
            None
        } else {
            let n = self.items.remove(0);
            proof {
                assert(self@ =~= old(self)@.drop_first());
            }
            Some(n)
        }
    }

    /// Number of queued notifications.
    pub fn len(&self) -> (n: usize)
        ensures
            n == self@.len(),
    {
        self.items.len()
    }

    /// Whether nothing is pending — the cheap per-tick check.
    pub fn is_empty(&self) -> (r: bool)
        ensures
            r == (self@.len() == 0),
    {
        self.items.len() == 0
    }
}

} // verus!
