//! The action router: the consumer-side fan-out that turns user-triggered
//! actions into registry control calls. A closed union of action variants is
//! dispatched through a single match; each download-related action is
//! handled independently and every other action is ignored. `Play` on a file
//! is a resume and routes exactly as `Download` does: the registry detects
//! an existing paused task and continues it rather than starting over.

use vstd::prelude::*;

use crate::manager::DownloadManager;
use crate::registry::cancel_post;
use crate::registry::control_result;
use crate::registry::pause_post;
use crate::registry::start_post;
use crate::registry::start_result;
use crate::task::ErrorKind;
use crate::task::FileIdentity;
use crate::task::FileMetadata;

verus! {

/// The closed set of user actions the router understands. Download-related
/// actions carry the file identity they address; `Download` and `Play` also
/// carry the target descriptor looked up from the catalog. `Unrelated`
/// stands for every action of the host application that is not about
/// downloads.
#[derive(Clone, Copy, PartialEq, Eq, Debug)]
pub enum UserAction {
    /// First click on a file, or a retry after a terminal outcome.
    Download(FileIdentity, FileMetadata),
    /// Resume of a paused transfer; routed like `Download`.
    Play(FileIdentity, FileMetadata),
    Pause(FileIdentity),
    Cancel(FileIdentity),
    Unrelated,
}

/// Dispatch one user action into the manager. Returns `None` for an
/// unrelated action (ignored, nothing changes) and `Some` with the control
/// operation's result otherwise.
pub fn route(m: &mut DownloadManager, action: UserAction) -> (r: Option<Result<(), ErrorKind>>)
    requires
        old(m)@.inv(),
    ensures
        final(m)@.inv(),
        final(m)@.queue == old(m)@.queue,
        final(m)@.signal == old(m)@.signal,
        match action {
            UserAction::Download(f, target) => start_post(old(m)@.tasks, final(m)@.tasks, f, target)
                && r == Some(start_result(old(m)@.tasks, f)),
            UserAction::Play(f, target) => start_post(old(m)@.tasks, final(m)@.tasks, f, target)
                && r == Some(start_result(old(m)@.tasks, f)),
            UserAction::Pause(f) => pause_post(old(m)@.tasks, final(m)@.tasks, f) && r == Some(
                control_result(old(m)@.tasks, f),
            ),
            UserAction::Cancel(f) => cancel_post(old(m)@.tasks, final(m)@.tasks, f) && r == Some(
                control_result(old(m)@.tasks, f),
            ),
            UserAction::Unrelated => final(m)@.tasks == old(m)@.tasks && r is None,
        },
{
    match action {
        UserAction::Download(f, target) => Some(m.start(f, target)),
        UserAction::Play(f, target) => Some(m.start(f, target)),
        UserAction::Pause(f) => Some(m.pause(f)),
        UserAction::Cancel(f) => Some(m.cancel(f)),
        UserAction::Unrelated => None,
    }
}

} // verus!
