//! Download lifecycle core: a registry of file-transfer tasks with
//! start/pause/cancel/resume control, a FIFO notification queue carrying
//! terminal outcomes from workers to a single foreground consumer, and a
//! coalescing wake-up signal — the state machine and concurrency contract
//! behind a catalog application's download manager.

pub mod laws;
pub mod manager;
pub mod queue;
pub mod registry;
pub mod router;
pub mod signal;
pub mod task;

use vstd::prelude::*;

verus! {

} // verus!
