//! The watch adapter's routing decision: what the node does with each
//! event of the cluster's pod watch stream.

use vstd::prelude::*;
use crate::pod::PodSnapshot;

verus! {

/// An event of the cluster's pod watch stream. `Restarted` means the
/// watch lost continuity and replays the authoritative live set.
pub enum WatchEvent {
    Applied(PodSnapshot),
    Deleted(PodSnapshot),
    Restarted(Vec<PodSnapshot>),
}

/// What the adapter does with an event.
#[derive(Clone, Copy, PartialEq, Eq, Structural, Debug)]
pub enum WatchAction {
    /// Refused: a draining node accepts no new work.
    Drop,
    /// Routed to the pod's own channel.
    Route,
    /// Reconciled against the whole dispatcher.
    Resync,
}

/// The adapter's decision. Updates are dropped while the node shuts
/// down; deletions always reach their runner; a watch restart is always
/// reconciled, even during shutdown, because it may reveal deletions.
pub fn classify_event(event: &WatchEvent, shutdown: bool) -> (a: WatchAction)
    ensures
        event is Applied && shutdown ==> a == WatchAction::Drop,
        event is Applied && !shutdown ==> a == WatchAction::Route,
        event is Deleted ==> a == WatchAction::Route,
        event is Restarted ==> a == WatchAction::Resync,
{
    match event {
        WatchEvent::Applied(_) => {
            if shutdown {
                WatchAction::Drop
            } else {
                WatchAction::Route
            }
        },
        WatchEvent::Deleted(_) => WatchAction::Route,
        WatchEvent::Restarted(_) => WatchAction::Resync,
    }
}

} // verus!
