//! The per-pod runner's lifecycle: intake of events, the edge-triggered
//! change notifier, the status gate, and the async-drop accounting.

use vstd::prelude::*;
use crate::pod::PodSnapshot;
use crate::queue::PodEvent;
use crate::status::{StatusPublisher, StatusSummary};

verus! {

/// The per-pod change notifier: edge-triggered, with a single pending
/// slot, so extra signals coalesce.
pub struct Notifier {
    pub pending: bool,
}

impl Notifier {
    pub fn new() -> (n: Notifier)
        ensures
            !n.pending,
    {
        Notifier { pending: false }
    }

    /// Raise the edge. A signal on an already-pending notifier coalesces
    /// into the one pending slot.
    pub fn signal(&mut self)
        ensures
            final(self).pending,
    {
        self.pending = true;
    }

    /// Take any pending signal, so a wait that follows cannot miss the
    /// edge it is about to wait for.
    pub fn drain(&mut self) -> (was_pending: bool)
        ensures
            !final(self).pending,
            was_pending == old(self).pending,
    {
        let was = self.pending;
        self.pending = false;
        was
    }
}

/// Where a runner stands in its life.
#[derive(Clone, Copy, PartialEq, Eq, Structural, Debug)]
pub enum RunnerPhase {
    /// The provider is building the pod's state.
    Initializing,
    /// The state machine is being driven.
    Active,
    /// The runner's task handle has completed.
    Completed,
}

/// The bookkeeping a runner carries beside the state machine: the
/// latest-snapshot slot, the change notifier, the termination mark, the
/// status publisher, and how often the async-drop hook has run.
pub struct PodRunner {
    pub phase: RunnerPhase,
    pub initialized: bool,
    pub drop_hook_runs: u64,
    pub termination_requested: bool,
    pub notifier: Notifier,
    pub latest: Option<PodSnapshot>,
    pub publisher: StatusPublisher,
}

impl PodRunner {
    /// The async-drop hook has run exactly once when a runner whose pod
    /// state was successfully created completes, and never before, and
    /// never when initialization failed.
    pub open spec fn wf(&self) -> bool {
        &&& self.publisher.wf()
        &&& self.phase == RunnerPhase::Initializing ==> !self.initialized && self.drop_hook_runs
            == 0
        &&& self.phase == RunnerPhase::Active ==> self.initialized && self.drop_hook_runs == 0
        &&& self.phase == RunnerPhase::Completed ==> self.drop_hook_runs == (
        if self.initialized {
            1int
        } else {
            0int
        })
    }

    pub fn new() -> (r: PodRunner)
        ensures
            r.wf(),
            r.phase == RunnerPhase::Initializing,
            !r.termination_requested,
            r.latest is None,
            r.publisher.published@.len() == 0,
    {
        PodRunner {
            phase: RunnerPhase::Initializing,
            initialized: false,
            drop_hook_runs: 0,
            termination_requested: false,
            notifier: Notifier::new(),
            latest: None,
            publisher: StatusPublisher::new(),
        }
    }

    /// Record how initialization went. On success the runner begins
    /// driving the machine; on failure it completes at once — no pod
    /// state was created, so no drop hook will ever run.
    pub fn start(&mut self, init_ok: bool)
        requires
            old(self).wf(),
            old(self).phase == RunnerPhase::Initializing,
        ensures
            final(self).wf(),
            init_ok ==> final(self).phase == RunnerPhase::Active && final(self).initialized,
            !init_ok ==> final(self).phase == RunnerPhase::Completed && !final(self).initialized
                && final(self).drop_hook_runs == 0,
            final(self).termination_requested == old(self).termination_requested,
            final(self).latest == old(self).latest,
            final(self).publisher == old(self).publisher,
            final(self).notifier == old(self).notifier,
    {
        if init_ok {
            self.initialized = true;
            self.phase = RunnerPhase::Active;
        } else {
            self.phase = RunnerPhase::Completed;
        }
    }

    /// Intake of one event from the pod's channel: an update overwrites
    /// the latest-snapshot slot, a deletion requests termination; either
    /// way the change notifier is signaled.
    pub fn on_event(&mut self, e: PodEvent)
        requires
            old(self).wf(),
            old(self).phase == RunnerPhase::Active,
        ensures
            final(self).wf(),
            final(self).phase == RunnerPhase::Active,
            final(self).drop_hook_runs == 0,
            final(self).notifier.pending,
            final(self).publisher == old(self).publisher,
            match e {
                PodEvent::Applied(p) => final(self).latest == Some(p)
                    && final(self).termination_requested == old(self).termination_requested,
                PodEvent::Deleted(_) => final(self).termination_requested && final(self).latest
                    == old(self).latest,
            },
    {
        match e {
            PodEvent::Applied(p) => {
                self.latest = Some(p);
            },
            PodEvent::Deleted(_) => {
                self.termination_requested = true;
            },
        }
        self.notifier.signal();
    }

    /// A runner that sees the shutdown flag set treats it as a
    /// termination request.
    pub fn observe_shutdown(&mut self, shutdown: bool)
        requires
            old(self).wf(),
        ensures
            final(self).wf(),
            shutdown ==> final(self).termination_requested && final(self).notifier.pending,
            !shutdown ==> *final(self) == *old(self),
            final(self).phase == old(self).phase,
            final(self).drop_hook_runs == old(self).drop_hook_runs,
            final(self).latest == old(self).latest,
            final(self).publisher == old(self).publisher,
    {
        if shutdown {
            self.termination_requested = true;
            self.notifier.signal();
        }
    }

    /// Publish the status if one is due: on a state change or on an
    /// external pod-changed edge, and then only.
    pub fn maybe_publish(&mut self, status: &StatusSummary, state_changed: bool, pod_edge: bool)
        requires
            old(self).wf(),
            old(self).publisher.next_ts < u64::MAX,
        ensures
            final(self).wf(),
            final(self).phase == old(self).phase,
            final(self).drop_hook_runs == old(self).drop_hook_runs,
            final(self).initialized == old(self).initialized,
            (state_changed || pod_edge) ==> {
                &&& final(self).publisher.published@.len() == old(
                    self,
                ).publisher.published@.len() + 1
                &&& final(self).publisher.published@.last().phase == status.phase
                &&& final(self).publisher.published@.last().message@ == status.message@
            },
            !(state_changed || pod_edge) ==> final(self).publisher == old(self).publisher,
    {
        if crate::status::should_publish(state_changed, pod_edge) {
            self.publisher.publish(status);
        }
    }

    /// The kernel exited: await the pod state's async-drop hook, then
    /// complete the task. The hook runs here and nowhere else.
    pub fn complete(&mut self)
        requires
            old(self).wf(),
            old(self).phase == RunnerPhase::Active,
        ensures
            final(self).wf(),
            final(self).phase == RunnerPhase::Completed,
            final(self).initialized,
            final(self).drop_hook_runs == 1,
    {
        self.drop_hook_runs = self.drop_hook_runs + 1;
        self.phase = RunnerPhase::Completed;
    }
}

/// For every successfully-initialized pod state, the async-drop hook has
/// run exactly once by the time the runner's task handle completes.
pub proof fn lemma_async_drop_exactly_once(r: &PodRunner)
    requires
        r.wf(),
        r.phase == RunnerPhase::Completed,
        r.initialized,
    ensures
        r.drop_hook_runs == 1,
{
}

} // verus!
