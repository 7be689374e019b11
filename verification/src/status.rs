//! Pod status values the runner publishes, and the publisher whose
//! logical timestamps never decrease within a run.

use vstd::prelude::*;

verus! {

/// The pod lifecycle phase reported to the cluster.
#[derive(Clone, Copy, PartialEq, Eq, Structural, Debug)]
pub enum Phase {
    Pending,
    Running,
    Succeeded,
    Failed,
}

/// A single entry of `status.conditions`.
pub struct Condition {
    pub reason: String,
}

/// What a state reports about its pod: a phase, a message and the
/// conditions worth surfacing.
pub struct StatusSummary {
    pub phase: Phase,
    pub message: String,
    pub conditions: Vec<Condition>,
}

/// Build a status with no conditions, as most states report.
pub fn make_status(phase: Phase, message: &str) -> (s: StatusSummary)
    ensures
        s.phase == phase,
        s.message@ == message@,
        s.conditions@.len() == 0,
{
    StatusSummary { phase, message: String::from_str(message), conditions: Vec::new() }
}

/// Build a status with a single condition reason.
pub fn make_status_with_reason(phase: Phase, message: &str, reason: &str) -> (s: StatusSummary)
    ensures
        s.phase == phase,
        s.message@ == message@,
        s.conditions@.len() == 1,
        s.conditions@[0].reason@ == reason@,
{
    let mut conditions: Vec<Condition> = Vec::new();
    conditions.push(Condition { reason: String::from_str(reason) });
    StatusSummary { phase, message: String::from_str(message), conditions }
}

/// The terminal status a runner records when its machine completes:
/// succeeded on a clean completion, failed with the recorded message
/// otherwise.
pub fn terminal_status(result: &Result<(), String>) -> (s: StatusSummary)
    ensures
        match result {
            Ok(_) => s.phase == Phase::Succeeded && s.message@ == "Completed"@,
            Err(m) => s.phase == Phase::Failed && s.message@ == m@,
        },
        s.conditions@.len() == 0,
{
    match result {
        Ok(_) => make_status(Phase::Succeeded, "Completed"),
        Err(m) => StatusSummary {
            phase: Phase::Failed,
            message: m.clone(),
            conditions: Vec::new(),
        },
    }
}

/// A published status together with the logical timestamp the publisher
/// stamped it with.
pub struct StatusRecord {
    pub ts: u64,
    pub phase: Phase,
    pub message: String,
}

/// The per-pod status publisher. Every publish is stamped with a fresh
/// logical timestamp, strictly larger than every earlier one, so the
/// sequence of publishes for one pod is totally ordered.
pub struct StatusPublisher {
    pub next_ts: u64,
    pub published: Vec<StatusRecord>,
}

impl StatusPublisher {
    /// All recorded timestamps grow strictly along the record sequence
    /// and stay below the timestamp to be issued next.
    pub open spec fn wf(&self) -> bool {
        &&& forall|i: int, j: int|
            0 <= i < j < self.published@.len() ==> self.published@[i].ts < self.published@[j].ts
        &&& forall|i: int| 0 <= i < self.published@.len() ==> self.published@[i].ts < self.next_ts
    }

    pub fn new() -> (p: StatusPublisher)
        ensures
            p.wf(),
            p.published@.len() == 0,
            p.next_ts == 0,
    {
        StatusPublisher { next_ts: 0, published: Vec::new() }
    }

    /// Record one publish. The new record carries the next timestamp and
    /// lands at the end; nothing already published changes.
    pub fn publish(&mut self, status: &StatusSummary)
        requires
            old(self).wf(),
            old(self).next_ts < u64::MAX,
        ensures
            final(self).wf(),
            final(self).published@.len() == old(self).published@.len() + 1,
            forall|i: int|
                0 <= i < old(self).published@.len() ==> final(self).published@[i] == old(
                    self,
                ).published@[i],
            final(self).published@.last().ts == old(self).next_ts,
            final(self).published@.last().phase == status.phase,
            final(self).published@.last().message@ == status.message@,
            final(self).next_ts == old(self).next_ts + 1,
    {
        let ts = self.next_ts;
        self.published.push(
            StatusRecord { ts, phase: status.phase, message: status.message.clone() },
        );
        self.next_ts = self.next_ts + 1;
    }
}

/// Status publishes for a single pod have non-decreasing (indeed strictly
/// increasing) logical timestamps: any earlier publish carries a smaller
/// timestamp than any later one.
pub proof fn lemma_status_monotonic(p: &StatusPublisher, i: int, j: int)
    requires
        p.wf(),
        0 <= i <= j < p.published@.len(),
    ensures
        p.published@[i].ts <= p.published@[j].ts,
{
}

/// The status publisher gates publishes: one is due exactly when the
/// machine moved to a new state or the pod object changed under it.
pub fn should_publish(state_changed: bool, pod_changed_edge: bool) -> (r: bool)
    ensures
        r == (state_changed || pod_changed_edge),
{
    state_changed || pod_changed_edge
}

} // verus!
