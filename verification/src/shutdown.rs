//! The process-wide graceful-shutdown flag and the supervisor's
//! decisions around it.
//!
//! The flag is set by an OS signal or by any supervised task exiting,
//! and once set it is never cleared.

use vstd::prelude::*;

verus! {

/// How often a waiting task polls the shutdown flag: every runner
/// observes a termination request within at most one poll interval.
pub const SHUTDOWN_POLL_INTERVAL_MS: u64 = 100;

/// The process-wide shutdown flag. Tasks observe it lazily; the only
/// mutation ever offered is `set`, so the flag is monotonic.
pub struct ShutdownFlag {
    pub signaled: bool,
}

/// The supervised long-running tasks; whichever of them completes
/// first, with or without an error, starts the graceful drain.
#[derive(Clone, Copy, PartialEq, Eq, Structural, Debug)]
pub enum SupervisedTask {
    SignalListener,
    Webserver,
    NodeUpdater,
    PluginRegistrar,
}

impl ShutdownFlag {
    /// The flag a shutdown flag reaches when it is signaled, however often.
    pub open spec fn spec_after_set(self) -> ShutdownFlag {
        ShutdownFlag { signaled: true }
    }

    pub fn new() -> (f: ShutdownFlag)
        ensures
            !f.signaled,
    {
        ShutdownFlag { signaled: false }
    }

    /// Record that shutdown has begun. Setting never clears the flag and
    /// extra signals change nothing.
    pub fn set(&mut self)
        ensures
            *final(self) == old(self).spec_after_set(),
            final(self).signaled,
    {
        self.signaled = true;
    }

    pub fn is_set(&self) -> (r: bool)
        ensures
            r == self.signaled,
    {
        self.signaled
    }
}

/// Shutdown is idempotent: a second signal leaves the flag exactly where
/// the first one put it, and a signal never clears a flag that is already
/// set.
pub proof fn lemma_shutdown_idempotent(f: ShutdownFlag)
    ensures
        f.spec_after_set().spec_after_set() == f.spec_after_set(),
        f.signaled ==> f.spec_after_set() == f,
{
}

/// The flag is monotonic: no sequence of signals can take a set flag back
/// to the unset state.
pub proof fn lemma_shutdown_monotonic(f: ShutdownFlag)
    ensures
        f.signaled ==> f.spec_after_set().signaled,
        f.spec_after_set().signaled,
{
}

/// The supervisor's reaction when any supervised task completes: whatever
/// the task and whatever its result, the shutdown flag is set so the node
/// drains gracefully.
pub fn on_supervised_task_exit(flag: &mut ShutdownFlag, task: SupervisedTask, failed: bool)
    ensures
        final(flag).signaled,
        *final(flag) == old(flag).spec_after_set(),
{
    flag.set();
}

/// The process exit status: zero after a clean drain, one when startup
/// failed before the supervisor ran, two for a failure after start.
pub fn exit_code(startup_ok: bool, drain_ok: bool) -> (r: u8)
    ensures
        !startup_ok ==> r == 1,
        startup_ok && drain_ok ==> r == 0,
        startup_ok && !drain_ok ==> r == 2,
{
    if !startup_ok {
        1
    } else if drain_ok {
        0
    } else {
        2
    }
}

} // verus!
