//! The state machine kernel: the declared transition graph and the
//! transition values the kernel acts on.
//!
//! A `Transition::Next` can only be built through `Transition::next`,
//! which demands that the edge from the source state to the target state
//! is declared in the graph; illegal control flow is unrepresentable.

use vstd::prelude::*;
use crate::states::{StackableState, StateKind, Terminated};

verus! {

/// The declared successor relation of the provider's states. The
/// terminated state is reachable from everywhere: the kernel's graceful
/// redirect may force it whenever termination is pending.
pub open spec fn spec_succ(from: StateKind, to: StateKind) -> bool {
    ||| to == StateKind::Terminated
    ||| match from {
        StateKind::Downloading => to == StateKind::Installing || to == StateKind::DownloadingBackoff
            || to == StateKind::Failed,
        StateKind::DownloadingBackoff => to == StateKind::Downloading,
        StateKind::Installing => to == StateKind::CreatingConfig || to == StateKind::Failed,
        StateKind::CreatingConfig => to == StateKind::Running || to == StateKind::Failed,
        StateKind::Running => to == StateKind::Running || to == StateKind::Installing || to
            == StateKind::Stopped || to == StateKind::Failed,
        StateKind::Stopped => false,
        StateKind::Failed => false,
        StateKind::Terminated => false,
    }
}

/// The declared successor relation, decidable at run time.
pub fn succ(from: StateKind, to: StateKind) -> (r: bool)
    ensures
        r == spec_succ(from, to),
{
    if matches!(to, StateKind::Terminated) {
        return true;
    }
    match from {
        StateKind::Downloading => matches!(
            to,
            StateKind::Installing | StateKind::DownloadingBackoff | StateKind::Failed
        ),
        StateKind::DownloadingBackoff => matches!(to, StateKind::Downloading),
        StateKind::Installing => matches!(to, StateKind::CreatingConfig | StateKind::Failed),
        StateKind::CreatingConfig => matches!(to, StateKind::Running | StateKind::Failed),
        StateKind::Running => matches!(
            to,
            StateKind::Running | StateKind::Installing | StateKind::Stopped | StateKind::Failed
        ),
        StateKind::Stopped => false,
        StateKind::Failed => false,
        StateKind::Terminated => false,
    }
}

/// What one step of the machine yields: the next state, or completion.
pub enum TransitionStep {
    Next(StackableState),
    Complete(Result<(), String>),
}

/// A transition certified against the graph: when it moves to a next
/// state, the edge from its source is declared.
pub struct Transition {
    from: Ghost<StateKind>,
    step: TransitionStep,
}

impl Transition {
    /// The state kind the transition was taken from.
    pub closed spec fn spec_from(&self) -> StateKind {
        self.from@
    }

    pub closed spec fn spec_step(&self) -> TransitionStep {
        self.step
    }

    #[verifier::type_invariant]
    pub closed spec fn legal(self) -> bool {
        match self.step {
            TransitionStep::Next(s) => spec_succ(self.from@, s.spec_kind()),
            TransitionStep::Complete(_) => true,
        }
    }

    /// Move to a next state. Only declared edges can be taken.
    pub fn next(from: StateKind, to: StackableState) -> (t: Transition)
        requires
            spec_succ(from, to.spec_kind()),
        ensures
            t.spec_from() == from,
            t.spec_step() == TransitionStep::Next(to),
    {
        Transition { from: Ghost(from), step: TransitionStep::Next(to) }
    }

    /// Move to a next state, checking the edge at run time: building a
    /// transition along an undeclared edge fails, at construction.
    pub fn checked_next(from: StateKind, to: StackableState) -> (r: Option<Transition>)
        ensures
            match r {
                Some(t) => {
                    &&& spec_succ(from, to.spec_kind())
                    &&& t.spec_from() == from
                    &&& t.spec_step() == TransitionStep::Next(to)
                },
                None => !spec_succ(from, to.spec_kind()),
            },
    {
        if succ(from, to.kind()) {
            Some(Transition::next(from, to))
        } else {
            None
        }
    }

    /// Finish the pod's run successfully.
    pub fn complete_ok(from: StateKind) -> (t: Transition)
        ensures
            t.spec_from() == from,
            t.spec_step() matches TransitionStep::Complete(r) && r is Ok,
    {
        Transition { from: Ghost(from), step: TransitionStep::Complete(Ok(())) }
    }

    /// Finish the pod's run with a recorded error.
    pub fn complete_err(from: StateKind, message: String) -> (t: Transition)
        ensures
            t.spec_from() == from,
            t.spec_step() matches TransitionStep::Complete(r) && r matches Err(m) && m@
                == message@,
    {
        Transition { from: Ghost(from), step: TransitionStep::Complete(Err(message)) }
    }

    /// Take the step out of the transition, with its certificate: a next
    /// state always lies along a declared edge.
    pub fn into_step(self) -> (s: TransitionStep)
        ensures
            s == self.spec_step(),
            s matches TransitionStep::Next(n) ==> spec_succ(self.spec_from(), n.spec_kind()),
    {
        proof {
            use_type_invariant(&self);
        }
        let Transition { from: _, step } = self;
        step
    }
}

/// The completed, the stopped and the failed state lead nowhere but to
/// the terminated state the kernel may force: once a run has ended there
/// is no edge back into the working states.
pub proof fn lemma_terminal_states_have_no_successors(k: StateKind)
    ensures
        spec_succ(StateKind::Failed, k) ==> k == StateKind::Terminated,
        spec_succ(StateKind::Stopped, k) ==> k == StateKind::Terminated,
        spec_succ(StateKind::Terminated, k) ==> k == StateKind::Terminated,
{
}

/// The kernel's graceful redirect: when termination is pending and the
/// resolved step moves anywhere but the terminated state, the move is
/// forced to the terminated state instead. Completions and transitions
/// already bound for the terminated state pass through, as does
/// everything when no termination is pending.
pub fn redirect_on_termination(t: Transition, termination_pending: bool) -> (r: Transition)
    ensures
        !termination_pending ==> r == t,
        termination_pending ==> match t.spec_step() {
            TransitionStep::Next(n) => {
                if n.spec_kind() == StateKind::Terminated {
                    r == t
                } else {
                    &&& r.spec_from() == t.spec_from()
                    &&& r.spec_step() matches TransitionStep::Next(m) && m.spec_kind()
                        == StateKind::Terminated
                }
            },
            TransitionStep::Complete(_) => r == t,
        },
{
    if !termination_pending {
        return t;
    }
    proof {
        use_type_invariant(&t);
    }
    let Transition { from, step } = t;
    match step {
        TransitionStep::Next(n) => {
            if n.kind() == StateKind::Terminated {
                Transition { from, step: TransitionStep::Next(n) }
            } else {
                Transition {
                    from,
                    step: TransitionStep::Next(
                        StackableState::Terminated(
                            Terminated { message: String::from_str("Pod terminated") },
                        ),
                    ),
                }
            }
        },
        TransitionStep::Complete(c) => Transition { from, step: TransitionStep::Complete(c) },
    }
}

} // verus!
