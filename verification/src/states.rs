//! The provider's states and what each one decides.
//!
//! Each state owns its data and is consumed when the machine moves on.
//! A state's `next` works on plain observations — what the repository
//! lookup said, whether the package directory exists, what the process
//! wait returned — and yields a certified transition; the surrounding
//! runtime performs the waiting, downloading and unpacking those
//! observations come from.

use vstd::prelude::*;
use crate::error::StackableError;
use crate::machine::{Transition, TransitionStep};
use crate::package::{
    spec_image_err_msg, spec_image_ok, spec_image_product, spec_image_version, Package,
};
use crate::pod::PodSnapshot;
use crate::provider::PodState;
use crate::status::{make_status, make_status_with_reason, Phase, StatusSummary};

verus! {

/// The kinds of state the machine distinguishes.
#[derive(Clone, Copy, PartialEq, Eq, Structural, Debug)]
pub enum StateKind {
    Downloading,
    DownloadingBackoff,
    Installing,
    CreatingConfig,
    Running,
    Stopped,
    Failed,
    Terminated,
}

/// The initial state: resolve the pod's image to a package and find a
/// repository that provides it.
pub struct Downloading;

/// Waiting before the next download retry; carries the package to retry.
pub struct DownloadingBackoff {
    pub package: Package,
}

/// Unpacking a downloaded package into the parcel directory.
pub struct Installing {
    pub download_directory: String,
    pub parcel_directory: String,
    pub package: Package,
}

/// Materializing the pod's config maps under the config directory.
pub struct CreatingConfig {
    pub target_directory: Option<String>,
}

/// The workload process is running; its handle is owned by the
/// surrounding runtime.
pub struct Running;

/// The workload stopped on its own without failing.
pub struct Stopped;

/// The pod failed; carries the message recorded on its status.
pub struct Failed {
    pub message: String,
}

/// The terminated state every runner is redirected to on shutdown or
/// deletion.
pub struct Terminated {
    pub message: String,
}

/// A state value of the machine, whichever kind it currently has.
pub enum StackableState {
    Downloading(Downloading),
    DownloadingBackoff(DownloadingBackoff),
    Installing(Installing),
    CreatingConfig(CreatingConfig),
    Running(Running),
    Stopped(Stopped),
    Failed(Failed),
    Terminated(Terminated),
}

impl StackableState {
    pub open spec fn spec_kind(&self) -> StateKind {
        match self {
            StackableState::Downloading(_) => StateKind::Downloading,
            StackableState::DownloadingBackoff(_) => StateKind::DownloadingBackoff,
            StackableState::Installing(_) => StateKind::Installing,
            StackableState::CreatingConfig(_) => StateKind::CreatingConfig,
            StackableState::Running(_) => StateKind::Running,
            StackableState::Stopped(_) => StateKind::Stopped,
            StackableState::Failed(_) => StateKind::Failed,
            StackableState::Terminated(_) => StateKind::Terminated,
        }
    }

    pub fn kind(&self) -> (k: StateKind)
        ensures
            k == self.spec_kind(),
    {
        match self {
            StackableState::Downloading(_) => StateKind::Downloading,
            StackableState::DownloadingBackoff(_) => StateKind::DownloadingBackoff,
            StackableState::Installing(_) => StateKind::Installing,
            StackableState::CreatingConfig(_) => StateKind::CreatingConfig,
            StackableState::Running(_) => StateKind::Running,
            StackableState::Stopped(_) => StateKind::Stopped,
            StackableState::Failed(_) => StateKind::Failed,
            StackableState::Terminated(_) => StateKind::Terminated,
        }
    }

    /// What the state reports for the pod's status: its phase, a
    /// message, and — while backing off a failed download — the
    /// image-pull-backoff condition.
    pub fn status(&self) -> (s: StatusSummary)
        ensures
            s.phase == spec_state_phase(self.spec_kind()),
            self matches StackableState::Failed(f) ==> s.message@ == f.message@,
            self matches StackableState::Terminated(t) ==> s.message@ == t.message@,
            self is DownloadingBackoff ==> s.conditions@.len() == 1 && s.conditions@[0].reason@
                == "ImagePullBackOff"@,
            !(self is DownloadingBackoff) ==> s.conditions@.len() == 0,
            (self is Downloading || self is Installing || self is CreatingConfig)
                ==> s.message@ == "status:initializing"@,
            (self is DownloadingBackoff || self is Running || self is Stopped) ==> s.message@
                == "status:running"@,
    {
        match self {
            StackableState::Downloading(_) => make_status(Phase::Pending, "status:initializing"),
            StackableState::DownloadingBackoff(_) => make_status_with_reason(
                Phase::Pending,
                "status:running",
                "ImagePullBackOff",
            ),
            StackableState::Installing(_) => make_status(Phase::Pending, "status:initializing"),
            StackableState::CreatingConfig(_) => make_status(Phase::Pending, "status:initializing"),
            StackableState::Running(_) => make_status(Phase::Running, "status:running"),
            StackableState::Stopped(_) => make_status(Phase::Pending, "status:running"),
            StackableState::Failed(f) => make_status(Phase::Failed, f.message.as_str()),
            StackableState::Terminated(t) => make_status(Phase::Succeeded, t.message.as_str()),
        }
    }
}

/// The phase each state reports.
pub open spec fn spec_state_phase(k: StateKind) -> Phase {
    match k {
        StateKind::Downloading => Phase::Pending,
        StateKind::DownloadingBackoff => Phase::Pending,
        StateKind::Installing => Phase::Pending,
        StateKind::CreatingConfig => Phase::Pending,
        StateKind::Running => Phase::Running,
        StateKind::Stopped => Phase::Pending,
        StateKind::Failed => Phase::Failed,
        StateKind::Terminated => Phase::Succeeded,
    }
}

/// What the repository search reported for the pod's package.
pub enum RepoLookupOutcome {
    Found { repo_name: String },
    NotFound,
    LookupError { msg: String },
}

/// What the runtime observed of the workload process since the machine
/// last asked.
pub enum ProcessObservation {
    StillRunning,
    PodChanged,
    Exited { success: bool },
}

/// Whether the pod resolves to a package: exactly one container, with an
/// image that reads as `product:version`.
pub open spec fn spec_pod_package_ok(pod: &PodSnapshot) -> bool {
    &&& pod.containers@.len() == 1
    &&& pod.containers@[0].image is Some
    &&& spec_image_ok(pod.containers@[0].image->0@)
}

pub open spec fn spec_pod_product(pod: &PodSnapshot) -> Seq<char> {
    spec_image_product(pod.containers@[0].image->0@)
}

pub open spec fn spec_pod_version(pod: &PodSnapshot) -> Seq<char> {
    spec_image_version(pod.containers@[0].image->0@)
}

/// The message a pod that resolves to no package is failed with.
pub open spec fn spec_pod_failure_msg(pod: &PodSnapshot) -> Seq<char> {
    if pod.containers@.len() != 1 {
        "Size of containers list in PodSpec has to be exactly 1"@
    } else if pod.containers@[0].image is None {
        "Unable to get package reference from pod"@
    } else {
        spec_image_err_msg(pod.containers@[0].image->0@)
    }
}

impl Downloading {
    /// Resolve the pod's single container image to a package. Rejected
    /// exactly when the pod has other than one container, the container
    /// names no image, or the image reference is malformed.
    pub fn get_package(&self, pod: &PodSnapshot) -> (r: Result<Package, StackableError>)
        ensures
            match r {
                Ok(p) => {
                    &&& spec_pod_package_ok(pod)
                    &&& p.product@ == spec_pod_product(pod)
                    &&& p.version@ == spec_pod_version(pod)
                },
                Err(e) => {
                    &&& !spec_pod_package_ok(pod)
                    &&& match e {
                        StackableError::PodValidationError { msg } => msg@ == spec_pod_failure_msg(
                            pod,
                        ),
                        StackableError::PackageParseError { msg } => msg@ == spec_pod_failure_msg(
                            pod,
                        ),
                        _ => false,
                    }
                },
            },
    {
        if pod.containers.len() != 1 {
            return Err(
                StackableError::PodValidationError {
                    msg: String::from_str("Size of containers list in PodSpec has to be exactly 1"),
                },
            );
        }
        match &pod.containers[0].image {
            None => Err(
                StackableError::PodValidationError {
                    msg: String::from_str("Unable to get package reference from pod"),
                },
            ),
            Some(image) => Package::from_image_string(image.as_str()),
        }
    }

    /// Decide from the repository search what to do next: install when a
    /// repository provides the package, back off when none does or the
    /// search failed, fail the pod when it resolves to no package.
    pub fn next(self, pod_state: &mut PodState, pod: &PodSnapshot, lookup: RepoLookupOutcome) -> (t:
        Transition)
        ensures
            t.spec_from() == StateKind::Downloading,
            !spec_pod_package_ok(pod) ==> {
                &&& t.spec_step() matches TransitionStep::Next(n)
                &&& n matches StackableState::Failed(f) && f.message@ == spec_pod_failure_msg(pod)
                &&& *final(pod_state) == *old(pod_state)
            },
            spec_pod_package_ok(pod) ==> match lookup {
                RepoLookupOutcome::Found { .. } => {
                    &&& t.spec_step() matches TransitionStep::Next(n)
                    &&& n matches StackableState::Installing(i) && i.download_directory@ == old(
                        pod_state,
                    ).download_directory@ && i.parcel_directory@ == old(pod_state).parcel_directory@
                        && i.package.product@ == spec_pod_product(pod) && i.package.version@
                        == spec_pod_version(pod)
                    &&& final(pod_state).package matches Some(p) && p.product@ == spec_pod_product(
                        pod,
                    ) && p.version@ == spec_pod_version(pod)
                    &&& final(pod_state).download_directory@ == old(pod_state).download_directory@
                    &&& final(pod_state).parcel_directory@ == old(pod_state).parcel_directory@
                    &&& final(pod_state).config_directory@ == old(pod_state).config_directory@
                    &&& final(pod_state).package_download_backoff_strategy == old(
                        pod_state,
                    ).package_download_backoff_strategy
                },
                _ => {
                    &&& t.spec_step() matches TransitionStep::Next(n)
                    &&& n matches StackableState::DownloadingBackoff(b) && b.package.product@
                        == spec_pod_product(pod) && b.package.version@ == spec_pod_version(pod)
                    &&& *final(pod_state) == *old(pod_state)
                },
            },
    {
        let package = self.get_package(pod);
        match package {
            Ok(p) => {
                match lookup {
                    RepoLookupOutcome::Found { repo_name: _ } => {
                        let installing = Installing {
                            download_directory: pod_state.download_directory.clone(),
                            parcel_directory: pod_state.parcel_directory.clone(),
                            package: p.clone_pkg(),
                        };
                        pod_state.package = Some(p);
                        Transition::next(
                            StateKind::Downloading,
                            StackableState::Installing(installing),
                        )
                    },
                    _ => Transition::next(
                        StateKind::Downloading,
                        StackableState::DownloadingBackoff(DownloadingBackoff { package: p }),
                    ),
                }
            },
            Err(e) => {
                let message = e.message();
                Transition::next(
                    StateKind::Downloading,
                    StackableState::Failed(Failed { message }),
                )
            },
        }
    }
}

impl DownloadingBackoff {
    /// Wait out the backoff, then try the download again. Returns the
    /// wait in milliseconds for the runtime to sleep, and the retry
    /// transition.
    pub fn next(self, pod_state: &mut PodState) -> (r: (u64, Transition))
        requires
            old(pod_state).wf(),
        ensures
            final(pod_state).wf(),
            r.0 == crate::backoff::spec_backoff_delay(
                old(pod_state).package_download_backoff_strategy.attempts as nat,
            ),
            r.1.spec_from() == StateKind::DownloadingBackoff,
            r.1.spec_step() matches TransitionStep::Next(n) && n is Downloading,
    {
        let delay = pod_state.package_download_backoff_strategy.next_delay_ms();
        (delay, Transition::next(
            StateKind::DownloadingBackoff,
            StackableState::Downloading(Downloading),
        ))
    }
}

impl Installing {
    /// The directory the package unpacks into.
    pub fn get_target_directory(&self, package: &Package) -> (r: String)
        ensures
            r@ == self.parcel_directory@ + "/"@ + package.product@ + "-"@ + package.version@,
    {
        let mut out = self.parcel_directory.clone();
        out.append("/");
        out.append(package.product.as_str());
        out.append("-");
        out.append(package.version.as_str());
        out
    }

    /// Whether the package is already unpacked: its directory name is
    /// among the directories present in the parcel directory.
    pub fn package_installed(&self, package: &Package, present: &Vec<String>) -> (r: bool)
        ensures
            r == exists|i: int|
                0 <= i < present@.len() && present@[i]@ == package.product@ + "-"@
                    + package.version@,
    {
        let mut name = package.product.clone();
        name.append("-");
        name.append(package.version.as_str());
        let mut i: usize = 0;
        while i < present.len()
            invariant
                0 <= i <= present@.len(),
                name@ == package.product@ + "-"@ + package.version@,
                forall|j: int| 0 <= j < i ==> present@[j]@ != name@,
            decreases present@.len() - i,
        {
            if present[i].eq(&name) {
                return true;
            }
            i = i + 1;
        }
        false
    }

    /// Move on once the package is in place: to configuration when it
    /// already was, or after a successful unpack; fail the pod when the
    /// unpack failed.
    pub fn next(self, already_installed: bool, unpack_result: Result<(), String>) -> (t: Transition)
        ensures
            t.spec_from() == StateKind::Installing,
            already_installed ==> (t.spec_step() matches TransitionStep::Next(n) && (n matches
                StackableState::CreatingConfig(c) && c.target_directory is None)),
            !already_installed ==> match unpack_result {
                Ok(_) => t.spec_step() matches TransitionStep::Next(n) && (n matches
                    StackableState::CreatingConfig(c) && c.target_directory is None),
                Err(m) => t.spec_step() matches TransitionStep::Next(n) && (n matches
                    StackableState::Failed(f) && f.message@ == m@),
            },
    {
        if already_installed {
            Transition::next(
                StateKind::Installing,
                StackableState::CreatingConfig(CreatingConfig { target_directory: None }),
            )
        } else {
            match unpack_result {
                Ok(_) => Transition::next(
                    StateKind::Installing,
                    StackableState::CreatingConfig(CreatingConfig { target_directory: None }),
                ),
                Err(m) => Transition::next(
                    StateKind::Installing,
                    StackableState::Failed(Failed { message: m }),
                ),
            }
        }
    }
}

impl CreatingConfig {
    /// Decide the configuration step: reject pods without exactly one
    /// container or without a resolved package; otherwise hand back the
    /// directory the pod's config maps are materialized under, and move
    /// on to running.
    pub fn next(self, pod_state: &PodState, pod: &PodSnapshot) -> (r: (Option<String>, Transition))
        ensures
            r.1.spec_from() == StateKind::CreatingConfig,
            pod.containers@.len() != 1 ==> {
                &&& r.1.spec_step() matches TransitionStep::Next(n) && (n matches
                    StackableState::Failed(f) && f.message@
                    == "Only pods containing exactly one container element are supported!"@)
                &&& r.0 is None
            },
            pod.containers@.len() == 1 && pod_state.package is None ==> {
                &&& r.1.spec_step() matches TransitionStep::Next(n) && (n matches
                    StackableState::Failed(f) && f.message@
                    == "No package has been resolved for this pod"@)
                &&& r.0 is None
            },
            pod.containers@.len() == 1 && pod_state.package is Some ==> {
                &&& r.0 matches Some(d) && d@ == pod_state.config_directory@ + "/"@
                    + pod_state.package->0.product@ + "-"@ + pod_state.package->0.version@
                &&& r.1.spec_step() matches TransitionStep::Next(n) && n is Running
            },
    {
        if pod.containers.len() != 1 {
            let message = String::from_str(
                "Only pods containing exactly one container element are supported!",
            );
            return (
                None,
                Transition::next(
                    StateKind::CreatingConfig,
                    StackableState::Failed(Failed { message }),
                ),
            );
        }
        match &pod_state.package {
            None => (
                None,
                Transition::next(
                    StateKind::CreatingConfig,
                    StackableState::Failed(
                        Failed {
                            message: String::from_str("No package has been resolved for this pod"),
                        },
                    ),
                ),
            ),
            Some(package) => {
                let mut dir = pod_state.config_directory.clone();
                dir.append("/");
                dir.append(package.product.as_str());
                dir.append("-");
                dir.append(package.version.as_str());
                (
                    Some(dir),
                    Transition::next(
                        StateKind::CreatingConfig,
                        StackableState::Running(Running),
                    ),
                )
            },
        }
    }
}

impl Running {
    /// React to what the runtime observed of the process: keep running
    /// while it lives, reinstall when the pod object changed under it,
    /// complete the run on a successful exit, fail on any other exit.
    pub fn next(self, pod_state: &PodState, observation: ProcessObservation) -> (t: Transition)
        requires
            pod_state.package is Some,
        ensures
            t.spec_from() == StateKind::Running,
            match observation {
                ProcessObservation::StillRunning => t.spec_step() matches TransitionStep::Next(n)
                    && n is Running,
                ProcessObservation::PodChanged => {
                    &&& t.spec_step() matches TransitionStep::Next(n)
                    &&& n matches StackableState::Installing(i) && i.download_directory@
                        == pod_state.download_directory@ && i.parcel_directory@
                        == pod_state.parcel_directory@ && i.package.spec_eq(&pod_state.package->0)
                },
                ProcessObservation::Exited { success } => {
                    if success {
                        t.spec_step() matches TransitionStep::Complete(c) && c is Ok
                    } else {
                        t.spec_step() matches TransitionStep::Next(n) && (n matches
                            StackableState::Failed(f) && f.message@ == "process died"@)
                    }
                },
            },
    {
        match observation {
            ProcessObservation::StillRunning => Transition::next(
                StateKind::Running,
                StackableState::Running(Running),
            ),
            ProcessObservation::PodChanged => {
                let package = match &pod_state.package {
                    Some(p) => p.clone_pkg(),
                    None => vstd::pervasive::unreached(),
                };
                Transition::next(
                    StateKind::Running,
                    StackableState::Installing(
                        Installing {
                            download_directory: pod_state.download_directory.clone(),
                            parcel_directory: pod_state.parcel_directory.clone(),
                            package,
                        },
                    ),
                )
            },
            ProcessObservation::Exited { success } => {
                if success {
                    Transition::complete_ok(StateKind::Running)
                } else {
                    Transition::next(
                        StateKind::Running,
                        StackableState::Failed(Failed { message: String::from_str("process died") }),
                    )
                }
            },
        }
    }
}

impl Stopped {
    /// A stopped workload has nothing left to do: the run completes.
    pub fn next(self) -> (t: Transition)
        ensures
            t.spec_from() == StateKind::Stopped,
            t.spec_step() matches TransitionStep::Complete(r) && r is Ok,
    {
        Transition::complete_ok(StateKind::Stopped)
    }
}

impl Failed {
    /// A failed pod surfaces its message and the run ends; there is no
    /// retry out of failure.
    pub fn next(self) -> (t: Transition)
        ensures
            t.spec_from() == StateKind::Failed,
            t.spec_step() matches TransitionStep::Complete(r) && r matches Err(m) && m@
                == self.message@,
    {
        Transition::complete_err(StateKind::Failed, self.message)
    }
}

impl Terminated {
    /// Termination is not an error: the run completes.
    pub fn next(self) -> (t: Transition)
        ensures
            t.spec_from() == StateKind::Terminated,
            t.spec_step() matches TransitionStep::Complete(r) && r is Ok,
    {
        Transition::complete_ok(StateKind::Terminated)
    }
}

} // verus!
