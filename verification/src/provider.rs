//! The workload provider: what it declares to the node controller and
//! the per-pod mutable state its runners carry.

use vstd::prelude::*;
use crate::backoff::ExponentialBackoffStrategy;
use crate::error::StackableError;
use crate::package::Package;

verus! {

/// The architecture this provider schedules for; pods are only placed
/// here when they tolerate the matching taint.
pub fn stackable_arch() -> (r: &'static str)
    ensures
        r@ == "stackable-linux"@,
{
    "stackable-linux"
}

/// The custom resource definitions the provider needs before it starts.
pub fn required_crds() -> (r: Vec<String>)
    ensures
        r@.len() == 1,
        r@[0]@ == "repositories.stable.stackable.de"@,
{
    let mut v: Vec<String> = Vec::new();
    v.push(String::from_str("repositories.stable.stackable.de"));
    v
}

/// The names among `checked` whose lookup found nothing, in order.
pub open spec fn spec_missing(checked: Seq<(String, bool)>) -> Seq<Seq<char>>
    decreases checked.len(),
{
    if checked.len() == 0 {
        Seq::empty()
    } else if !checked.last().1 {
        spec_missing(checked.drop_last()).push(checked.last().0@)
    } else {
        spec_missing(checked.drop_last())
    }
}

/// The names that remain after checking each required definition against
/// the cluster: exactly those the lookup did not find, in order.
pub fn missing_crds(checked: &Vec<(String, bool)>) -> (r: Vec<String>)
    ensures
        r@.map_values(|s: String| s@) == spec_missing(checked@),
{
    let mut r: Vec<String> = Vec::new();
    let mut i: usize = 0;
    while i < checked.len()
        invariant
            0 <= i <= checked@.len(),
            r@.map_values(|s: String| s@) == spec_missing(checked@.take(i as int)),
        decreases checked@.len() - i,
    {
        if !checked[i].1 {
            r.push(checked[i].0.clone());
        }
        proof {
            assert(checked@.take(i + 1).drop_last() =~= checked@.take(i as int));
            assert(checked@.take(i + 1).last() == checked@[i as int]);
            if !checked@[i as int].1 {
                assert(r@.map_values(|s: String| s@) =~= spec_missing(checked@.take(i as int)).push(
                    checked@[i as int].0@,
                ));
            }
        }
        i = i + 1;
    }
    proof {
        assert(checked@.take(checked@.len() as int) =~= checked@);
    }
    r
}

/// Per-pod mutable state a runner owns for its whole life: where
/// packages are downloaded, unpacked and configured, which package the
/// pod resolved to, and the backoff between download retries.
pub struct PodState {
    pub download_directory: String,
    pub parcel_directory: String,
    pub config_directory: String,
    pub package: Option<Package>,
    pub package_download_backoff_strategy: ExponentialBackoffStrategy,
}

impl PodState {
    pub open spec fn wf(&self) -> bool {
        self.package_download_backoff_strategy.wf()
    }
}

/// The provider itself: shared, effectively immutable configuration.
pub struct StackableProvider {
    pub download_directory: String,
    pub parcel_directory: String,
    pub config_directory: String,
}

impl StackableProvider {
    /// Build the provider once the required custom resource definitions
    /// have been checked: it starts exactly when none is missing.
    pub fn new(
        download_directory: String,
        parcel_directory: String,
        config_directory: String,
        missing: Vec<String>,
    ) -> (r: Result<StackableProvider, StackableError>)
        ensures
            match r {
                Ok(p) => {
                    &&& missing@.len() == 0
                    &&& p.download_directory@ == download_directory@
                    &&& p.parcel_directory@ == parcel_directory@
                    &&& p.config_directory@ == config_directory@
                },
                Err(e) => missing@.len() > 0 && (e matches StackableError::CrdMissing {
                    missing_crds,
                } && missing_crds@ == missing@),
            },
    {
        if missing.len() == 0 {
            Ok(StackableProvider { download_directory, parcel_directory, config_directory })
        } else {
            Err(StackableError::CrdMissing { missing_crds: missing })
        }
    }

    /// Customize the node object: the provider's architecture, and the
    /// taints that keep pods away unless they target it explicitly.
    pub fn node(&self, builder: &mut crate::node::NodeBuilder)
        ensures
            final(builder).architecture@ == "stackable-linux"@,
            final(builder).taints@.len() == old(builder).taints@.len() + 2,
            forall|i: int|
                0 <= i < old(builder).taints@.len() ==> final(builder).taints@[i] == old(
                    builder,
                ).taints@[i],
            final(builder).taints@[final(builder).taints@.len() - 2].effect@ == "NoSchedule"@,
            final(builder).taints@[final(builder).taints@.len() - 2].key@
                == "kubernetes.io/arch"@,
            final(builder).taints@[final(builder).taints@.len() - 2].value@ == "stackable-linux"@,
            final(builder).taints@.last().effect@ == "NoExecute"@,
            final(builder).taints@.last().key@ == "kubernetes.io/arch"@,
            final(builder).taints@.last().value@ == "stackable-linux"@,
    {
        let arch = stackable_arch();
        builder.set_architecture(arch);
        builder.add_taint("NoSchedule", "kubernetes.io/arch", arch);
        builder.add_taint("NoExecute", "kubernetes.io/arch", arch);
    }

    /// Fresh per-pod state for a runner that is about to start.
    pub fn initialize_pod_state(&self) -> (ps: PodState)
        ensures
            ps.wf(),
            ps.download_directory@ == self.download_directory@,
            ps.parcel_directory@ == self.parcel_directory@,
            ps.config_directory@ == self.config_directory@,
            ps.package is None,
            ps.package_download_backoff_strategy.attempts == 0,
    {
        PodState {
            download_directory: self.download_directory.clone(),
            parcel_directory: self.parcel_directory.clone(),
            config_directory: self.config_directory.clone(),
            package: None,
            package_download_backoff_strategy: ExponentialBackoffStrategy::new(),
        }
    }
}

} // verus!
