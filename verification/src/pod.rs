//! Pod identity and immutable pod snapshots as the dispatcher and the
//! per-pod runners see them.

use vstd::prelude::*;

verus! {

/// The pair under which a pod is tracked everywhere in the agent:
/// its namespace and its name.
pub struct PodKey {
    pub namespace: String,
    pub name: String,
}

impl PodKey {
    pub open spec fn key_eq_spec(&self, other: &PodKey) -> bool {
        self.namespace@ == other.namespace@ && self.name@ == other.name@
    }

    pub fn new(namespace: &str, name: &str) -> (k: PodKey)
        ensures
            k.namespace@ == namespace@,
            k.name@ == name@,
    {
        PodKey { namespace: String::from_str(namespace), name: String::from_str(name) }
    }

    pub fn clone_key(&self) -> (k: PodKey)
        ensures
            k.key_eq_spec(self),
    {
        PodKey { namespace: self.namespace.clone(), name: self.name.clone() }
    }
}

/// One container of a pod: its name and the image reference it asks for.
pub struct ContainerSpec {
    pub name: String,
    pub image: Option<String>,
}

/// A volume a pod declares; only config-map volumes matter to this agent.
pub struct VolumeSpec {
    pub name: String,
    pub config_map: Option<String>,
}

/// A mount point a container declares.
pub struct MountSpec {
    pub name: String,
    pub mount_path: String,
}

/// An immutable view of the last-observed pod object, as runners see it.
/// Runners receive a fresh snapshot on every watch update and never
/// change one in place.
pub struct PodSnapshot {
    pub key: PodKey,
    pub containers: Vec<ContainerSpec>,
}

impl ContainerSpec {
    pub open spec fn spec_eq(&self, other: &ContainerSpec) -> bool {
        &&& self.name@ == other.name@
        &&& match (self.image, other.image) {
            (Some(a), Some(b)) => a@ == b@,
            (None, None) => true,
            _ => false,
        }
    }

    pub fn clone_container(&self) -> (c: ContainerSpec)
        ensures
            c.spec_eq(self),
    {
        let image = match &self.image {
            Some(i) => Some(i.clone()),
            None => None,
        };
        ContainerSpec { name: self.name.clone(), image }
    }
}

impl PodSnapshot {
    pub open spec fn spec_eq(&self, other: &PodSnapshot) -> bool {
        &&& self.key.key_eq_spec(&other.key)
        &&& self.containers@.len() == other.containers@.len()
        &&& forall|i: int|
            0 <= i < self.containers@.len() ==> self.containers@[i].spec_eq(&other.containers@[i])
    }

    pub fn clone_snapshot(&self) -> (p: PodSnapshot)
        ensures
            p.spec_eq(self),
    {
        let mut containers: Vec<ContainerSpec> = Vec::new();
        let mut i: usize = 0;
        while i < self.containers.len()
            invariant
                0 <= i <= self.containers@.len(),
                containers@.len() == i,
                forall|j: int|
                    0 <= j < i ==> containers@[j].spec_eq(&self.containers@[j]),
            decreases self.containers@.len() - i,
        {
            containers.push(self.containers[i].clone_container());
            i = i + 1;
        }
        PodSnapshot { key: self.key.clone_key(), containers }
    }
}

impl PartialEq for PodKey {
    fn eq(&self, other: &PodKey) -> (r: bool) {
        self.namespace == other.namespace && self.name == other.name
    }
}

impl vstd::std_specs::cmp::PartialEqSpecImpl for PodKey {
    open spec fn obeys_eq_spec() -> bool {
        true
    }

    open spec fn eq_spec(&self, other: &PodKey) -> bool {
        self.namespace@ == other.namespace@ && self.name@ == other.name@
    }
}

} // verus!
