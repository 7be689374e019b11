//! The node lifecycle controller's data: the node object the agent
//! registers, the drain patch, the renewal cadence, and the choice of
//! the default network interface.

use vstd::prelude::*;

verus! {

/// How often the node's lease and readiness are renewed.
pub const NODE_RENEW_INTERVAL_MS: u64 = 10000;

/// A taint on the node object.
pub struct Taint {
    pub effect: String,
    pub key: String,
    pub value: String,
}

/// What a provider may customize before the node object is built.
pub struct NodeBuilder {
    pub architecture: String,
    pub taints: Vec<Taint>,
}

impl NodeBuilder {
    pub fn new() -> (b: NodeBuilder)
        ensures
            b.architecture@.len() == 0,
            b.taints@.len() == 0,
    {
        NodeBuilder { architecture: String::new(), taints: Vec::new() }
    }

    pub fn set_architecture(&mut self, architecture: &str)
        ensures
            final(self).architecture@ == architecture@,
            final(self).taints == old(self).taints,
    {
        self.architecture = String::from_str(architecture);
    }

    pub fn add_taint(&mut self, effect: &str, key: &str, value: &str)
        ensures
            final(self).architecture == old(self).architecture,
            final(self).taints@.len() == old(self).taints@.len() + 1,
            forall|i: int|
                0 <= i < old(self).taints@.len() ==> final(self).taints@[i] == old(self).taints@[i],
            final(self).taints@.last().effect@ == effect@,
            final(self).taints@.last().key@ == key@,
            final(self).taints@.last().value@ == value@,
    {
        self.taints.push(
            Taint {
                effect: String::from_str(effect),
                key: String::from_str(key),
                value: String::from_str(value),
            },
        );
    }
}

/// The node object the agent registers and keeps patched.
pub struct NodeSpec {
    pub name: String,
    pub architecture: String,
    pub labels: Vec<(String, String)>,
    pub taints: Vec<Taint>,
    pub capacity_pods: u64,
    pub unschedulable: bool,
    pub ready: bool,
    pub ready_reason: String,
}

/// Build the node object from the configuration and the customized
/// builder: the architecture labels, the agent role label, the
/// provider's taints, the pod capacity; schedulable and ready.
pub fn build_node(name: &str, max_pods: u64, builder: NodeBuilder) -> (n: NodeSpec)
    ensures
        n.name@ == name@,
        n.architecture@ == builder.architecture@,
        n.labels@.len() == 2,
        n.labels@[0].0@ == "beta.kubernetes.io/arch"@,
        n.labels@[0].1@ == builder.architecture@,
        n.labels@[1].0@ == "kubernetes.io/role"@,
        n.labels@[1].1@ == "agent"@,
        n.taints == builder.taints,
        n.capacity_pods == max_pods,
        !n.unschedulable,
        n.ready,
{
    let mut labels: Vec<(String, String)> = Vec::new();
    labels.push((String::from_str("beta.kubernetes.io/arch"), builder.architecture.clone()));
    labels.push((String::from_str("kubernetes.io/role"), String::from_str("agent")));
    NodeSpec {
        name: String::from_str(name),
        architecture: builder.architecture,
        labels,
        taints: builder.taints,
        capacity_pods: max_pods,
        unschedulable: false,
        ready: true,
        ready_reason: String::new(),
    }
}

/// Drain the node on shutdown: no new pods are scheduled, and the node
/// reports not-ready with the shutdown reason. Nothing else changes.
pub fn drain_patch(node: &mut NodeSpec)
    ensures
        final(node).unschedulable,
        !final(node).ready,
        final(node).ready_reason@ == "NodeShutdown"@,
        final(node).name == old(node).name,
        final(node).architecture == old(node).architecture,
        final(node).labels == old(node).labels,
        final(node).taints == old(node).taints,
        final(node).capacity_pods == old(node).capacity_pods,
{
    node.unschedulable = true;
    node.ready = false;
    node.ready_reason = String::from_str("NodeShutdown");
}

/// Whether a renewal cycle is due.
pub fn renewal_due(elapsed_ms: u64) -> (r: bool)
    ensures
        r == (elapsed_ms >= NODE_RENEW_INTERVAL_MS),
{
    elapsed_ms >= NODE_RENEW_INTERVAL_MS
}

/// What the node agent knows of one network interface.
pub struct InterfaceSummary {
    pub up: bool,
    pub loopback: bool,
    pub address_count: usize,
}

impl InterfaceSummary {
    /// An interface is usable as the node's default when it is up, not
    /// the loopback, and carries at least one address.
    pub open spec fn spec_usable(&self) -> bool {
        self.up && !self.loopback && self.address_count > 0
    }
}

/// The first usable interface, the one the node advertises.
pub fn default_interface_index(interfaces: &Vec<InterfaceSummary>) -> (r: Option<usize>)
    ensures
        match r {
            Some(i) => {
                &&& i < interfaces@.len()
                &&& interfaces@[i as int].spec_usable()
                &&& forall|j: int| 0 <= j < i ==> !(#[trigger] interfaces@[j]).spec_usable()
            },
            None => forall|j: int|
                0 <= j < interfaces@.len() ==> !(#[trigger] interfaces@[j]).spec_usable(),
        },
{
    let mut i: usize = 0;
    while i < interfaces.len()
        invariant
            0 <= i <= interfaces@.len(),
            forall|j: int| 0 <= j < i ==> !(#[trigger] interfaces@[j]).spec_usable(),
        decreases interfaces@.len() - i,
    {
        let candidate = &interfaces[i];
        if candidate.up && !candidate.loopback && candidate.address_count > 0 {
            return Some(i);
        }
        i = i + 1;
    }
    None
}

} // verus!
