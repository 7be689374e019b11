//! A verified core for a Kubernetes node agent that runs non-container
//! workloads: the per-pod state machine kernel, the pod event queue and
//! dispatcher, the watch adapter, the node lifecycle controller, the
//! supervisor's shutdown logic, and the package-repository logic of the
//! workload provider.

pub mod backoff;
pub mod configmaps;
pub mod envvars;
pub mod error;
pub mod machine;
pub mod node;
pub mod package;
pub mod pod;
pub mod provider;
pub mod queue;
pub mod repository;
pub mod runner;
pub mod shutdown;
pub mod states;
pub mod status;
pub mod urls;
pub mod wascc;
pub mod watch;
