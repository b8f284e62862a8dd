//! Fan-out deployment of one workload to a set of agents named by a label
//! selector, with fail-fast accounting of the per-agent applications.
pub mod selector;
pub mod yaml;
pub mod descriptor;
pub mod orchestrator;
pub mod provider;
