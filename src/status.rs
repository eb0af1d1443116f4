//! The status each module reports about itself.
use vstd::prelude::*;

verus! {

/// Whether a module is running.
pub enum ModuleState {
    Unknown,
    Running,
    Stopped,
}

/// A module's state with a human-readable message.
pub struct ProxyAgentDetailStatus {
    pub status: ModuleState,
    pub message: String,
    pub states: Option<Vec<(String, String)>>,
}

} // verus!
