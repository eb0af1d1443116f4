//! Verified core of a host-local guest proxy agent: shared state, audit lookup,
//! claims assembly, the authorization engine and the request pipeline's decisions.

pub mod error;
pub mod host_clients;
pub mod key;
pub mod proxy;
pub mod redirector;
pub mod shared_state;
pub mod status;
pub mod text;
