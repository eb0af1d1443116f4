//! Clients of the host endpoints.
pub mod wire_server_client;
