use crate::key::Key;
use vstd::prelude::*;

pub mod key_keeper_wrapper;
pub mod proxy_listener_wrapper;

verus! {

/// Secure channel state before the key keeper has reported one.
pub const UNKNOWN_STATE: &'static str = "Unknown";

/// Status message of a module before it has reported one.
pub const UNKNOWN_STATUS_MESSAGE: &'static str = "Status unknown.";

/// Process-wide state shared by the key keeper and the proxy listener.
///
/// The fields stay private: callers go through the typed accessors of
/// `key_keeper_wrapper` and `proxy_listener_wrapper`, each of which reads or
/// assigns one field.
pub struct SharedState {
    key: Option<Key>,
    current_secure_channel_state: String,
    wireserver_rule_id: String,
    imds_rule_id: String,
    key_keeper_shutdown: bool,
    key_keeper_status_message: String,
    proxy_listener_shutdown: bool,
    connection_count: u128,
    proxy_listener_status_message: String,
}

/// What a `SharedState` holds, as plain values.
pub ghost struct SharedStateView {
    pub key: Option<Key>,
    pub current_secure_channel_state: Seq<char>,
    pub wireserver_rule_id: Seq<char>,
    pub imds_rule_id: Seq<char>,
    pub key_keeper_shutdown: bool,
    pub key_keeper_status_message: Seq<char>,
    pub proxy_listener_shutdown: bool,
    pub connection_count: u128,
    pub proxy_listener_status_message: Seq<char>,
}

impl View for SharedState {
    type V = SharedStateView;

    closed spec fn view(&self) -> SharedStateView {
        SharedStateView {
            key: self.key,
            current_secure_channel_state: self.current_secure_channel_state@,
            wireserver_rule_id: self.wireserver_rule_id@,
            imds_rule_id: self.imds_rule_id@,
            key_keeper_shutdown: self.key_keeper_shutdown,
            key_keeper_status_message: self.key_keeper_status_message@,
            proxy_listener_shutdown: self.proxy_listener_shutdown,
            connection_count: self.connection_count,
            proxy_listener_status_message: self.proxy_listener_status_message@,
        }
    }
}

impl SharedState {
    /// A fresh state: no key, unknown channel state, empty rule ids, both
    /// modules running with an unknown status, and no connection seen yet.
    pub fn new() -> (r: SharedState)
        ensures
            r@.key is None,
            r@.current_secure_channel_state == UNKNOWN_STATE@,
            r@.wireserver_rule_id == Seq::<char>::empty(),
            r@.imds_rule_id == Seq::<char>::empty(),
            !r@.key_keeper_shutdown,
            r@.key_keeper_status_message == UNKNOWN_STATUS_MESSAGE@,
            !r@.proxy_listener_shutdown,
            r@.connection_count == 0,
            r@.proxy_listener_status_message == UNKNOWN_STATUS_MESSAGE@,
    {
        SharedState {
            key: None,
            current_secure_channel_state: String::from_str(UNKNOWN_STATE),
            wireserver_rule_id: String::new(),
            imds_rule_id: String::new(),
            key_keeper_shutdown: false,
            key_keeper_status_message: String::from_str(UNKNOWN_STATUS_MESSAGE),
            proxy_listener_shutdown: false,
            connection_count: 0,
            proxy_listener_status_message: String::from_str(UNKNOWN_STATUS_MESSAGE),
        }
    }
}

impl Default for SharedState {
    /// The same fresh state as `SharedState::new`.
    fn default() -> (r: SharedState)
        ensures
            r@.key is None,
            r@.current_secure_channel_state == UNKNOWN_STATE@,
            r@.wireserver_rule_id == Seq::<char>::empty(),
            r@.imds_rule_id == Seq::<char>::empty(),
            !r@.key_keeper_shutdown,
            r@.key_keeper_status_message == UNKNOWN_STATUS_MESSAGE@,
            !r@.proxy_listener_shutdown,
            r@.connection_count == 0,
            r@.proxy_listener_status_message == UNKNOWN_STATUS_MESSAGE@,
    {
        SharedState::new()
    }
}

} // verus!
