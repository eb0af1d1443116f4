use super::{SharedState, SharedStateView};
use crate::key::Key;
use vstd::prelude::*;

verus! {

/// Stores `key` as the current signing key.
pub fn set_key(shared_state: &mut SharedState, key: Key)
    ensures
        final(shared_state)@ == (SharedStateView { key: Some(key), ..old(shared_state)@ }),
{
    shared_state.key = Some(key);
}

/// Forgets the current signing key.
pub fn clear_key(shared_state: &mut SharedState)
    ensures
        final(shared_state)@ == (SharedStateView { key: None, ..old(shared_state)@ }),
{
    shared_state.key = None;
}

} // verus!

verus! {

/// The current signing key, if any.
pub fn get_key(shared_state: &SharedState) -> (r: Option<Key>)
    ensures
        r == shared_state@.key,
{
    match &shared_state.key {
        Some(k) => Some(k.clone()),
        None => None,
    }
}

/// The bytes of the current signing key, if any.
pub fn get_current_key_value(shared_state: &SharedState) -> (r: Option<String>)
    ensures
        r == (match shared_state@.key {
            Some(k) => Some(k.key),
            None => None,
        }),
{
    match get_key(shared_state) {
        Some(k) => Some(k.key),
        None => None,
    }
}

/// The guid of the current signing key, if any.
pub fn get_current_key_guid(shared_state: &SharedState) -> (r: Option<String>)
    ensures
        r == (match shared_state@.key {
            Some(k) => Some(k.guid),
            None => None,
        }),
{
    match get_key(shared_state) {
        Some(k) => Some(k.guid),
        None => None,
    }
}

/// The incarnation of the current signing key; `None` when there is no key or
/// the key carries no incarnation.
pub fn get_current_key_incarnation(shared_state: &SharedState) -> (r: Option<u32>)
    ensures
        r == (match shared_state@.key {
            Some(k) => k.incarnationId,
            None => None,
        }),
{
    match get_key(shared_state) {
        Some(k) => k.incarnationId,
        None => None,
    }
}

/// Replaces the secure channel state. Returns whether it changed, and the
/// state it held before the call.
pub fn update_current_secure_channel_state(shared_state: &mut SharedState, state: String) -> (r: (
    bool,
    String,
))
    ensures
        r.0 == (old(shared_state)@.current_secure_channel_state != state@),
        r.1@ == old(shared_state)@.current_secure_channel_state,
        final(shared_state)@ == (SharedStateView {
            current_secure_channel_state: state@,
            ..old(shared_state)@
        }),
{
    let previous = shared_state.current_secure_channel_state.clone();
    if previous == state {
        (false, previous)
    } else {
        shared_state.current_secure_channel_state = state;
        (true, previous)
    }
}

/// The current secure channel state.
pub fn get_current_secure_channel_state(shared_state: &SharedState) -> (r: String)
    ensures
        r@ == shared_state@.current_secure_channel_state,
{
    shared_state.current_secure_channel_state.clone()
}

/// Replaces the wire server rule id. Returns whether it changed, and the id
/// it held before the call.
pub fn update_wireserver_rule_id(shared_state: &mut SharedState, rule_id: String) -> (r: (
    bool,
    String,
))
    ensures
        r.0 == (old(shared_state)@.wireserver_rule_id != rule_id@),
        r.1@ == old(shared_state)@.wireserver_rule_id,
        final(shared_state)@ == (SharedStateView {
            wireserver_rule_id: rule_id@,
            ..old(shared_state)@
        }),
{
    let previous = shared_state.wireserver_rule_id.clone();
    if previous == rule_id {
        (false, previous)
    } else {
        shared_state.wireserver_rule_id = rule_id;
        (true, previous)
    }
}

/// The wire server rule id.
pub fn get_wireserver_rule_id(shared_state: &SharedState) -> (r: String)
    ensures
        r@ == shared_state@.wireserver_rule_id,
{
    shared_state.wireserver_rule_id.clone()
}

/// Replaces the instance metadata service rule id. Returns whether it
/// changed, and the id it held before the call.
pub fn update_imds_rule_id(shared_state: &mut SharedState, rule_id: String) -> (r: (bool, String))
    ensures
        r.0 == (old(shared_state)@.imds_rule_id != rule_id@),
        r.1@ == old(shared_state)@.imds_rule_id,
        final(shared_state)@ == (SharedStateView {
            imds_rule_id: rule_id@,
            ..old(shared_state)@
        }),
{
    let previous = shared_state.imds_rule_id.clone();
    if previous == rule_id {
        (false, previous)
    } else {
        shared_state.imds_rule_id = rule_id;
        (true, previous)
    }
}

/// The instance metadata service rule id.
pub fn get_imds_rule_id(shared_state: &SharedState) -> (r: String)
    ensures
        r@ == shared_state@.imds_rule_id,
{
    shared_state.imds_rule_id.clone()
}

/// Records whether the key keeper has been asked to stop.
pub fn set_shutdown(shared_state: &mut SharedState, shutdown: bool)
    ensures
        final(shared_state)@ == (SharedStateView {
            key_keeper_shutdown: shutdown,
            ..old(shared_state)@
        }),
{
    shared_state.key_keeper_shutdown = shutdown;
}

/// Whether the key keeper has been asked to stop.
pub fn get_shutdown(shared_state: &SharedState) -> (r: bool)
    ensures
        r == shared_state@.key_keeper_shutdown,
{
    shared_state.key_keeper_shutdown
}

/// Stores the key keeper's status message.
pub fn set_status_message(shared_state: &mut SharedState, status_message: String)
    ensures
        final(shared_state)@ == (SharedStateView {
            key_keeper_status_message: status_message@,
            ..old(shared_state)@
        }),
{
    shared_state.key_keeper_status_message = status_message;
}

/// The key keeper's status message.
pub fn get_status_message(shared_state: &SharedState) -> (r: String)
    ensures
        r@ == shared_state@.key_keeper_status_message,
{
    shared_state.key_keeper_status_message.clone()
}

} // verus!
