use super::{SharedState, SharedStateView};
use vstd::arithmetic::div_mod::{lemma_mod_equivalence, lemma_small_mod};
use vstd::prelude::*;

verus! {

/// The id that follows `count`: one more, wrapping to zero after `u128::MAX`.
pub open spec fn next_connection_count(count: u128) -> u128 {
    if count == u128::MAX {
        0
    } else {
        (count + 1) as u128
    }
}

/// The count after `n` further connections, counted from `start`.
pub open spec fn nth_connection_count(start: u128, n: nat) -> u128
    decreases n,
{
    if n == 0 {
        start
    } else {
        next_connection_count(nth_connection_count(start, (n - 1) as nat))
    }
}

proof fn lemma_nth_connection_count(start: u128, n: nat)
    ensures
        nth_connection_count(start, n) as int == (start + n) % (u128::MAX + 1),
    decreases n,
{
    let m = u128::MAX + 1;
    if n == 0 {
        lemma_small_mod(start as nat, m as nat);
    } else {
        lemma_nth_connection_count(start, (n - 1) as nat);
        let prev = nth_connection_count(start, (n - 1) as nat);
        lemma_mod_equivalence(prev + 1, start + n, m);
        lemma_mod_equivalence(prev as int, start + n - 1, m);
        if prev == u128::MAX {
            assert((prev + 1) % m == 0) by {
                vstd::arithmetic::div_mod::lemma_mod_self_0(m);
            }
        } else {
            lemma_small_mod((prev + 1) as nat, m as nat);
        }
    }
}

/// Within any run of fewer than 2^128 connections, counted one after the
/// other from the same state, no two connections get the same id.
pub proof fn lemma_connection_ids_unique(start: u128, i: nat, j: nat)
    requires
        i < j,
        j - i <= u128::MAX,
    ensures
        nth_connection_count(start, i) != nth_connection_count(start, j),
{
    let m = u128::MAX + 1;
    lemma_nth_connection_count(start, i);
    lemma_nth_connection_count(start, j);
    lemma_mod_equivalence(start + j, start + i, m);
    lemma_small_mod((j - i) as nat, m as nat);
}

/// Records whether the proxy listener has been asked to stop.
pub fn set_shutdown(shared_state: &mut SharedState, shutdown: bool)
    ensures
        final(shared_state)@ == (SharedStateView {
            proxy_listener_shutdown: shutdown,
            ..old(shared_state)@
        }),
{
    shared_state.proxy_listener_shutdown = shutdown;
}

/// Whether the proxy listener has been asked to stop.
pub fn get_shutdown(shared_state: &SharedState) -> (r: bool)
    ensures
        r == shared_state@.proxy_listener_shutdown,
{
    shared_state.proxy_listener_shutdown
}

/// Counts one more connection and returns the new count, which serves as the
/// connection's id. The count wraps to zero after `u128::MAX`.
pub fn increase_connection_count(shared_state: &mut SharedState) -> (r: u128)
    ensures
        r == next_connection_count(old(shared_state)@.connection_count),
        final(shared_state)@ == (SharedStateView { connection_count: r, ..old(shared_state)@ }),
{
    shared_state.connection_count = shared_state.connection_count.wrapping_add(1);
    shared_state.connection_count
}

/// The number of connections counted so far (modulo 2^128).
pub fn get_connection_count(shared_state: &SharedState) -> (r: u128)
    ensures
        r == shared_state@.connection_count,
{
    shared_state.connection_count
}

/// Stores the proxy listener's status message.
pub fn set_status_message(shared_state: &mut SharedState, status_message: String)
    ensures
        final(shared_state)@ == (SharedStateView {
            proxy_listener_status_message: status_message@,
            ..old(shared_state)@
        }),
{
    shared_state.proxy_listener_status_message = status_message;
}

/// The proxy listener's status message.
pub fn get_status_message(shared_state: &SharedState) -> (r: String)
    ensures
        r@ == shared_state@.proxy_listener_status_message,
{
    shared_state.proxy_listener_status_message.clone()
}

} // verus!
