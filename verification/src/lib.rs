pub mod host;
pub mod model;

use vstd::prelude::*;
use crate::host::{counter_fetch, counter_has, counter_store, in_invocation, other_entries, slot_of};
use crate::model::{next_value, step_result, step_state, CounterError, SlotState};
use soroban_sdk::Env;

verus! {

/// A persistent counter kept in one fixed slot of the host environment's
/// storage: each call adds one to the stored value and returns the new value.
pub struct IncrementContract;

impl IncrementContract {
    /// Reads what the counter slot currently holds. The host runs the
    /// contract inside an invocation, the one context its storage is
    /// reachable from.
    pub fn current_slot(env: &Env) -> (r: SlotState)
        requires
            in_invocation(*env),
        ensures
            r == slot_of(*env),
    {
        if counter_has(env) {
            match counter_fetch(env) {
                Some(v) => SlotState::Count(v),
                None => SlotState::Mismatched,
            }
        } else {
            SlotState::Absent
        }
    }

    /// One counter call: reads the slot (an absent slot counts as zero), adds
    /// one, stores the new value under the same key and returns it. Fails
    /// without writing when the stored value is of another type. Every other
    /// storage entry is left as it was. The host runs the contract inside an
    /// invocation, the one context its storage is reachable from.
    pub fn increment(env: &mut Env) -> (r: Result<u32, CounterError>)
        requires
            in_invocation(*old(env)),
        ensures
            r == step_result(slot_of(*old(env))),
            slot_of(*final(env)) == step_state(slot_of(*old(env))),
            other_entries(*final(env)) == other_entries(*old(env)),
            in_invocation(*final(env)),
    {
        let cur = Self::current_slot(env);
        match next_value(&cur) {
            Result::Ok(n) => {
                counter_store(env, n);
                Result::Ok(n)
            },
            Result::Err(err) => Result::Err(err),
        }
    }
}

} // verus!
