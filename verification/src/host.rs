use vstd::prelude::*;
use crate::model::SlotState;
use soroban_sdk::Env;
use soroban_sdk::Symbol;
use soroban_sdk::TryFromVal;
use soroban_sdk::Val;

verus! {

/// Declares soroban_sdk::Env, the handle to the host environment that owns
/// the key/value store, so that contracts can speak of it.
#[verifier::external_type_specification]
#[verifier::external_body]
pub struct ExEnv(soroban_sdk::Env);

/// Whether the environment is currently executing inside a contract
/// invocation. The host provides that context to every call it makes;
/// storage is only reachable from within it.
pub uninterp spec fn in_invocation(e: Env) -> bool;

/// The entries of the executing contract's persistent storage under every
/// key other than the counter key, each value abstract. The counter
/// operation leaves all of them untouched.
pub uninterp spec fn other_entries(e: Env) -> Map<Seq<char>, Seq<u8>>;

/// Whether the environment's persistent storage holds a value under the
/// counter key.
pub uninterp spec fn counter_present(e: Env) -> bool;

/// Whether the value stored under the counter key is an unsigned 32-bit
/// integer.
pub uninterp spec fn counter_is_u32(e: Env) -> bool;

/// The unsigned 32-bit integer stored under the counter key, where one is
/// present.
pub uninterp spec fn counter_value(e: Env) -> u32;

/// The contents of the counter slot, read off the environment's storage.
pub open spec fn slot_of(e: Env) -> SlotState {
    if !counter_present(e) {
        SlotState::Absent
    } else if !counter_is_u32(e) {
        SlotState::Mismatched
    } else {
        SlotState::Count(counter_value(e))
    }
}

/// Relies on soroban_sdk::storage::Persistent::has, with Symbol::new for the
/// fixed counter key: reports whether the key holds a value. Storage is
/// reachable only from within a contract invocation, hence the requires.
#[verifier::external_body]
pub(crate) fn counter_has(e: &Env) -> (r: bool)
    requires
        in_invocation(*e),
    ensures
        r == counter_present(*e),
{
    e.storage().persistent().has(&Symbol::new(e, "COUNTER"))
}

/// Relies on soroban_sdk::storage::Persistent::get read at the raw value type,
/// which returns the stored value when the key is present, and on
/// u32::try_from_val, which converts it exactly when that value is an unsigned
/// 32-bit integer. Storage is reachable only from within a contract
/// invocation, hence the requires.
#[verifier::external_body]
pub(crate) fn counter_fetch(e: &Env) -> (r: Option<u32>)
    requires
        in_invocation(*e),
    ensures
        r == (if counter_present(*e) && counter_is_u32(*e) {
            Some(counter_value(*e))
        } else {
            None::<u32>
        }),
{
    let key = Symbol::new(e, "COUNTER");
    let raw: Val = match e.storage().persistent().get(&key) {
        Option::Some(v) => v,
        Option::None => return Option::None,
    };
    match u32::try_from_val(e, &raw) {
        Result::Ok(v) => Option::Some(v),
        Result::Err(_) => Option::None,
    }
}

/// Relies on soroban_sdk::storage::Persistent::set, with Symbol::new for the
/// fixed counter key: stores the value under the key, overwriting any
/// previous value. It writes that one key alone, leaves every other entry
/// as it was, and does not leave the contract invocation, which is the only
/// context storage is reachable from, hence the requires.
#[verifier::external_body]
pub(crate) fn counter_store(e: &mut Env, v: u32)
    requires
        in_invocation(*old(e)),
    ensures
        counter_present(*final(e)),
        counter_is_u32(*final(e)),
        counter_value(*final(e)) == v,
        other_entries(*final(e)) == other_entries(*old(e)),
        in_invocation(*final(e)),
{
    e.storage().persistent().set(&Symbol::new(e, "COUNTER"), &v);
}

} // verus!
