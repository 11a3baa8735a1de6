use increment::model::{next_value, CounterError, SlotState};
use increment::IncrementContract;
use soroban_sdk::testutils::{ContractFunctionSet, EnvTestConfig};
use soroban_sdk::{Address, Env, Symbol, Val};

struct StubContract;

impl ContractFunctionSet for StubContract {
    fn call(&self, _func: &str, _env: Env, _args: &[Val]) -> Option<Val> {
        None
    }
}

#[allow(deprecated)]
fn contract_env() -> (Env, Address) {
    let env = Env::new_with_config(EnvTestConfig { capture_snapshot_at_drop: false });
    let addr = env.register_contract(None, StubContract);
    (env, addr)
}

fn call_increment(env: &Env, addr: &Address) -> Result<u32, CounterError> {
    let handle = env.clone();
    env.as_contract(addr, || {
        let mut e = handle.clone();
        IncrementContract::increment(&mut e)
    })
}

fn read_slot(env: &Env, addr: &Address) -> SlotState {
    let handle = env.clone();
    env.as_contract(addr, || IncrementContract::current_slot(&handle))
}

fn seed_u32(env: &Env, addr: &Address, v: u32) {
    let handle = env.clone();
    env.as_contract(addr, || {
        handle
            .storage()
            .persistent()
            .set(&Symbol::new(&handle, "COUNTER"), &v)
    });
}

#[test]
fn empty_store_reads_absent() {
    let (env, addr) = contract_env();
    assert_eq!(read_slot(&env, &addr), SlotState::Absent);
}

#[test]
fn first_call_returns_one_and_persists_one() {
    let (env, addr) = contract_env();
    assert_eq!(call_increment(&env, &addr), Ok(1));
    assert_eq!(read_slot(&env, &addr), SlotState::Count(1));
}

#[test]
fn two_calls_return_one_then_two() {
    let (env, addr) = contract_env();
    assert_eq!(call_increment(&env, &addr), Ok(1));
    assert_eq!(read_slot(&env, &addr), SlotState::Count(1));
    assert_eq!(call_increment(&env, &addr), Ok(2));
    assert_eq!(read_slot(&env, &addr), SlotState::Count(2));
}

#[test]
fn nth_sequential_call_returns_n() {
    let (env, addr) = contract_env();
    for n in 1u32..=7 {
        assert_eq!(call_increment(&env, &addr), Ok(n));
    }
    assert_eq!(read_slot(&env, &addr), SlotState::Count(7));
}

#[test]
fn seeded_value_returns_and_persists_successor() {
    let (env, addr) = contract_env();
    seed_u32(&env, &addr, 41);
    assert_eq!(call_increment(&env, &addr), Ok(42));
    assert_eq!(read_slot(&env, &addr), SlotState::Count(42));
}

#[test]
fn mismatched_stored_type_fails_and_keeps_slot() {
    let (env, addr) = contract_env();
    let handle = env.clone();
    env.as_contract(&addr, || {
        handle.storage().persistent().set(
            &Symbol::new(&handle, "COUNTER"),
            &Symbol::new(&handle, "notanumber"),
        )
    });
    assert_eq!(
        call_increment(&env, &addr),
        Err(CounterError::TypeMismatch)
    );
    assert_eq!(read_slot(&env, &addr), SlotState::Mismatched);
}

#[test]
fn next_value_on_each_slot_kind() {
    assert_eq!(next_value(&SlotState::Absent), Ok(1));
    assert_eq!(next_value(&SlotState::Count(0)), Ok(1));
    assert_eq!(next_value(&SlotState::Count(41)), Ok(42));
    assert_eq!(
        next_value(&SlotState::Mismatched),
        Err(CounterError::TypeMismatch)
    );
}

#[test]
fn next_value_wraps_at_the_32_bit_bound() {
    assert_eq!(next_value(&SlotState::Count(u32::MAX)), Ok(0));
    assert_eq!(next_value(&SlotState::Count(u32::MAX - 1)), Ok(u32::MAX));
}
