use vstd::prelude::*;

verus! {

/// What the counter's storage slot can hold: nothing yet, a counter value, or
/// a value of some other stored type, from which no counter value can be read.
#[derive(Clone, Copy, Debug, PartialEq, Eq, Structural)]
pub enum SlotState {
    Absent,
    Count(u32),
    Mismatched,
}

/// The one failure a counter call can report: the stored value is not an
/// unsigned 32-bit integer.
#[derive(Clone, Copy, Debug, PartialEq, Eq, Structural)]
pub enum CounterError {
    TypeMismatch,
}

/// The value one call returns, given what the slot held before the call: an
/// absent slot counts as zero, a stored count is incremented (wrapping at the
/// 32-bit boundary), and any other stored type is a type mismatch.
pub open spec fn step_result(s: SlotState) -> Result<u32, CounterError> {
    match s {
        SlotState::Absent => Ok(1u32),
        SlotState::Count(v) => if v == u32::MAX { Ok(0u32) } else { Ok((v + 1) as u32) },
        SlotState::Mismatched => Err(CounterError::TypeMismatch),
    }
}

/// What the slot holds after one call: the freshly returned count on success,
/// the old contents untouched on failure.
pub open spec fn step_state(s: SlotState) -> SlotState {
    match step_result(s) {
        Ok(n) => SlotState::Count(n),
        Err(_) => s,
    }
}

/// The slot contents after `n` calls on a store that starts empty.
pub open spec fn state_after(n: nat) -> SlotState
    decreases n,
{
    if n == 0 {
        SlotState::Absent
    } else {
        step_state(state_after((n - 1) as nat))
    }
}

/// Computes what one call returns for a given slot content.
pub fn next_value(slot: &SlotState) -> (r: Result<u32, CounterError>)
    ensures
        r == step_result(*slot),
{
    match slot {
        SlotState::Absent => Ok(1),
        SlotState::Count(v) => {
            if *v == u32::MAX {
                Ok(0)
            } else {
                Ok(*v + 1)
            }
        },
        SlotState::Mismatched => Err(CounterError::TypeMismatch),
    }
}

/// Law: on a store that starts empty, the nth sequential call (counting from
/// one) returns n and leaves n stored.
pub proof fn lemma_nth_call(n: nat)
    requires
        1 <= n <= u32::MAX,
    ensures
        step_result(state_after((n - 1) as nat)) == Ok::<u32, CounterError>(n as u32),
        state_after(n) == SlotState::Count(n as u32),
    decreases n,
{
    if n > 1 {
        lemma_nth_call((n - 1) as nat);
    }
}

/// Law: a call on a slot pre-seeded with a value v below the 32-bit bound
/// returns v + 1 and leaves v + 1 stored.
pub proof fn lemma_seeded_call(v: u32)
    requires
        v < u32::MAX,
    ensures
        step_result(SlotState::Count(v)) == Ok::<u32, CounterError>((v + 1) as u32),
        step_state(SlotState::Count(v)) == SlotState::Count((v + 1) as u32),
{
}

} // verus!
