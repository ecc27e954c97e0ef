//! What holds of the generation state across several operations, stated over
//! the mathematical view that the operations' own contracts speak of.

use crate::error::GenerationError;
use crate::primitives::{keccak256, U256};
use crate::queue::{next_of, rest_of};
use crate::registers::RegistersState;
use crate::state::{address_bytes, GenerationStateView, MAX_TO_SHOW};
use vstd::prelude::*;

verus! {

/// What is still to come of a queue after `count` pops.
pub open spec fn after_pops(pending: Seq<U256>, count: nat) -> Seq<U256>
    decreases count,
{
    if count == 0 {
        pending
    } else {
        after_pops(rest_of(pending), (count - 1) as nat)
    }
}

/// After `count` pops a queue has lost its first `count` values, or all of
/// them where it had fewer.
pub proof fn lemma_after_pops(pending: Seq<U256>, count: nat)
    ensures
        count <= pending.len() ==> after_pops(pending, count) == pending.skip(count as int),
        count >= pending.len() ==> after_pops(pending, count).len() == 0,
    decreases count,
{
    if count == 0 {
        assert(pending.skip(0) =~= pending);
    } else {
        lemma_after_pops(rest_of(pending), (count - 1) as nat);
        if count <= pending.len() {
            assert(pending.drop_first().skip(count - 1) =~= pending.skip(count as int));
        }
    }
}

/// Rolling back to a checkpoint undoes exactly what came after it. Whatever
/// the registers have become and whichever rows were appended since the
/// checkpoint was taken, the rollback gives the registers and the trace log
/// of that moment, and touches nothing else.
pub proof fn law_rollback_restores_checkpoint<R>(
    before: GenerationStateView<R>,
    after: GenerationStateView<R>,
)
    requires
        before.rows.len() <= usize::MAX,
        before.rows.is_prefix_of(after.rows),
    ensures
        after.rollback(before.checkpoint()).registers == before.registers,
        after.rollback(before.checkpoint()).rows == before.rows,
        after.rollback(before.checkpoint()) == (GenerationStateView {
            registers: before.registers,
            rows: before.rows,
            ..after
        }),
{
    assert(after.rows.subrange(0, before.rows.len() as int) =~= before.rows);
}

/// Checkpoints nest. With an outer checkpoint taken first and an inner one
/// later, rolling back to the inner one restores the moment it was taken,
/// keeps every row written between the two, and leaves the outer checkpoint
/// good for a rollback of its own.
pub proof fn law_nested_checkpoints<R>(
    at_outer: GenerationStateView<R>,
    at_inner: GenerationStateView<R>,
    latest: GenerationStateView<R>,
)
    requires
        at_inner.rows.len() <= usize::MAX,
        at_outer.rows.is_prefix_of(at_inner.rows),
        at_inner.rows.is_prefix_of(latest.rows),
    ensures
        latest.rollback(at_inner.checkpoint()).registers == at_inner.registers,
        latest.rollback(at_inner.checkpoint()).rows == at_inner.rows,
        at_outer.rows.is_prefix_of(latest.rollback(at_inner.checkpoint()).rows),
        latest.rollback(at_inner.checkpoint()).rollback(at_outer.checkpoint()).registers
            == at_outer.registers,
        latest.rollback(at_inner.checkpoint()).rollback(at_outer.checkpoint()).rows
            == at_outer.rows,
{
    law_rollback_restores_checkpoint(at_inner, latest);
    law_rollback_restores_checkpoint(at_outer, latest.rollback(at_inner.checkpoint()));
}

/// A queue hands its values out in the order in which they were supplied:
/// after `k` pops the next pop gives the value at index `k`.
pub proof fn law_queue_keeps_order(values: Seq<U256>, k: nat)
    requires
        k < values.len(),
    ensures
        next_of(after_pops(values, k)) == Ok::<U256, GenerationError>(values[k as int]),
{
    lemma_after_pops(values, k);
}

/// Once every supplied value has been taken, each further pop reports that
/// the queue is exhausted, however many have gone before.
pub proof fn law_queue_exhausted(values: Seq<U256>, k: nat)
    requires
        k >= values.len(),
    ensures
        after_pops(values, k).len() == 0,
        next_of(after_pops(values, k)) == Err::<U256, GenerationError>(
            GenerationError::WitnessQueueExhausted,
        ),
{
    lemma_after_pops(values, k);
}

/// Observing an address a second time changes nothing: the map then holds what
/// it held after the first time, the address under its state key, and has as
/// many keys. Registers and trace log are never touched by an observation.
pub proof fn law_observe_is_idempotent<R>(state: GenerationStateView<R>, address: Seq<u8>)
    ensures
        state.observe(address).observe(address) == state.observe(address),
        state.observe(address).observed.dom().contains(keccak256(address)),
        state.observe(address).observed[keccak256(address)] == address,
        state.observe(address).observe(address).observed[keccak256(address)] == address,
        state.observe(address).observe(address).observed.dom().len() == state.observe(
            address,
        ).observed.dom().len(),
        state.observe(address).registers == state.registers,
        state.observe(address).rows == state.rows,
{
    assert(state.observe(address).observe(address).observed =~= state.observe(address).observed);
}

/// A jump to any destination but the label for a new address only moves the
/// program counter: the map of observed addresses stays as it is, and the
/// stack is not looked at, so that the jump succeeds on an empty stack too.
pub proof fn law_jump_elsewhere<R>(state: GenerationStateView<R>, dst: usize)
    requires
        dst != state.observe_new_address,
    ensures
        !state.jump_underflows(dst),
        state.jump(dst).observed == state.observed,
        state.jump(dst) == (GenerationStateView {
            registers: RegistersState { program_counter: dst, ..state.registers },
            ..state
        }),
{
}

/// A jump to the label for a new address, with a word on top of the stack,
/// leaves the address that the word stands for in the map, under its state
/// key, and leaves stack and memory as they were.
pub proof fn law_jump_observes_top<R>(state: GenerationStateView<R>)
    requires
        state.registers.stack_len > 0,
    ensures
        !state.jump_underflows(state.observe_new_address),
        state.jump(state.observe_new_address).observed == state.observed.insert(
            keccak256(address_bytes(state.stack_word(0))),
            address_bytes(state.stack_word(0)),
        ),
        state.jump(state.observe_new_address).memory == state.memory,
        state.jump(state.observe_new_address).registers.stack_len == state.registers.stack_len,
{
}

/// The stack shown has as many entries as the stack holds, up to
/// `MAX_TO_SHOW`, and lists them from the top down.
pub proof fn law_shown_stack_is_top<R>(state: GenerationStateView<R>)
    ensures
        state.registers.stack_len <= MAX_TO_SHOW ==> state.shown_stack().len()
            == state.registers.stack_len,
        state.registers.stack_len > MAX_TO_SHOW ==> state.shown_stack().len() == MAX_TO_SHOW,
        forall|depth: int|
            0 <= depth < state.shown_stack().len() ==> state.shown_stack()[depth]
                == state.stack_word(depth),
{
}

} // verus!
