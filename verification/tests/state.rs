use evm_generation::error::GenerationError;
use evm_generation::labels::{KernelLabel, KernelLabels};
use evm_generation::memory::{MemoryAddress, Segment};
use evm_generation::primitives::{Address, H256, U256};
use evm_generation::registers::RegistersState;
use evm_generation::state::{GenerationInputs, GenerationState, MAX_TO_SHOW, OBSERVE_NEW_ADDRESS};

const OBSERVE_AT: usize = 0x2a;

fn kernel_labels() -> KernelLabels {
    KernelLabels::new(vec![
        KernelLabel { name: "main".to_string(), offset: 0 },
        KernelLabel { name: OBSERVE_NEW_ADDRESS.to_string(), offset: OBSERVE_AT },
        KernelLabel { name: "halt".to_string(), offset: 0x90 },
    ])
}

fn words(values: &[u64]) -> Vec<U256> {
    values.iter().map(|v| U256::from_u64(*v)).collect()
}

fn fresh(mpt: &[u64], rlp: &[u64]) -> GenerationState<u64> {
    let inputs = GenerationInputs {
        signed_txns: vec![vec![0xf8, 0x01], vec![0xf8, 0x02]],
        mpt_prover_inputs: words(mpt),
        rlp_prover_inputs: words(rlp),
    };
    GenerationState::new(inputs, &[0x60, 0x01, 0x56], &kernel_labels()).unwrap()
}

fn push_stack(state: &mut GenerationState<u64>, word: U256) {
    let at = MemoryAddress {
        context: state.registers.context,
        segment: Segment::Stack,
        virt: state.registers.stack_len,
    };
    state.memory.set(at, word);
    state.registers.stack_len += 1;
}

#[test]
fn new_state_starts_zeroed() {
    let state = fresh(&[1, 2], &[3]);
    assert_eq!(state.registers, RegistersState::default());
    assert_eq!(
        state.registers,
        RegistersState { program_counter: 0, is_kernel: false, stack_len: 0, context: 0 }
    );
    assert_eq!(state.traces.len(), 0);
    assert_eq!(state.next_txn_index, 0);
    assert_eq!(state.state_key_to_address.len(), 0);
    assert_eq!(state.observe_new_address, OBSERVE_AT);
    assert_eq!(state.mpt_prover_inputs.len(), 2);
    assert_eq!(state.rlp_prover_inputs.len(), 1);
    assert_eq!(state.inputs.signed_txns.len(), 2);
    assert!(state.stack().is_empty());
}

#[test]
fn new_state_loads_kernel_code() {
    let state = fresh(&[], &[]);
    let code = |virt| MemoryAddress { context: 0, segment: Segment::Code, virt };
    assert_eq!(state.memory.get(code(0)), U256::from_u64(0x60));
    assert_eq!(state.memory.get(code(1)), U256::from_u64(0x01));
    assert_eq!(state.memory.get(code(2)), U256::from_u64(0x56));
    assert_eq!(state.memory.get(code(3)), U256::zero());
    let stack = MemoryAddress { context: 0, segment: Segment::Stack, virt: 0 };
    assert_eq!(state.memory.get(stack), U256::zero());
}

#[test]
fn new_fails_without_the_label() {
    let labels = KernelLabels::new(vec![KernelLabel { name: "main".to_string(), offset: 0 }]);
    let inputs = GenerationInputs {
        signed_txns: vec![],
        mpt_prover_inputs: vec![],
        rlp_prover_inputs: vec![],
    };
    let made = GenerationState::<u64>::new(inputs, &[], &labels);
    assert_eq!(made.err(), Some(GenerationError::UnknownLabel));
}

#[test]
fn rollback_restores_registers_and_trace() {
    let mut state = fresh(&[], &[]);
    state.traces.push(10);
    state.traces.push(11);
    state.registers.program_counter = 7;
    state.registers.stack_len = 2;
    let registers = state.registers;
    let checkpoint = state.checkpoint();

    state.traces.push(12);
    state.traces.push(13);
    state.traces.push(14);
    state.registers.program_counter = 99;
    state.registers.is_kernel = true;
    state.registers.stack_len = 5;
    state.registers.context = 3;

    state.rollback(checkpoint);
    assert_eq!(state.registers, registers);
    assert_eq!(state.traces.rows, vec![10, 11]);
}

#[test]
fn rollback_with_nothing_since_changes_nothing() {
    let mut state = fresh(&[], &[]);
    state.traces.push(1);
    let registers = state.registers;
    let checkpoint = state.checkpoint();
    state.rollback(checkpoint);
    assert_eq!(state.registers, registers);
    assert_eq!(state.traces.rows, vec![1]);
}

#[test]
fn rollback_does_not_restore_memory() {
    let mut state = fresh(&[], &[]);
    let at = MemoryAddress { context: 0, segment: Segment::MainMemory, virt: 4 };
    let checkpoint = state.checkpoint();
    state.memory.set(at, U256::from_u64(77));
    state.rollback(checkpoint);
    assert_eq!(state.memory.get(at), U256::from_u64(77));
}

#[test]
fn rollback_leaves_queues_and_observations() {
    let mut state = fresh(&[5, 6], &[]);
    let checkpoint = state.checkpoint();
    assert_eq!(state.pop_mpt_prover_input(), Ok(U256::from_u64(5)));
    state.observe_address(Address { bytes: [9; 20] });
    state.next_txn_index = 1;
    state.rollback(checkpoint);
    assert_eq!(state.pop_mpt_prover_input(), Ok(U256::from_u64(6)));
    assert_eq!(state.state_key_to_address.len(), 1);
    assert_eq!(state.next_txn_index, 1);
}

#[test]
fn nested_checkpoints_roll_back_independently() {
    let mut state = fresh(&[], &[]);
    state.traces.push(1);
    state.registers.program_counter = 10;
    let at_outer = state.registers;
    let outer = state.checkpoint();

    state.traces.push(2);
    state.traces.push(3);
    state.registers.program_counter = 20;
    let at_inner = state.registers;
    let inner = state.checkpoint();

    state.traces.push(4);
    state.registers.program_counter = 30;
    state.registers.stack_len = 8;

    state.rollback(inner);
    assert_eq!(state.registers, at_inner);
    assert_eq!(state.traces.rows, vec![1, 2, 3]);

    state.rollback(outer);
    assert_eq!(state.registers, at_outer);
    assert_eq!(state.traces.rows, vec![1]);
}

#[test]
fn queues_yield_in_supplied_order() {
    let mut state = fresh(&[11, 22, 33, 44], &[7, 8]);
    assert_eq!(state.pop_mpt_prover_input(), Ok(U256::from_u64(11)));
    assert_eq!(state.pop_rlp_prover_input(), Ok(U256::from_u64(7)));
    assert_eq!(state.pop_mpt_prover_input(), Ok(U256::from_u64(22)));
    assert_eq!(state.pop_mpt_prover_input(), Ok(U256::from_u64(33)));
    assert_eq!(state.pop_rlp_prover_input(), Ok(U256::from_u64(8)));
    assert_eq!(state.pop_mpt_prover_input(), Ok(U256::from_u64(44)));
    assert_eq!(state.mpt_prover_inputs.len(), 0);
    assert_eq!(state.rlp_prover_inputs.len(), 0);
}

#[test]
fn exhausted_queue_reports_every_time() {
    let mut state = fresh(&[1], &[]);
    assert_eq!(state.pop_mpt_prover_input(), Ok(U256::from_u64(1)));
    for _ in 0..3 {
        assert_eq!(state.pop_mpt_prover_input(), Err(GenerationError::WitnessQueueExhausted));
        assert_eq!(state.pop_rlp_prover_input(), Err(GenerationError::WitnessQueueExhausted));
    }
    assert_eq!(state.mpt_prover_inputs.len(), 0);
}

#[test]
fn observing_twice_keeps_one_entry() {
    let mut state = fresh(&[], &[]);
    let address = Address { bytes: [0xab; 20] };
    let key = address.state_key();

    state.observe_address(address);
    assert_eq!(state.state_key_to_address.len(), 1);
    assert_eq!(state.state_key_to_address.get(&key), Some(address));

    state.observe_address(address);
    assert_eq!(state.state_key_to_address.len(), 1);
    assert_eq!(state.state_key_to_address.get(&key), Some(address));
}

#[test]
fn observing_leaves_registers_and_trace() {
    let mut state = fresh(&[], &[]);
    state.traces.push(5);
    state.registers.program_counter = 3;
    let registers = state.registers;
    state.observe_address(Address { bytes: [1; 20] });
    assert_eq!(state.registers, registers);
    assert_eq!(state.traces.rows, vec![5]);
}

#[test]
fn record_address_replaces_under_the_same_key() {
    let mut state = fresh(&[], &[]);
    let key = H256 { bytes: [3; 32] };
    let other = H256 { bytes: [4; 32] };
    state.record_address(key, Address { bytes: [1; 20] });
    state.record_address(other, Address { bytes: [2; 20] });
    state.record_address(key, Address { bytes: [5; 20] });
    assert_eq!(state.state_key_to_address.len(), 2);
    assert_eq!(state.state_key_to_address.get(&key), Some(Address { bytes: [5; 20] }));
    assert_eq!(state.state_key_to_address.get(&other), Some(Address { bytes: [2; 20] }));
    assert_eq!(state.state_key_to_address.get(&H256 { bytes: [0; 32] }), None);
}

#[test]
fn jump_to_label_observes_top_of_stack() {
    let mut state = fresh(&[], &[]);
    push_stack(&mut state, U256::from_u64(0xdead));
    push_stack(&mut state, U256::from_u64(1));
    assert_eq!(state.jump_to(OBSERVE_AT), Ok(()));
    assert_eq!(state.registers.program_counter, OBSERVE_AT);
    assert_eq!(state.registers.stack_len, 2);

    let mut bytes = [0u8; 20];
    bytes[19] = 1;
    let address = Address { bytes };
    assert_eq!(state.state_key_to_address.len(), 1);
    assert_eq!(state.state_key_to_address.get(&address.state_key()), Some(address));
    assert_eq!(state.stack(), vec![U256::from_u64(1), U256::from_u64(0xdead)]);
}

#[test]
fn jump_elsewhere_leaves_map_and_needs_no_stack() {
    let mut state = fresh(&[], &[]);
    assert_eq!(state.jump_to(0x90), Ok(()));
    assert_eq!(state.registers.program_counter, 0x90);
    assert_eq!(state.state_key_to_address.len(), 0);

    push_stack(&mut state, U256::from_u64(1));
    assert_eq!(state.jump_to(OBSERVE_AT + 1), Ok(()));
    assert_eq!(state.registers.program_counter, OBSERVE_AT + 1);
    assert_eq!(state.state_key_to_address.len(), 0);
}

#[test]
fn jump_to_label_with_empty_stack_underflows() {
    let mut state = fresh(&[], &[]);
    assert_eq!(state.jump_to(OBSERVE_AT), Err(GenerationError::StackUnderflow));
    assert_eq!(state.registers.program_counter, OBSERVE_AT);
    assert_eq!(state.state_key_to_address.len(), 0);
}

#[test]
fn stack_of_three_shows_three_from_the_top() {
    let mut state = fresh(&[], &[]);
    for v in [10, 20, 30] {
        push_stack(&mut state, U256::from_u64(v));
    }
    assert_eq!(state.stack(), words(&[30, 20, 10]));
    assert_eq!(state.registers.stack_len, 3);
}

#[test]
fn stack_of_fifteen_shows_top_ten() {
    let mut state = fresh(&[], &[]);
    for v in 1..=15 {
        push_stack(&mut state, U256::from_u64(v));
    }
    let shown = state.stack();
    assert_eq!(shown.len(), MAX_TO_SHOW);
    assert_eq!(shown, words(&[15, 14, 13, 12, 11, 10, 9, 8, 7, 6]));
}

#[test]
fn stack_of_exactly_ten_shows_all() {
    let mut state = fresh(&[], &[]);
    for v in 1..=10 {
        push_stack(&mut state, U256::from_u64(v));
    }
    assert_eq!(state.stack(), words(&[10, 9, 8, 7, 6, 5, 4, 3, 2, 1]));
}

#[test]
fn stack_follows_the_current_context() {
    let mut state = fresh(&[], &[]);
    push_stack(&mut state, U256::from_u64(1));
    state.registers.context = 2;
    state.registers.stack_len = 0;
    push_stack(&mut state, U256::from_u64(2));
    assert_eq!(state.stack(), words(&[2]));
    state.registers.context = 0;
    assert_eq!(state.stack(), words(&[1]));
}

#[test]
fn stack_peek_reads_by_depth() {
    let mut state = fresh(&[], &[]);
    for v in [10, 20, 30] {
        push_stack(&mut state, U256::from_u64(v));
    }
    assert_eq!(state.stack_peek(0), Ok(U256::from_u64(30)));
    assert_eq!(state.stack_peek(2), Ok(U256::from_u64(10)));
    assert_eq!(state.stack_peek(3), Err(GenerationError::StackUnderflow));
    assert_eq!(state.stack_peek(usize::MAX), Err(GenerationError::StackUnderflow));
    assert_eq!(state.registers.stack_len, 3);
}

#[test]
fn rollback_hides_words_pushed_since() {
    let mut state = fresh(&[], &[]);
    push_stack(&mut state, U256::from_u64(1));
    let checkpoint = state.checkpoint();
    push_stack(&mut state, U256::from_u64(2));
    state.rollback(checkpoint);
    assert_eq!(state.stack(), words(&[1]));
    assert_eq!(state.stack_peek(1), Err(GenerationError::StackUnderflow));
}

#[test]
fn transaction_cursor_advances_by_one() {
    let mut state = fresh(&[], &[]);
    state.advance_txn_index();
    assert_eq!(state.next_txn_index, 1);
    state.advance_txn_index();
    assert_eq!(state.next_txn_index, 2);
    let checkpoint = state.checkpoint();
    state.advance_txn_index();
    state.rollback(checkpoint);
    assert_eq!(state.next_txn_index, 3);
}
