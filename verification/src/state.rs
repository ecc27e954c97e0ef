//! The generation state: everything that trace generation keeps while the
//! interpreter steps through a program, and the checkpoints that let a
//! speculative stretch of execution be undone.

use crate::error::GenerationError;
use crate::labels::{offset_of, KernelLabels};
use crate::memory::{MemoryAddress, MemoryState, Segment};
use crate::observed::ObservedAddresses;
use crate::primitives::{keccak256, Address, H256, U256};
use crate::queue::{next_of, rest_of, WitnessQueue};
use crate::registers::RegistersState;
use crate::traces::{truncated, TraceCheckpoint, Traces};
use vstd::prelude::*;

verus! {

/// The kernel label that the bootstrap code jumps to when an address comes
/// into play for the first time, the address on top of the stack.
pub const OBSERVE_NEW_ADDRESS: &'static str = "observe_new_address";

/// The most stack entries that `GenerationState::stack` shows.
pub const MAX_TO_SHOW: usize = 10;

/// What a run is started on. The witness values arrive flattened, in the order
/// in which the interpreter will ask for them.
#[derive(Debug)]
pub struct GenerationInputs {
    /// The signed transactions of the batch, each in its encoded form.
    pub signed_txns: Vec<Vec<u8>>,
    /// The witness values of the input tries.
    pub mpt_prover_inputs: Vec<U256>,
    /// The witness values of the transactions' encodings.
    pub rlp_prover_inputs: Vec<U256>,
}

/// A restore point: the registers and the end of the trace log at the moment
/// it was taken. It is handed back, and thereby used up, on rollback.
#[derive(Debug)]
pub struct GenerationStateCheckpoint {
    pub registers: RegistersState,
    pub traces: TraceCheckpoint,
}

/// The state of trace generation, `R` being the type of a trace row.
#[derive(Debug)]
pub struct GenerationState<R> {
    /// What the run was started on; never changed.
    pub inputs: GenerationInputs,
    pub registers: RegistersState,
    pub memory: MemoryState,
    pub traces: Traces<R>,
    /// The index in `inputs.signed_txns` of the transaction to run next.
    pub next_txn_index: usize,
    /// The trie witness values still to be consumed.
    pub mpt_prover_inputs: WitnessQueue,
    /// The encoding witness values still to be consumed.
    pub rlp_prover_inputs: WitnessQueue,
    /// The addresses seen so far, each under its state key.
    pub state_key_to_address: ObservedAddresses,
    /// The program counter of the label `OBSERVE_NEW_ADDRESS`.
    pub observe_new_address: usize,
}

/// The generation state as a mathematical value.
#[verifier::ext_equal]
pub struct GenerationStateView<R> {
    pub inputs: GenerationInputs,
    pub registers: RegistersState,
    pub memory: Map<MemoryAddress, U256>,
    pub rows: Seq<R>,
    pub next_txn_index: usize,
    pub mpt_pending: Seq<U256>,
    pub rlp_pending: Seq<U256>,
    pub observed: Map<Seq<u8>, Seq<u8>>,
    pub observe_new_address: usize,
}

/// The bytes of the address that a stack word stands for: the last 20 of the
/// word's 32 big-endian bytes.
pub open spec fn address_bytes(word: U256) -> Seq<u8> {
    word.be_bytes().subrange(12, 32)
}

impl<R> GenerationStateView<R> {
    /// The state that a run starts in.
    pub open spec fn initial(
        inputs: GenerationInputs,
        kernel_code: Seq<u8>,
        observe_new_address: usize,
    ) -> Self {
        GenerationStateView {
            inputs,
            registers: RegistersState::zeroed(),
            memory: MemoryState::initial(kernel_code),
            rows: Seq::empty(),
            next_txn_index: 0,
            mpt_pending: inputs.mpt_prover_inputs@,
            rlp_pending: inputs.rlp_prover_inputs@,
            observed: Map::empty(),
            observe_new_address,
        }
    }

    /// The stack entry `depth` places below the top, the top being at depth 0.
    pub open spec fn stack_word(self, depth: int) -> U256 {
        self.memory[MemoryAddress {
            context: self.registers.context,
            segment: Segment::Stack,
            virt: (self.registers.stack_len - 1 - depth) as usize,
        }]
    }

    /// The top of the stack, from the top down: at most `MAX_TO_SHOW` entries.
    pub open spec fn shown_stack(self) -> Seq<U256> {
        Seq::new(
            if self.registers.stack_len < MAX_TO_SHOW {
                self.registers.stack_len as nat
            } else {
                MAX_TO_SHOW as nat
            },
            |depth: int| self.stack_word(depth),
        )
    }

    /// The state with `address` recorded under `key`.
    pub open spec fn record(self, key: Seq<u8>, address: Seq<u8>) -> Self {
        GenerationStateView { observed: self.observed.insert(key, address), ..self }
    }

    /// The state with `address` recorded under its state key.
    pub open spec fn observe(self, address: Seq<u8>) -> Self {
        self.record(keccak256(address), address)
    }

    /// Whether a jump to `dst` finds the stack empty where it needs its top.
    pub open spec fn jump_underflows(self, dst: usize) -> bool {
        dst == self.observe_new_address && self.registers.stack_len == 0
    }

    /// The state after a jump to `dst`: the program counter is `dst`, and
    /// where `dst` is the label for a new address and the stack has a top,
    /// the address on top of the stack is observed.
    pub open spec fn jump(self, dst: usize) -> Self {
        let moved = GenerationStateView {
            registers: RegistersState { program_counter: dst, ..self.registers },
            ..self
        };
        if dst == self.observe_new_address && self.registers.stack_len > 0 {
            moved.observe(address_bytes(self.stack_word(0)))
        } else {
            moved
        }
    }

    /// The restore point of this state.
    pub open spec fn checkpoint(self) -> GenerationStateCheckpoint {
        GenerationStateCheckpoint {
            registers: self.registers,
            traces: TraceCheckpoint { len: self.rows.len() as usize },
        }
    }

    /// The state brought back to `checkpoint`: the registers are those of the
    /// checkpoint, the trace log is cut back to its mark, and all else stays.
    pub open spec fn rollback(self, checkpoint: GenerationStateCheckpoint) -> Self {
        GenerationStateView {
            registers: checkpoint.registers,
            rows: truncated(self.rows, checkpoint.traces.len as int),
            ..self
        }
    }

    /// The state with the cursor moved on to the next transaction.
    pub open spec fn advance_txn(self) -> Self {
        GenerationStateView { next_txn_index: (self.next_txn_index + 1) as usize, ..self }
    }

    /// The state after the next trie witness value was taken.
    pub open spec fn pop_mpt(self) -> Self {
        GenerationStateView { mpt_pending: rest_of(self.mpt_pending), ..self }
    }

    /// The state after the next encoding witness value was taken.
    pub open spec fn pop_rlp(self) -> Self {
        GenerationStateView { rlp_pending: rest_of(self.rlp_pending), ..self }
    }
}

impl<R> View for GenerationState<R> {
    type V = GenerationStateView<R>;

    open spec fn view(&self) -> GenerationStateView<R> {
        GenerationStateView {
            inputs: self.inputs,
            registers: self.registers,
            memory: self.memory@,
            rows: self.traces@,
            next_txn_index: self.next_txn_index,
            mpt_pending: self.mpt_prover_inputs@,
            rlp_pending: self.rlp_prover_inputs@,
            observed: self.state_key_to_address@,
            observe_new_address: self.observe_new_address,
        }
    }
}

impl<R> GenerationState<R> {
    /// The state's own invariant: that of its map of observed addresses.
    pub open spec fn wf(&self) -> bool {
        self.state_key_to_address.wf()
    }

    /// The state at the start of a run on `inputs` and the kernel's code. The
    /// label table must name `OBSERVE_NEW_ADDRESS`; without it no state is
    /// made.
    pub fn new(inputs: GenerationInputs, kernel_code: &[u8], labels: &KernelLabels) -> (made:
        Result<GenerationState<R>, GenerationError>)
        ensures
            match made {
                Ok(state) => {
                    &&& state.wf()
                    &&& offset_of(labels.labels@, OBSERVE_NEW_ADDRESS@) == Some(
                        state.observe_new_address,
                    )
                    &&& state@ == GenerationStateView::<R>::initial(
                        inputs,
                        kernel_code@,
                        state.observe_new_address,
                    )
                },
                Err(error) => {
                    &&& error == GenerationError::UnknownLabel
                    &&& offset_of(labels.labels@, OBSERVE_NEW_ADDRESS@) is None
                },
            },
    {
        let name = OBSERVE_NEW_ADDRESS.to_owned();
        let observe_new_address = match labels.lookup(&name) {
            Some(offset) => offset,
            None => {
                return Err(GenerationError::UnknownLabel);
            },
        };
        let mpt_prover_inputs = WitnessQueue::new(&inputs.mpt_prover_inputs);
        let rlp_prover_inputs = WitnessQueue::new(&inputs.rlp_prover_inputs);
        Ok(
            GenerationState {
                inputs,
                registers: RegistersState::default(),
                memory: MemoryState::new(kernel_code),
                traces: Traces::default(),
                next_txn_index: 0,
                mpt_prover_inputs,
                rlp_prover_inputs,
                state_key_to_address: ObservedAddresses::new(),
                observe_new_address,
            },
        )
    }

    /// The stack entry `depth` places below the top, without taking it off.
    /// A depth at or beyond the stack's length is an underflow.
    pub fn stack_peek(&self, depth: usize) -> (word: Result<U256, GenerationError>)
        ensures
            depth < self.registers.stack_len ==> word == Ok::<U256, GenerationError>(
                self@.stack_word(depth as int),
            ),
            depth >= self.registers.stack_len ==> word == Err::<U256, GenerationError>(
                GenerationError::StackUnderflow,
            ),
    {
        if depth >= self.registers.stack_len {
            return Err(GenerationError::StackUnderflow);
        }
        proof {
            self.memory.lemma_total(
                MemoryAddress {
                    context: self.registers.context,
                    segment: Segment::Stack,
                    virt: (self.registers.stack_len - 1 - depth) as usize,
                },
            );
        }
        Ok(
            self.memory.get(
                MemoryAddress {
                    context: self.registers.context,
                    segment: Segment::Stack,
                    virt: self.registers.stack_len - 1 - depth,
                },
            ),
        )
    }

    /// Sets the program counter to `dst`. A jump to the label for a new
    /// address also observes the address on top of the stack, which is read
    /// and left in place; with an empty stack there that is an underflow,
    /// reported after the program counter has moved.
    pub fn jump_to(&mut self, dst: usize) -> (jumped: Result<(), GenerationError>)
        requires
            old(self).wf(),
        ensures
            final(self).wf(),
            final(self)@ == old(self)@.jump(dst),
            old(self)@.jump_underflows(dst) ==> jumped == Err::<(), GenerationError>(
                GenerationError::StackUnderflow,
            ),
            !old(self)@.jump_underflows(dst) ==> jumped == Ok::<(), GenerationError>(()),
    {
        self.registers.program_counter = dst;
        if dst == self.observe_new_address {
            match self.stack_peek(0) {
                Ok(tip) => {
                    let address = Address::from_word(&tip);
                    self.observe_address(address);
                    Ok(())
                },
                Err(error) => Err(error),
            }
        } else {
            Ok(())
        }
    }

    /// Records `address` under `key`, in place of any address recorded under
    /// that key before. Registers, memory, trace log and queues stay as they
    /// are.
    pub fn record_address(&mut self, key: H256, address: Address)
        requires
            old(self).wf(),
        ensures
            final(self).wf(),
            final(self)@ == old(self)@.record(key@, address@),
    {
        self.state_key_to_address.insert(key, address);
    }

    /// Observes `address`: records it under its state key, the Keccak-256
    /// digest of its bytes, so that the key can be led back to it.
    pub fn observe_address(&mut self, address: Address)
        requires
            old(self).wf(),
        ensures
            final(self).wf(),
            final(self)@ == old(self)@.observe(address@),
    {
        let state_key = address.state_key();
        self.record_address(state_key, address);
    }

    /// Takes a restore point: the registers by value and the current end of
    /// the trace log.
    pub fn checkpoint(&self) -> (checkpoint: GenerationStateCheckpoint)
        ensures
            checkpoint == self@.checkpoint(),
    {
        GenerationStateCheckpoint { registers: self.registers, traces: self.traces.checkpoint() }
    }

    /// Goes back to `checkpoint`: the registers are restored and every trace
    /// row written since is dropped. Memory is not restored.
    pub fn rollback(&mut self, checkpoint: GenerationStateCheckpoint)
        ensures
            final(self)@ == old(self)@.rollback(checkpoint),
            old(self).wf() ==> final(self).wf(),
    {
        self.registers = checkpoint.registers;
        self.traces.rollback(checkpoint.traces);
    }

    /// The top of the stack for display, from the top down: all of it where
    /// it has at most `MAX_TO_SHOW` entries, else the top `MAX_TO_SHOW`.
    pub fn stack(&self) -> (shown: Vec<U256>)
        ensures
            shown@ == self@.shown_stack(),
    {
        let count = if self.registers.stack_len < MAX_TO_SHOW {
            self.registers.stack_len
        } else {
            MAX_TO_SHOW
        };
        let mut shown: Vec<U256> = Vec::new();
        let mut depth: usize = 0;
        while depth < count
            invariant
                depth <= count <= self.registers.stack_len,
                shown@.len() == depth,
                forall|d: int| 0 <= d < depth ==> shown@[d] == self@.stack_word(d),
            decreases count - depth,
        {
            let word = self.stack_peek(depth).unwrap();
            shown.push(word);
            depth += 1;
        }
        assert(shown@ =~= self@.shown_stack());
        shown
    }

    /// Moves the transaction cursor on by one, once a transaction has been
    /// consumed. The cursor only ever grows.
    pub fn advance_txn_index(&mut self)
        requires
            old(self).next_txn_index < usize::MAX,
        ensures
            final(self)@ == old(self)@.advance_txn(),
            final(self).next_txn_index == old(self).next_txn_index + 1,
            old(self).wf() ==> final(self).wf(),
    {
        self.next_txn_index = self.next_txn_index + 1;
    }

    /// Takes the next trie witness value. With none left the state stays as
    /// it is and the queue is reported exhausted.
    pub fn pop_mpt_prover_input(&mut self) -> (next: Result<U256, GenerationError>)
        ensures
            next == next_of(old(self)@.mpt_pending),
            final(self)@ == old(self)@.pop_mpt(),
            old(self).wf() ==> final(self).wf(),
    {
        self.mpt_prover_inputs.pop()
    }

    /// Takes the next encoding witness value. With none left the state stays
    /// as it is and the queue is reported exhausted.
    pub fn pop_rlp_prover_input(&mut self) -> (next: Result<U256, GenerationError>)
        ensures
            next == next_of(old(self)@.rlp_pending),
            final(self)@ == old(self)@.pop_rlp(),
            old(self).wf() ==> final(self).wf(),
    {
        self.rlp_prover_inputs.pop()
    }
}

} // verus!
