//! The interpreter's control registers.

use vstd::prelude::*;

verus! {

/// The control registers of the interpreter. The value is small and copied
/// freely: a checkpoint keeps one by value.
#[derive(Clone, Copy, Debug, PartialEq, Eq, Structural)]
pub struct RegistersState {
    /// Where the next instruction is read.
    pub program_counter: usize,
    /// Whether the interpreter runs kernel code.
    pub is_kernel: bool,
    /// How many words the stack of the current context holds.
    pub stack_len: usize,
    /// The context whose memory and stack are in use.
    pub context: usize,
}

impl RegistersState {
    /// The registers at the start of a run: every one zero.
    pub open spec fn zeroed() -> RegistersState {
        RegistersState { program_counter: 0, is_kernel: false, stack_len: 0, context: 0 }
    }
}

impl Default for RegistersState {
    fn default() -> (registers: RegistersState)
        ensures
            registers == RegistersState::zeroed(),
    {
        RegistersState { program_counter: 0, is_kernel: false, stack_len: 0, context: 0 }
    }
}

} // verus!
