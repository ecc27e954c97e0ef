//! The fatal conditions that the generation state reports.

use vstd::prelude::*;

verus! {

/// Why an operation on the generation state could not be carried out. None of
/// these is recovered from here: the caller aborts the execution.
#[derive(Clone, Copy, Debug, PartialEq, Eq, Structural)]
pub enum GenerationError {
    /// A peek reached below the bottom of the interpreter's stack.
    StackUnderflow,
    /// A witness value was asked of a queue that holds none.
    WitnessQueueExhausted,
    /// The kernel's label table lacks the label that the state needs.
    UnknownLabel,
}

} // verus!
