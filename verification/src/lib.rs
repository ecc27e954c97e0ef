//! Generation state for an EVM execution-trace generator: interpreter
//! registers, memory, the checkpointable trace log, the witness queues and the
//! map of observed addresses, with exact undo semantics for speculative
//! execution.

pub mod primitives;
pub mod error;
pub mod labels;
pub mod laws;
pub mod memory;
pub mod observed;
pub mod queue;
pub mod registers;
pub mod state;
pub mod traces;
