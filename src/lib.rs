//! An interpreter for a minimal tape-based esoteric language: bit-composed
//! memory cells, a bracket-matched program, and a single-step virtual machine.

mod bit;
mod byte;
mod error;
mod instruction;
mod iterable_nybble;
mod machine;
mod nybble;
mod program;

pub use bit::Bit;
pub use byte::{lemma_byte_round_trip, lemma_increment_decrement_inverse, Byte};
pub use error::MachineError;
pub use instruction::{instruction_of, Instruction};
pub use iterable_nybble::IterableNybble;
pub use machine::{lemma_value_steps_cancel, step_relation, StepOutcome, VirtualMachine, DEFAULT_TAPE_LENGTH};
pub use nybble::{binary_value, lemma_bits_read_as_binary, Nybble};
pub use program::{
    balanced, depth, is_pair, lemma_backward_partner_unique, lemma_forward_partner_unique,
    nesting_delta, source_instructions, Program,
};
