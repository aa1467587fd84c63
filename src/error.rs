use vstd::prelude::*;

verus! {

/// What can go wrong when building a program or running the machine.
#[derive(Clone, Copy, Debug, PartialEq, Eq, Structural)]
pub enum MachineError {
    /// The program's `[` and `]` cannot all be paired.
    MalformedProgram,
    /// A pointer move would leave the tape.
    PointerOutOfBounds,
}

} // verus!
