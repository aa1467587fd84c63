use vstd::prelude::*;

verus! {

/// One operation of the machine.
#[derive(Clone, Copy, Debug, PartialEq, Eq, Structural)]
pub enum Instruction {
    /// `>`: move the data pointer one cell right.
    IncrementPointer,
    /// `<`: move the data pointer one cell left.
    DecrementPointer,
    /// `+`: add one to the current cell.
    IncrementValue,
    /// `-`: subtract one from the current cell.
    DecrementValue,
    /// `.`: emit the current cell.
    OutputValue,
    /// `,`: read one byte into the current cell.
    InputValue,
    /// `[`: skip past the matching `]` when the current cell is zero.
    JumpForward,
    /// `]`: go back to the matching `[` when the current cell is not zero.
    JumpBackward,
    /// Does nothing.
    NoOp,
}

/// The instruction that a source byte stands for; every other byte is a
/// comment and stands for `NoOp`.
pub open spec fn instruction_of(c: u8) -> Instruction {
    if c == 62 {
        Instruction::IncrementPointer
    } else if c == 60 {
        Instruction::DecrementPointer
    } else if c == 43 {
        Instruction::IncrementValue
    } else if c == 45 {
        Instruction::DecrementValue
    } else if c == 46 {
        Instruction::OutputValue
    } else if c == 44 {
        Instruction::InputValue
    } else if c == 91 {
        Instruction::JumpForward
    } else if c == 93 {
        Instruction::JumpBackward
    } else {
        Instruction::NoOp
    }
}

impl Instruction {
    /// Classifies one byte of source text (`>` `<` `+` `-` `.` `,` `[` `]`).
    pub fn from_byte(c: u8) -> (r: Instruction)
        ensures
            r == instruction_of(c),
    {
        // The ASCII codes of `>` `<` `+` `-` `.` `,` `[` `]`.
        match c {
            62 => Instruction::IncrementPointer,
            60 => Instruction::DecrementPointer,
            43 => Instruction::IncrementValue,
            45 => Instruction::DecrementValue,
            46 => Instruction::OutputValue,
            44 => Instruction::InputValue,
            91 => Instruction::JumpForward,
            93 => Instruction::JumpBackward,
            _ => Instruction::NoOp,
        }
    }
}

} // verus!
