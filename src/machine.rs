use vstd::prelude::*;
use crate::byte::Byte;
use crate::error::MachineError;
use crate::instruction::Instruction;
use crate::program::{is_pair, Program};

verus! {

/// The number of cells on the tape of a machine made by `default`.
pub const DEFAULT_TAPE_LENGTH: usize = 30000;

/// What one step of the machine asks of its host.
#[derive(Clone, Copy, Debug, PartialEq, Eq, Structural)]
pub enum StepOutcome {
    /// The instruction ran; nothing is owed to the host.
    Continued,
    /// The host is to emit this byte.
    Output(u8),
    /// The host is to read one byte and hand it to `supply_input` before the
    /// next step (`None` at the end of input, which leaves the cell as it is).
    InputRequested,
    /// The program counter stands at the end of the program; nothing ran.
    Halted,
}

/// A tape machine: a fixed-length tape of [`Byte`] cells, a data pointer
/// into it, a loaded [`Program`] and a program counter into that.
///
/// The tape does not grow or wrap: a pointer move that would leave it is
/// refused with `PointerOutOfBounds`, and the step that tried it changes
/// nothing.
pub struct VirtualMachine {
    tape: Vec<Byte>,
    memory_pointer: usize,
    program: Program,
    program_counter: usize,
}

/// What one step does: how the machine `after` and the result `r` follow
/// from the machine `before`.
pub open spec fn step_relation(
    before: VirtualMachine,
    after: VirtualMachine,
    r: Result<StepOutcome, MachineError>,
) -> bool {
    let s = before.loaded().instructions();
    let pc = before.counter();
    let mp = before.pointer();
    let cell = before.cells()[mp as int];
    let same_tape = after.cells() == before.cells();
    let same_pointer = after.pointer() == mp;
    let advanced = after.counter() == pc + 1;
    &&& after.loaded() == before.loaded()
    &&& if pc >= s.len() {
        r == Ok::<StepOutcome, MachineError>(StepOutcome::Halted) && same_tape && same_pointer
            && after.counter() == pc
    } else {
        match s[pc as int] {
            Instruction::IncrementPointer => if mp + 1 < before.cells().len() {
                r == Ok::<StepOutcome, MachineError>(StepOutcome::Continued) && same_tape
                    && after.pointer() == mp + 1 && advanced
            } else {
                r == Err::<StepOutcome, MachineError>(MachineError::PointerOutOfBounds)
                    && same_tape && same_pointer && after.counter() == pc
            },
            Instruction::DecrementPointer => if mp > 0 {
                r == Ok::<StepOutcome, MachineError>(StepOutcome::Continued) && same_tape
                    && after.pointer() == mp - 1 && advanced
            } else {
                r == Err::<StepOutcome, MachineError>(MachineError::PointerOutOfBounds)
                    && same_tape && same_pointer && after.counter() == pc
            },
            Instruction::IncrementValue => {
                &&& r == Ok::<StepOutcome, MachineError>(StepOutcome::Continued)
                &&& after.cells() == before.cells().update(mp as int, after.cells()[mp as int])
                &&& after.cells()[mp as int].value() == (cell.value() + 1) % 256
                &&& same_pointer && advanced
            },
            Instruction::DecrementValue => {
                &&& r == Ok::<StepOutcome, MachineError>(StepOutcome::Continued)
                &&& after.cells() == before.cells().update(mp as int, after.cells()[mp as int])
                &&& after.cells()[mp as int].value() == (cell.value() + 255) % 256
                &&& same_pointer && advanced
            },
            Instruction::OutputValue => r matches Ok(StepOutcome::Output(v)) && v as nat
                == cell.value() && same_tape && same_pointer && advanced,
            Instruction::InputValue => r == Ok::<StepOutcome, MachineError>(
                StepOutcome::InputRequested,
            ) && same_tape && same_pointer && advanced,
            Instruction::JumpForward => {
                &&& r == Ok::<StepOutcome, MachineError>(StepOutcome::Continued)
                &&& same_tape && same_pointer
                &&& if cell.value() == 0 {
                    after.counter() > 0 && is_pair(s, pc as int, after.counter() - 1)
                } else {
                    advanced
                }
            },
            Instruction::JumpBackward => {
                &&& r == Ok::<StepOutcome, MachineError>(StepOutcome::Continued)
                &&& same_tape && same_pointer
                &&& if cell.value() != 0 {
                    is_pair(s, after.counter() as int, pc as int)
                } else {
                    advanced
                }
            },
            Instruction::NoOp => r == Ok::<StepOutcome, MachineError>(StepOutcome::Continued)
                && same_tape && same_pointer && advanced,
        }
    }
}

/// A `-` step followed by a `+` step, or a `+` step followed by a `-` step,
/// leaves the tape and the data pointer as they were, on every cell value
/// including 0 and 255.
pub proof fn lemma_value_steps_cancel(
    m0: VirtualMachine,
    m1: VirtualMachine,
    m2: VirtualMachine,
    r1: Result<StepOutcome, MachineError>,
    r2: Result<StepOutcome, MachineError>,
)
    requires
        m0.wf(),
        m0.counter() < m0.loaded().instructions().len(),
        m1.counter() < m1.loaded().instructions().len(),
        step_relation(m0, m1, r1),
        step_relation(m1, m2, r2),
        ({
            let first = m0.loaded().instructions()[m0.counter() as int];
            let second = m1.loaded().instructions()[m1.counter() as int];
            (first == Instruction::DecrementValue && second == Instruction::IncrementValue) || (
            first == Instruction::IncrementValue && second == Instruction::DecrementValue)
        }),
    ensures
        m2.cells() == m0.cells(),
        m2.pointer() == m0.pointer(),
{
    let mp = m0.pointer() as int;
    m0.cells()[mp].lemma_value_bound();
    m0.cells()[mp].lemma_value_determines(m2.cells()[mp]);
    assert(m2.cells() =~= m0.cells());
}

impl VirtualMachine {
    /// The cells of the tape.
    pub closed spec fn cells(self) -> Seq<Byte> {
        self.tape@
    }

    /// The data pointer.
    pub closed spec fn pointer(self) -> nat {
        self.memory_pointer as nat
    }

    /// The loaded program.
    pub closed spec fn loaded(self) -> Program {
        self.program
    }

    /// The program counter.
    pub closed spec fn counter(self) -> nat {
        self.program_counter as nat
    }

    /// The data pointer is on the tape, the program counter is within or just
    /// past the program, and the program's brackets are paired.
    pub open spec fn wf(self) -> bool {
        &&& self.loaded().wf()
        &&& self.pointer() < self.cells().len()
        &&& self.counter() <= self.loaded().instructions().len()
    }

    /// A machine with `tape_size` zero cells, both pointers at zero and the
    /// empty program loaded.
    pub fn new(tape_size: usize) -> (r: VirtualMachine)
        requires
            tape_size > 0,
        ensures
            r.wf(),
            r.cells().len() == tape_size,
            forall|i: int| 0 <= i < tape_size ==> #[trigger] r.cells()[i].value() == 0,
            r.pointer() == 0,
            r.counter() == 0,
            r.loaded().instructions().len() == 0,
    {
        let mut tape: Vec<Byte> = Vec::new();
        let mut k: usize = 0;
        while k < tape_size
            invariant
                k <= tape_size,
                tape.len() == k,
                forall|i: int| 0 <= i < k ==> #[trigger] tape@[i].value() == 0,
            decreases tape_size - k,
        {
            tape.push(Byte::default());
            k = k + 1;
        }
        VirtualMachine { tape, memory_pointer: 0, program: Program::default(), program_counter: 0 }
    }

    /// Replaces the program and sets the program counter back to zero. The
    /// tape and the data pointer are kept.
    pub fn load(&mut self, program: Program)
        requires
            old(self).wf(),
            program.wf(),
        ensures
            final(self).wf(),
            final(self).loaded() == program,
            final(self).counter() == 0,
            final(self).cells() == old(self).cells(),
            final(self).pointer() == old(self).pointer(),
    {
        self.program = program;
        self.program_counter = 0;
    }

    /// The number of cells on the tape.
    pub fn length(&self) -> (r: usize)
        ensures
            r == self.cells().len(),
    {
        self.tape.len()
    }

    pub fn memory_pointer(&self) -> (r: usize)
        ensures
            r == self.pointer(),
    {
        self.memory_pointer
    }

    pub fn program_counter(&self) -> (r: usize)
        ensures
            r == self.counter(),
    {
        self.program_counter
    }

    pub fn program(&self) -> (r: &Program)
        ensures
            *r == self.loaded(),
    {
        &self.program
    }

    /// The cell at `index`, or `None` off the tape.
    pub fn cell(&self, index: usize) -> (r: Option<Byte>)
        ensures
            index < self.cells().len() ==> r == Some(self.cells()[index as int]),
            index >= self.cells().len() ==> r.is_none(),
    {
        if index < self.tape.len() {
            Some(self.tape[index])
        } else {
            None
        }
    }

    /// Whether the program counter has reached the end of the program.
    pub fn is_halted(&self) -> (r: bool)
        ensures
            r == (self.counter() >= self.loaded().instructions().len()),
    {
        self.program_counter >= self.program.length()
    }

    /// The instruction at the program counter, or `None` once halted.
    pub fn get_instruction(&self) -> (r: Option<Instruction>)
        ensures
            self.counter() < self.loaded().instructions().len() ==> r == Some(
                self.loaded().instructions()[self.counter() as int],
            ),
            self.counter() >= self.loaded().instructions().len() ==> r.is_none(),
    {
        self.program.get_instruction(self.program_counter)
    }

    /// Runs the instruction at the program counter and moves the counter on:
    /// by one, or across a loop for a jump that is taken. Once halted it does
    /// nothing and says so.
    pub fn execute_instruction(&mut self) -> (r: Result<StepOutcome, MachineError>)
        requires
            old(self).wf(),
        ensures
            final(self).wf(),
            step_relation(*old(self), *final(self), r),
    {
        let current_instruction = match self.get_instruction() {
            Some(instruction) => instruction,
            None => {
                return Ok(StepOutcome::Halted);
            },
        };
        match current_instruction {
            Instruction::IncrementPointer => self.increment_pointer(),
            Instruction::DecrementPointer => self.decrement_pointer(),
            Instruction::IncrementValue => self.increment_value(),
            Instruction::DecrementValue => self.decrement_value(),
            Instruction::OutputValue => self.output_value(),
            Instruction::InputValue => self.input_value(),
            Instruction::JumpForward => self.jump_forward(),
            Instruction::JumpBackward => self.jump_backward(),
            Instruction::NoOp => {
                self.program_counter = self.program_counter + 1;
                Ok(StepOutcome::Continued)
            },
        }
    }

    /// Writes a byte that the host read into the current cell; `None`, the
    /// end of input, leaves the cell as it is.
    pub fn supply_input(&mut self, input: Option<u8>)
        requires
            old(self).wf(),
        ensures
            final(self).wf(),
            final(self).loaded() == old(self).loaded(),
            final(self).pointer() == old(self).pointer(),
            final(self).counter() == old(self).counter(),
            input is None ==> final(self).cells() == old(self).cells(),
            input matches Some(b) ==> final(self).cells() == old(self).cells().update(
                old(self).pointer() as int,
                final(self).cells()[old(self).pointer() as int],
            ) && final(self).cells()[old(self).pointer() as int].value() == b as nat,
    {
        match input {
            Some(b) => self.tape.set(self.memory_pointer, Byte::from_u8(b)),
            None => {},
        }
    }

    fn increment_pointer(&mut self) -> (r: Result<StepOutcome, MachineError>)
        requires
            old(self).wf(),
            old(self).counter() < old(self).loaded().instructions().len(),
            old(self).loaded().instructions()[old(self).counter() as int]
                == Instruction::IncrementPointer,
        ensures
            final(self).wf(),
            step_relation(*old(self), *final(self), r),
    {
        if self.memory_pointer < self.tape.len() - 1 {
            self.memory_pointer = self.memory_pointer + 1;
            self.program_counter = self.program_counter + 1;
            Ok(StepOutcome::Continued)
        } else {
            Err(MachineError::PointerOutOfBounds)
        }
    }

    fn decrement_pointer(&mut self) -> (r: Result<StepOutcome, MachineError>)
        requires
            old(self).wf(),
            old(self).counter() < old(self).loaded().instructions().len(),
            old(self).loaded().instructions()[old(self).counter() as int]
                == Instruction::DecrementPointer,
        ensures
            final(self).wf(),
            step_relation(*old(self), *final(self), r),
    {
        if self.memory_pointer > 0 {
            self.memory_pointer = self.memory_pointer - 1;
            self.program_counter = self.program_counter + 1;
            Ok(StepOutcome::Continued)
        } else {
            Err(MachineError::PointerOutOfBounds)
        }
    }

    /// Takes the current cell out of the tape, increments it and writes it back.
    fn increment_value(&mut self) -> (r: Result<StepOutcome, MachineError>)
        requires
            old(self).wf(),
            old(self).counter() < old(self).loaded().instructions().len(),
            old(self).loaded().instructions()[old(self).counter() as int]
                == Instruction::IncrementValue,
        ensures
            final(self).wf(),
            step_relation(*old(self), *final(self), r),
    {
        let mut value = self.tape[self.memory_pointer];
        value.increment();
        self.tape.set(self.memory_pointer, value);
        self.program_counter = self.program_counter + 1;
        Ok(StepOutcome::Continued)
    }

    /// Takes the current cell out of the tape, decrements it and writes it back.
    fn decrement_value(&mut self) -> (r: Result<StepOutcome, MachineError>)
        requires
            old(self).wf(),
            old(self).counter() < old(self).loaded().instructions().len(),
            old(self).loaded().instructions()[old(self).counter() as int]
                == Instruction::DecrementValue,
        ensures
            final(self).wf(),
            step_relation(*old(self), *final(self), r),
    {
        let mut value = self.tape[self.memory_pointer];
        value.decrement();
        self.tape.set(self.memory_pointer, value);
        self.program_counter = self.program_counter + 1;
        Ok(StepOutcome::Continued)
    }

    fn output_value(&mut self) -> (r: Result<StepOutcome, MachineError>)
        requires
            old(self).wf(),
            old(self).counter() < old(self).loaded().instructions().len(),
            old(self).loaded().instructions()[old(self).counter() as int]
                == Instruction::OutputValue,
        ensures
            final(self).wf(),
            step_relation(*old(self), *final(self), r),
    {
        let value = self.tape[self.memory_pointer].to_u8();
        self.program_counter = self.program_counter + 1;
        Ok(StepOutcome::Output(value))
    }

    fn input_value(&mut self) -> (r: Result<StepOutcome, MachineError>)
        requires
            old(self).wf(),
            old(self).counter() < old(self).loaded().instructions().len(),
            old(self).loaded().instructions()[old(self).counter() as int]
                == Instruction::InputValue,
        ensures
            final(self).wf(),
            step_relation(*old(self), *final(self), r),
    {
        self.program_counter = self.program_counter + 1;
        Ok(StepOutcome::InputRequested)
    }

    /// On a zero cell, lands just past the matching `]`.
    fn jump_forward(&mut self) -> (r: Result<StepOutcome, MachineError>)
        requires
            old(self).wf(),
            old(self).counter() < old(self).loaded().instructions().len(),
            old(self).loaded().instructions()[old(self).counter() as int]
                == Instruction::JumpForward,
        ensures
            final(self).wf(),
            step_relation(*old(self), *final(self), r),
    {
        if self.tape[self.memory_pointer].is_zero() {
            match self.program.find_matching(self.program_counter) {
                Some(target) => {
                    self.program_counter = target + 1;
                },
                None => {},
            }
        } else {
            self.program_counter = self.program_counter + 1;
        }
        Ok(StepOutcome::Continued)
    }

    /// On a nonzero cell, lands on the matching `[`, which tests the cell again.
    fn jump_backward(&mut self) -> (r: Result<StepOutcome, MachineError>)
        requires
            old(self).wf(),
            old(self).counter() < old(self).loaded().instructions().len(),
            old(self).loaded().instructions()[old(self).counter() as int]
                == Instruction::JumpBackward,
        ensures
            final(self).wf(),
            step_relation(*old(self), *final(self), r),
    {
        if !self.tape[self.memory_pointer].is_zero() {
            match self.program.find_matching(self.program_counter) {
                Some(target) => {
                    self.program_counter = target;
                },
                None => {},
            }
        } else {
            self.program_counter = self.program_counter + 1;
        }
        Ok(StepOutcome::Continued)
    }
}

impl Default for VirtualMachine {
    /// A machine with the conventional tape of `DEFAULT_TAPE_LENGTH` zero cells.
    fn default() -> (r: VirtualMachine)
        ensures
            r.wf(),
            r.cells().len() == DEFAULT_TAPE_LENGTH,
            forall|i: int| 0 <= i < DEFAULT_TAPE_LENGTH ==> #[trigger] r.cells()[i].value() == 0,
            r.pointer() == 0,
            r.counter() == 0,
            r.loaded().instructions().len() == 0,
    {
        VirtualMachine::new(DEFAULT_TAPE_LENGTH)
    }
}

} // verus!
