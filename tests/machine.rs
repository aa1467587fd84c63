use brainfoamkit_lib::{
    Byte, Instruction, MachineError, Program, StepOutcome, VirtualMachine, DEFAULT_TAPE_LENGTH,
};

fn all_instructions() -> Vec<Instruction> {
    vec![
        Instruction::IncrementPointer,
        Instruction::DecrementPointer,
        Instruction::IncrementValue,
        Instruction::DecrementValue,
        Instruction::OutputValue,
        Instruction::InputValue,
        Instruction::JumpForward,
        Instruction::JumpBackward,
        Instruction::NoOp,
    ]
}

fn run_to_halt(machine: &mut VirtualMachine) {
    for _ in 0..10_000 {
        if machine.execute_instruction() == Ok(StepOutcome::Halted) {
            return;
        }
    }
    panic!("the program did not halt");
}

#[test]
fn test_machine_load() {
    let mut machine = VirtualMachine::default();
    let program = Program::new(all_instructions()).unwrap();
    machine.load(program);
    assert_eq!(machine.program().length(), 9);
}

#[test]
fn test_machine_get_instruction() {
    let mut machine = VirtualMachine::default();
    let program = Program::new(all_instructions()).unwrap();
    machine.load(program);
    assert_eq!(
        machine.get_instruction(),
        Some(Instruction::IncrementPointer)
    );
    // `[` on the zero cell jumps past `]`, so eight steps reach the end.
    for _ in 0..8 {
        machine.execute_instruction().unwrap();
    }
    assert_eq!(machine.program_counter(), 9);
    assert_eq!(machine.get_instruction(), None);
}

#[test]
fn test_machine_execute_instruction() {
    let mut machine = VirtualMachine::default();
    let program = Program::new(all_instructions()).unwrap();
    machine.load(program);
    machine.execute_instruction().unwrap();
    assert_eq!(machine.memory_pointer(), 1);
    machine.execute_instruction().unwrap();
    assert_eq!(machine.memory_pointer(), 0);
    machine.execute_instruction().unwrap();
    assert_eq!(machine.cell(0), Some(Byte::from_u8(1)));
    machine.execute_instruction().unwrap();
    assert_eq!(machine.cell(0), Some(Byte::default()));
    assert_eq!(machine.execute_instruction(), Ok(StepOutcome::Output(0)));
    assert_eq!(machine.execute_instruction(), Ok(StepOutcome::InputRequested));
    machine.supply_input(None);
    machine.execute_instruction().unwrap();
    machine.execute_instruction().unwrap();
    machine.execute_instruction().unwrap();
    machine.execute_instruction().unwrap();
    machine.execute_instruction().unwrap();
}

#[test]
fn three_increments_then_halt() {
    let mut machine = VirtualMachine::default();
    machine.load(Program::parse("+++".as_bytes()).unwrap());
    for _ in 0..3 {
        assert_eq!(machine.execute_instruction(), Ok(StepOutcome::Continued));
    }
    assert_eq!(machine.cell(0), Some(Byte::from_u8(3)));
    assert_eq!(machine.program_counter(), 3);
    assert!(machine.is_halted());
    assert_eq!(machine.execute_instruction(), Ok(StepOutcome::Halted));
    assert_eq!(machine.program_counter(), 3);
}

#[test]
fn loop_clears_the_cell() {
    let mut machine = VirtualMachine::default();
    machine.load(Program::parse("+[-]".as_bytes()).unwrap());
    run_to_halt(&mut machine);
    assert_eq!(machine.cell(0), Some(Byte::from_u8(0)));
    assert_eq!(machine.program_counter(), 4);
}

#[test]
fn loop_runs_its_body_each_time() {
    // Moves 3 from cell 0 into cell 1, doubling it.
    let mut machine = VirtualMachine::new(4);
    machine.load(Program::parse("+++[->++<]".as_bytes()).unwrap());
    run_to_halt(&mut machine);
    assert_eq!(machine.cell(0), Some(Byte::from_u8(0)));
    assert_eq!(machine.cell(1), Some(Byte::from_u8(6)));
    assert_eq!(machine.memory_pointer(), 0);
}

#[test]
fn pointer_past_the_tape_end_is_refused() {
    let mut machine = VirtualMachine::new(2);
    machine.load(Program::parse(">>".as_bytes()).unwrap());
    assert_eq!(machine.execute_instruction(), Ok(StepOutcome::Continued));
    assert_eq!(machine.memory_pointer(), 1);
    assert_eq!(machine.execute_instruction(), Err(MachineError::PointerOutOfBounds));
    assert_eq!(machine.memory_pointer(), 1);
    assert_eq!(machine.program_counter(), 1);
}

#[test]
fn pointer_before_the_tape_start_is_refused() {
    let mut machine = VirtualMachine::new(3);
    machine.load(Program::parse("<".as_bytes()).unwrap());
    assert_eq!(machine.execute_instruction(), Err(MachineError::PointerOutOfBounds));
    assert_eq!(machine.memory_pointer(), 0);
    assert_eq!(machine.program_counter(), 0);
}

#[test]
fn reload_keeps_tape_and_pointer() {
    let mut machine = VirtualMachine::new(5);
    machine.load(Program::parse(">++".as_bytes()).unwrap());
    run_to_halt(&mut machine);
    assert_eq!(machine.program_counter(), 3);
    machine.load(Program::parse("+".as_bytes()).unwrap());
    assert_eq!(machine.program_counter(), 0);
    assert_eq!(machine.memory_pointer(), 1);
    assert_eq!(machine.cell(1), Some(Byte::from_u8(2)));
    run_to_halt(&mut machine);
    assert_eq!(machine.cell(1), Some(Byte::from_u8(3)));
}

#[test]
fn output_and_input_reach_the_host() {
    let mut machine = VirtualMachine::new(2);
    machine.load(Program::parse(",+.,.".as_bytes()).unwrap());
    assert_eq!(machine.execute_instruction(), Ok(StepOutcome::InputRequested));
    machine.supply_input(Some(b'A'));
    machine.execute_instruction().unwrap();
    assert_eq!(machine.execute_instruction(), Ok(StepOutcome::Output(b'B')));
    assert_eq!(machine.execute_instruction(), Ok(StepOutcome::InputRequested));
    machine.supply_input(None);
    assert_eq!(machine.execute_instruction(), Ok(StepOutcome::Output(b'B')));
    assert_eq!(machine.execute_instruction(), Ok(StepOutcome::Halted));
}

#[test]
fn cell_decrement_wraps_on_the_tape() {
    let mut machine = VirtualMachine::new(1);
    machine.load(Program::parse("-".as_bytes()).unwrap());
    run_to_halt(&mut machine);
    assert_eq!(machine.cell(0), Some(Byte::from_u8(255)));
    assert_eq!(machine.cell(1), None);
}

#[test]
fn default_machine_has_the_conventional_tape() {
    let machine = VirtualMachine::default();
    assert_eq!(machine.length(), DEFAULT_TAPE_LENGTH);
    assert_eq!(machine.length(), 30000);
    assert_eq!(machine.memory_pointer(), 0);
    assert_eq!(machine.program_counter(), 0);
    assert_eq!(machine.get_instruction(), None);
    assert_eq!(machine.cell(29999), Some(Byte::default()));
}
