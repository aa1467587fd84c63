use vstd::prelude::*;
use crate::error::MachineError;
use crate::instruction::{instruction_of, Instruction};

verus! {

/// How an instruction changes the bracket nesting depth.
pub open spec fn nesting_delta(i: Instruction) -> int {
    match i {
        Instruction::JumpForward => 1,
        Instruction::JumpBackward => -1,
        _ => 0,
    }
}

/// The nesting depth just before index `k`: the number of `[` minus the
/// number of `]` among the first `k` instructions.
pub open spec fn depth(s: Seq<Instruction>, k: int) -> int
    decreases k,
{
    if k <= 0 {
        0
    } else {
        depth(s, k - 1) + nesting_delta(s[k - 1])
    }
}

/// Every `]` closes an earlier `[`, and every `[` is closed.
pub open spec fn balanced(s: Seq<Instruction>) -> bool {
    &&& forall|k: int| 0 <= k <= s.len() ==> depth(s, k) >= 0
    &&& depth(s, s.len() as int) == 0
}

/// The `[` at `i` and the `]` at `j` match: `j` is the first index after `i`
/// at which the nesting returns to where it stood before `i`.
pub open spec fn is_pair(s: Seq<Instruction>, i: int, j: int) -> bool {
    &&& 0 <= i < j < s.len()
    &&& s[i] == Instruction::JumpForward
    &&& s[j] == Instruction::JumpBackward
    &&& depth(s, j + 1) == depth(s, i)
    &&& forall|m: int| i < m <= j ==> depth(s, m) > depth(s, i)
}

/// A `[` has at most one matching `]`.
pub proof fn lemma_forward_partner_unique(s: Seq<Instruction>, i: int, j1: int, j2: int)
    requires
        is_pair(s, i, j1),
        is_pair(s, i, j2),
    ensures
        j1 == j2,
{
    if j1 < j2 {
        assert(depth(s, j1 + 1) > depth(s, i));
    } else if j2 < j1 {
        assert(depth(s, j2 + 1) > depth(s, i));
    }
}

/// A `]` has at most one matching `[`.
pub proof fn lemma_backward_partner_unique(s: Seq<Instruction>, i1: int, i2: int, j: int)
    requires
        is_pair(s, i1, j),
        is_pair(s, i2, j),
    ensures
        i1 == i2,
{
    if i1 < i2 {
        assert(depth(s, i2) > depth(s, i1));
    } else if i2 < i1 {
        assert(depth(s, i1) > depth(s, i2));
    }
}

/// The instructions that a source text stands for: one per instruction
/// character, in order, with every other byte dropped as a comment.
pub open spec fn source_instructions(src: Seq<u8>) -> Seq<Instruction>
    decreases src.len(),
{
    if src.len() == 0 {
        Seq::empty()
    } else {
        let prev = source_instructions(src.drop_last());
        let last = instruction_of(src.last());
        if last == Instruction::NoOp {
            prev
        } else {
            prev.push(last)
        }
    }
}

/// An instruction sequence with its `[`/`]` pairs resolved in advance.
pub struct Program {
    instructions: Vec<Instruction>,
    jump_table: Vec<usize>,
}

impl Program {
    pub closed spec fn instructions(self) -> Seq<Instruction> {
        self.instructions@
    }

    /// The recorded partner of the bracket at each index.
    pub closed spec fn jumps(self) -> Seq<usize> {
        self.jump_table@
    }

    /// The brackets are balanced and each one's recorded partner is its match;
    /// the length fits a `usize`, as that of any vector does.
    pub open spec fn wf(self) -> bool {
        let s = self.instructions();
        &&& self.jumps().len() == s.len()
        &&& s.len() <= usize::MAX
        &&& balanced(s)
        &&& forall|i: int|
            0 <= i < s.len() && s[i] == Instruction::JumpForward ==> is_pair(
                s,
                i,
                self.jumps()[i] as int,
            )
        &&& forall|j: int|
            0 <= j < s.len() && s[j] == Instruction::JumpBackward ==> is_pair(
                s,
                self.jumps()[j] as int,
                j,
            )
    }

    /// Builds a program, pairing each `[` with its `]` by one scan with a
    /// stack of open brackets. Fails with `MalformedProgram` exactly when the
    /// brackets are unbalanced.
    pub fn new(instructions: Vec<Instruction>) -> (r: Result<Program, MachineError>)
        ensures
            r is Ok <==> balanced(instructions@),
            r matches Ok(p) ==> p.wf() && p.instructions() == instructions@,
            r matches Err(e) ==> e == MachineError::MalformedProgram,
    {
        let n = instructions.len();
        let ghost s = instructions@;
        let mut jump_table: Vec<usize> = Vec::new();
        let mut k: usize = 0;
        while k < n
            invariant
                k <= n,
                jump_table.len() == k,
            decreases n - k,
        {
            jump_table.push(0);
            k = k + 1;
        }
        let mut stack: Vec<usize> = Vec::new();
        let mut k: usize = 0;
        while k < n
            invariant
                n == s.len(),
                s == instructions@,
                k <= n,
                jump_table.len() == n,
                stack.len() == depth(s, k as int),
                forall|m: int| 0 <= m <= k ==> depth(s, m) >= 0,
                forall|d: int|
                    #![trigger stack@[d]]
                    0 <= d < stack.len() ==> {
                        &&& stack@[d] < k
                        &&& s[stack@[d] as int] == Instruction::JumpForward
                        &&& depth(s, stack@[d] as int) == d
                        &&& forall|m: int| stack@[d] < m <= k ==> depth(s, m) > d
                    },
                forall|i: int|
                    0 <= i < k && s[i] == Instruction::JumpForward && !stack@.contains(i as usize)
                        ==> is_pair(s, i, jump_table@[i] as int),
                forall|j: int|
                    0 <= j < k && s[j] == Instruction::JumpBackward ==> is_pair(
                        s,
                        jump_table@[j] as int,
                        j,
                    ),
            decreases n - k,
        {
            let ghost old_stack = stack@;
            let ghost old_table = jump_table@;
            assert(depth(s, k + 1) == depth(s, k as int) + nesting_delta(s[k as int]));
            match instructions[k] {
                Instruction::JumpForward => {
                    stack.push(k);
                    assert forall|i: int|
                        0 <= i < k + 1 && s[i] == Instruction::JumpForward && !stack@.contains(
                            i as usize,
                        ) implies is_pair(s, i, jump_table@[i] as int) by {
                        if i == k {
                            assert(stack@[stack.len() - 1] == k);
                        } else {
                            if old_stack.contains(i as usize) {
                                let d = choose|d: int|
                                    0 <= d < old_stack.len() && old_stack[d] == i as usize;
                                assert(stack@[d] == old_stack[d]);
                            }
                        }
                    }
                },
                Instruction::JumpBackward => {
                    if stack.len() == 0 {
                        assert(depth(s, k + 1) < 0);
                        return Err(MachineError::MalformedProgram);
                    }
                    let top = stack.len() - 1;
                    let open = stack[top];
                    stack.pop();
                    assert(stack@ =~= old_stack.subrange(0, top as int));
                    jump_table.set(open, k);
                    jump_table.set(k, open);
                    assert(is_pair(s, open as int, k as int));
                    assert forall|i: int|
                        0 <= i < k + 1 && s[i] == Instruction::JumpForward && !stack@.contains(
                            i as usize,
                        ) implies is_pair(s, i, jump_table@[i] as int) by {
                        if i != open as int {
                            if old_stack.contains(i as usize) {
                                let d = choose|d: int|
                                    0 <= d < old_stack.len() && old_stack[d] == i as usize;
                                if d < top {
                                    assert(stack@[d] == old_stack[d]);
                                }
                            }
                        }
                    }
                    assert forall|j: int|
                        0 <= j < k + 1 && s[j] == Instruction::JumpBackward implies is_pair(
                            s,
                            jump_table@[j] as int,
                            j,
                        ) by {
                        if j != k as int {
                            assert(jump_table@[j] == old_table[j]);
                        }
                    }
                },
                _ => {},
            }
            k = k + 1;
        }
        if stack.len() > 0 {
            return Err(MachineError::MalformedProgram);
        }
        assert forall|i: int| 0 <= i < n && s[i] == Instruction::JumpForward implies is_pair(
            s,
            i,
            jump_table@[i] as int,
        ) by {
            assert(!stack@.contains(i as usize));
        }
        Ok(Program { instructions, jump_table })
    }

    /// Builds a program from source text: each of `>` `<` `+` `-` `.` `,` `[`
    /// `]` becomes its instruction, every other byte is dropped.
    pub fn parse(source: &[u8]) -> (r: Result<Program, MachineError>)
        ensures
            r is Ok <==> balanced(source_instructions(source@)),
            r matches Ok(p) ==> p.wf() && p.instructions() == source_instructions(source@),
            r matches Err(e) ==> e == MachineError::MalformedProgram,
    {
        let mut instructions: Vec<Instruction> = Vec::new();
        let mut k: usize = 0;
        while k < source.len()
            invariant
                k <= source@.len(),
                instructions@ == source_instructions(source@.subrange(0, k as int)),
            decreases source@.len() - k,
        {
            assert(source@.subrange(0, k + 1).drop_last() =~= source@.subrange(0, k as int));
            let instruction = Instruction::from_byte(source[k]);
            if instruction != Instruction::NoOp {
                instructions.push(instruction);
            }
            k = k + 1;
        }
        assert(source@.subrange(0, k as int) =~= source@);
        Program::new(instructions)
    }

    /// The number of instructions.
    pub fn length(&self) -> (r: usize)
        ensures
            r == self.instructions().len(),
    {
        self.instructions.len()
    }

    /// The instruction at `index`, or `None` at or past the end.
    pub fn get_instruction(&self, index: usize) -> (r: Option<Instruction>)
        ensures
            index < self.instructions().len() ==> r == Some(self.instructions()[index as int]),
            index >= self.instructions().len() ==> r.is_none(),
    {
        if index < self.instructions.len() {
            Some(self.instructions[index])
        } else {
            None
        }
    }

    /// The index of the bracket that matches the one at `index`, or `None`
    /// where there is no bracket.
    pub fn find_matching(&self, index: usize) -> (r: Option<usize>)
        requires
            self.wf(),
        ensures
            r matches Some(j) ==> {
                ||| is_pair(self.instructions(), index as int, j as int)
                ||| is_pair(self.instructions(), j as int, index as int)
            },
            r is None <==> !(index < self.instructions().len() && (self.instructions()[index as int]
                == Instruction::JumpForward || self.instructions()[index as int]
                == Instruction::JumpBackward)),
    {
        if index < self.instructions.len() {
            match self.instructions[index] {
                Instruction::JumpForward | Instruction::JumpBackward => Some(
                    self.jump_table[index],
                ),
                _ => None,
            }
        } else {
            None
        }
    }
}

impl Default for Program {
    /// The empty program.
    fn default() -> (r: Program)
        ensures
            r.wf(),
            r.instructions().len() == 0,
    {
        Program { instructions: Vec::new(), jump_table: Vec::new() }
    }
}

} // verus!
