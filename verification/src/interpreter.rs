use vstd::prelude::*;

use crate::jump::{build_jump_map, jump_table_spec, lemma_jump_table_bounds, table_view};
use crate::token::{tokenize, tokenize_spec, Token, TokenType};

verus! {

/// Abstract state of the execution engine: the 256-cell byte tape, the
/// pointer into it, the program with its jump table, the instruction
/// counter, the pending input, the accumulated output, and how many
/// steps have been taken.
#[verifier::ext_equal]
pub ghost struct MachineState {
    pub memory: Seq<u8>,
    pub ptr: u8,
    pub tokens: Seq<Token>,
    pub jumps: Seq<Option<int>>,
    pub cur: int,
    pub input: Seq<char>,
    pub output: Seq<char>,
    pub steps: int,
}

/// The all-zero tape of 256 cells.
pub open spec fn zero_tape() -> Seq<u8> {
    Seq::new(256, |i: int| 0u8)
}

/// The state a freshly constructed engine is in.
pub open spec fn init_state(source: Seq<char>, input: Seq<char>) -> MachineState {
    MachineState {
        memory: zero_tape(),
        ptr: 0,
        tokens: tokenize_spec(source),
        jumps: jump_table_spec(tokenize_spec(source)),
        cur: 0,
        input,
        output: Seq::empty(),
        steps: 0,
    }
}

/// The current instruction cannot be stepped fatally: no tape cell
/// leaves 0..=255, the pointer stays on the tape, and a taken branch
/// has a jump-table entry. Past the end of the program every step is a
/// harmless no-op.
pub open spec fn step_enabled(s: MachineState) -> bool {
    s.cur < s.tokens.len() ==> {
        let t = s.tokens[s.cur];
        match t.tp {
            TokenType::Plus => s.memory[s.ptr as int] < 255,
            TokenType::Minus => s.memory[s.ptr as int] > 0,
            TokenType::RightAngle => s.ptr < 255,
            TokenType::LeftAngle => s.ptr > 0,
            TokenType::LeftSquare => s.memory[s.ptr as int] == 0 ==> s.jumps[s.cur] is Some,
            TokenType::RightSquare => s.memory[s.ptr as int] != 0 ==> s.jumps[s.cur] is Some,
            TokenType::Dot => true,
            TokenType::Comma => true,
        }
    }
}

/// Where a taken bracket branch continues (meaningful only when the
/// entry exists, which `step_enabled` guarantees for a taken branch).
pub open spec fn jump_target(s: MachineState) -> int {
    match s.jumps[s.cur] {
        Some(v) => v,
        None => s.cur + 1,
    }
}

/// One instruction's effect on the machine state. Every branch, the
/// end-of-program no-op included, raises `steps` by exactly one.
pub open spec fn step_spec(s: MachineState) -> MachineState {
    if s.cur < s.tokens.len() {
        let t = s.tokens[s.cur];
        match t.tp {
            TokenType::Plus => MachineState {
                memory: s.memory.update(s.ptr as int, (s.memory[s.ptr as int] + 1) as u8),
                cur: s.cur + 1,
                steps: s.steps + 1,
                ..s
            },
            TokenType::Minus => MachineState {
                memory: s.memory.update(s.ptr as int, (s.memory[s.ptr as int] - 1) as u8),
                cur: s.cur + 1,
                steps: s.steps + 1,
                ..s
            },
            TokenType::RightAngle => MachineState {
                ptr: (s.ptr + 1) as u8,
                cur: s.cur + 1,
                steps: s.steps + 1,
                ..s
            },
            TokenType::LeftAngle => MachineState {
                ptr: (s.ptr - 1) as u8,
                cur: s.cur + 1,
                steps: s.steps + 1,
                ..s
            },
            TokenType::LeftSquare => MachineState {
                cur: if s.memory[s.ptr as int] == 0 {
                    jump_target(s)
                } else {
                    s.cur + 1
                },
                steps: s.steps + 1,
                ..s
            },
            TokenType::RightSquare => MachineState {
                cur: if s.memory[s.ptr as int] != 0 {
                    jump_target(s)
                } else {
                    s.cur + 1
                },
                steps: s.steps + 1,
                ..s
            },
            TokenType::Dot => MachineState {
                output: s.output.push(s.memory[s.ptr as int] as char),
                cur: s.cur + 1,
                steps: s.steps + 1,
                ..s
            },
            TokenType::Comma => MachineState {
                memory: s.memory.update(
                    s.ptr as int,
                    if s.input.len() == 0 {
                        0u8
                    } else {
                        s.input[0] as u8
                    },
                ),
                input: if s.input.len() == 0 {
                    s.input
                } else {
                    s.input.subrange(1, s.input.len() as int)
                },
                cur: s.cur + 1,
                steps: s.steps + 1,
                ..s
            },
        }
    } else {
        MachineState { steps: s.steps + 1, ..s }
    }
}

/// The execution engine: owns the tape, the program, and the pending
/// input and accumulated output, both modeled as in-memory strings.
pub struct Interpreter {
    memory: Vec<u8>,
    ptr: u8,
    tokens: Vec<Token>,
    jump_map: Vec<Option<usize>>,
    cur: usize,
    input: String,
    output: String,
    step_count: usize,
}

impl View for Interpreter {
    type V = MachineState;

    closed spec fn view(&self) -> MachineState {
        MachineState {
            memory: self.memory@,
            ptr: self.ptr,
            tokens: self.tokens@,
            jumps: table_view(self.jump_map@),
            cur: self.cur as int,
            input: self.input@,
            output: self.output@,
            steps: self.step_count as int,
        }
    }
}

/// Relies on String::push: appends exactly the given character.
#[verifier::external_body]
fn push_char(s: &mut String, c: char)
    ensures
        final(s)@ == old(s)@.push(c),
{
    s.push(c);
}

/// The structural invariant of an engine state: a 256-cell tape, the
/// jump table built from the program, and an instruction counter that
/// never passes one beyond the last instruction.
pub open spec fn machine_wf(s: MachineState) -> bool {
    &&& s.memory.len() == 256
    &&& s.jumps.len() == s.tokens.len()
    &&& s.jumps == jump_table_spec(s.tokens)
    &&& 0 <= s.cur <= s.tokens.len()
}

/// Every step raises the step count by exactly one, end-of-program
/// no-op steps included.
pub proof fn lemma_step_counts(s: MachineState)
    ensures
        step_spec(s).steps == s.steps + 1,
{
}

/// Past the end of the program a step is a no-op apart from the step
/// count: tape, pointer, counter, input and output are unchanged.
pub proof fn lemma_step_at_end(s: MachineState)
    requires
        s.cur >= s.tokens.len(),
    ensures
        step_spec(s) == (MachineState { steps: s.steps + 1, ..s }),
{
}

impl Interpreter {
    pub open spec fn wf(self) -> bool {
        machine_wf(self@)
    }

    pub fn new(source: &str, input: &str) -> (r: Interpreter)
        ensures
            r.wf(),
            r@ == init_state(source@, input@),
    {
        let tokens = tokenize(source);
        let jump_map = build_jump_map(&tokens);
        let mut memory: Vec<u8> = Vec::new();
        let mut i: usize = 0;
        while i < 256
            invariant
                0 <= i <= 256,
                memory@.len() == i,
                forall|k: int| 0 <= k < i ==> memory@[k] == 0u8,
            decreases 256 - i,
        {
            memory.push(0);
            i = i + 1;
        }
        proof {
            assert(memory@ =~= zero_tape());
        }
        let r = Interpreter {
            memory,
            ptr: 0,
            tokens,
            jump_map,
            cur: 0,
            input: input.to_owned(),
            output: String::new(),
            step_count: 0,
        };
        proof {
            assert(r@ =~= init_state(source@, input@));
        }
        r
    }

    /// The input characters not yet consumed.
    pub fn input(&self) -> (r: &str)
        ensures
            r@ == self@.input,
    {
        self.input.as_str()
    }

    /// Replaces the pending input wholesale.
    pub fn set_input(&mut self, input: String)
        ensures
            final(self)@ == (MachineState { input: input@, ..old(self)@ }),
            old(self).wf() ==> final(self).wf(),
    {
        self.input = input;
    }

    /// The output accumulated so far.
    pub fn output(&self) -> (r: &str)
        ensures
            r@ == self@.output,
    {
        self.output.as_str()
    }

    /// A read-only snapshot of the whole tape.
    pub fn memory(&self) -> (r: &Vec<u8>)
        ensures
            r@ == self@.memory,
    {
        &self.memory
    }

    pub fn current_ptr(&self) -> (r: u8)
        ensures
            r == self@.ptr,
    {
        self.ptr
    }

    pub fn total_step_count(&self) -> (r: usize)
        ensures
            r == self@.steps,
    {
        self.step_count
    }

    /// The source position of the next instruction, absent once the
    /// program has run off its end.
    pub fn current_line_and_pos(&self) -> (r: Option<(usize, usize)>)
        ensures
            r == current_pos_spec(self@),
    {
        if self.cur < self.tokens.len() {
            let t = self.tokens[self.cur];
            Some((t.line, t.pos))
        } else {
            None
        }
    }

    /// True once the instruction counter has left the program.
    pub fn end(&self) -> (r: bool)
        ensures
            r == (self@.cur >= self@.tokens.len()),
    {
        self.cur >= self.tokens.len()
    }

    /// True once execution has moved off the first instruction.
    pub fn running(&self) -> (r: bool)
        ensures
            r == (self@.cur > 0),
    {
        self.cur > 0
    }

    /// Whether `step` may be called: the next instruction cannot hit a
    /// fatal condition and the step counter has room.
    pub fn can_step(&self) -> (r: bool)
        requires
            self.wf(),
        ensures
            r == (step_enabled(self@) && self@.steps < usize::MAX),
    {
        if self.step_count == usize::MAX {
            return false;
        }
        if self.cur >= self.tokens.len() {
            return true;
        }
        let t = self.tokens[self.cur];
        let p = self.ptr as usize;
        match t.tp {
            TokenType::Plus => self.memory[p] < 255,
            TokenType::Minus => self.memory[p] > 0,
            TokenType::RightAngle => self.ptr < 255,
            TokenType::LeftAngle => self.ptr > 0,
            TokenType::LeftSquare => self.memory[p] != 0 || self.jump_map[self.cur].is_some(),
            TokenType::RightSquare => self.memory[p] == 0 || self.jump_map[self.cur].is_some(),
            TokenType::Dot => true,
            TokenType::Comma => true,
        }
    }

    /// Advances exactly one instruction; a no-op besides the step count
    /// when the program has ended.
    pub fn step(&mut self)
        requires
            old(self).wf(),
            step_enabled(old(self)@),
            old(self)@.steps < usize::MAX,
        ensures
            final(self).wf(),
            final(self)@ == step_spec(old(self)@),
    {
        proof {
            lemma_jump_table_bounds(self.tokens@);
        }
        if self.cur < self.tokens.len() {
            let t = self.tokens[self.cur];
            match t.tp {
                TokenType::Plus => {
                    let p = self.ptr as usize;
                    let v = self.memory[p];
                    self.memory[p] = v + 1;
                    self.cur = self.cur + 1;
                },
                TokenType::Minus => {
                    let p = self.ptr as usize;
                    let v = self.memory[p];
                    self.memory[p] = v - 1;
                    self.cur = self.cur + 1;
                },
                TokenType::RightAngle => {
                    self.ptr = self.ptr + 1;
                    self.cur = self.cur + 1;
                },
                TokenType::LeftAngle => {
                    self.ptr = self.ptr - 1;
                    self.cur = self.cur + 1;
                },
                TokenType::LeftSquare => {
                    let p = self.ptr as usize;
                    if self.memory[p] == 0 {
                        match self.jump_map[self.cur] {
                            Some(j) => {
                                self.cur = j;
                            },
                            None => {},
                        }
                    } else {
                        self.cur = self.cur + 1;
                    }
                },
                TokenType::RightSquare => {
                    let p = self.ptr as usize;
                    if self.memory[p] != 0 {
                        match self.jump_map[self.cur] {
                            Some(j) => {
                                self.cur = j;
                            },
                            None => {},
                        }
                    } else {
                        self.cur = self.cur + 1;
                    }
                },
                TokenType::Dot => {
                    let p = self.ptr as usize;
                    let c = self.memory[p] as char;
                    push_char(&mut self.output, c);
                    self.cur = self.cur + 1;
                },
                TokenType::Comma => {
                    let n = self.input.as_str().unicode_len();
                    let p = self.ptr as usize;
                    if n == 0 {
                        self.memory[p] = 0;
                    } else {
                        let c = self.input.as_str().get_char(0);
                        let rest = self.input.as_str().substring_char(1, n).to_owned();
                        self.input = rest;
                        self.memory[p] = c as u8;
                    }
                    self.cur = self.cur + 1;
                },
            }
        }
        self.step_count = self.step_count + 1;
        proof {
            assert(self@ =~= step_spec(old(self)@));
        }
    }
}

/// The source position of the next instruction, if any.
pub open spec fn current_pos_spec(s: MachineState) -> Option<(usize, usize)> {
    if 0 <= s.cur < s.tokens.len() {
        Some((s.tokens[s.cur].line, s.tokens[s.cur].pos))
    } else {
        None
    }
}

} // verus!
