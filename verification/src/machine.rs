//! The executable machine: the execution context and the step that runs one
//! instruction on it.

use std::collections::VecDeque;
use vstd::prelude::*;
use crate::error::ErrorKind;
use crate::image::{image_words, load_image};
use crate::instruction::{decode, Instruction};
use crate::state::{run_spec, step_spec, Action, MachineState, Status, NEWLINE};
use crate::word::{
    add_words, byte_of, destination, flag_word, line_words, mul_words, not_word, rem_words,
    resolve, word_of_char,
};

verus! {

/// The execution context of one machine: everything that a running program
/// can read or change.
#[derive(Debug)]
pub struct Machine {
    /// Program memory, of the size of the loaded program.
    pub memory: Vec<u16>,
    /// The eight registers.
    pub registers: [u16; 8],
    /// The stack, with its top at the end.
    pub stack: Vec<u16>,
    /// The address of the next instruction.
    pub pc: usize,
    /// The input characters not yet consumed, the next one at the front.
    pub input: VecDeque<u16>,
    /// Whether the machine runs, and if not, why.
    pub status: Status,
}

impl View for Machine {
    type V = MachineState;

    open spec fn view(&self) -> MachineState {
        MachineState {
            memory: self.memory@,
            registers: self.registers@,
            stack: self.stack@,
            pc: self.pc as int,
            input: self.input@,
            status: self.status,
        }
    }
}

impl Machine {
    /// A machine about to run the program `memory` from address 0, with all
    /// registers zero and with an empty stack and input queue.
    pub fn new(memory: Vec<u16>) -> (machine: Machine)
        ensures
            machine@ == MachineState::boot(memory@),
    {
        let machine = Machine {
            memory,
            registers: [0u16; 8],
            stack: Vec::new(),
            pc: 0,
            input: VecDeque::new(),
            status: Status::Running,
        };
        assert(machine.registers@ =~= Seq::new(8, |i: int| 0u16));
        machine
    }

    /// Loads a program image and sets up a machine to run it.
    ///
    /// Succeeds exactly on the images of even length; an image of odd length
    /// is refused with `CorruptImage`.
    pub fn from_image(bytes: &[u8]) -> (loaded: Result<Machine, ErrorKind>)
        ensures
            match loaded {
                Ok(machine) => bytes@.len() % 2 == 0 && machine@ == MachineState::boot(
                    image_words(bytes@),
                ),
                Err(kind) => bytes@.len() % 2 == 1 && kind == ErrorKind::CorruptImage,
            },
    {
        match load_image(bytes) {
            Ok(memory) => Ok(Machine::new(memory)),
            Err(kind) => Err(kind),
        }
    }

    /// The fault that stopped this machine, with the address of the
    /// instruction that failed; `None` for a machine that is not faulted.
    pub fn fault(&self) -> (report: Option<(ErrorKind, usize)>)
        ensures
            report == (match self.status {
                Status::Faulted(kind) => Some((kind, self.pc)),
                _ => None,
            }),
    {
        match self.status {
            Status::Faulted(kind) => Some((kind, self.pc)),
            _ => None,
        }
    }

    /// Resolves one operand word against the registers of this machine.
    pub fn resolve(&self, raw: u16) -> (value: Result<u16, ErrorKind>)
        ensures
            value == self@.resolve(raw),
    {
        resolve(raw, &self.registers)
    }

    /// Resolves two operand words, the first one first.
    fn operands(&self, a: u16, b: u16) -> (values: Result<(u16, u16), ErrorKind>)
        ensures
            match (self@.resolve(a), self@.resolve(b)) {
                (Ok(x), Ok(y)) => values == Ok::<(u16, u16), ErrorKind>((x, y)),
                _ => values == Err::<(u16, u16), ErrorKind>(ErrorKind::InvalidOperand),
            },
    {
        match self.resolve(a) {
            Ok(x) => match self.resolve(b) {
                Ok(y) => Ok((x, y)),
                Err(kind) => Err(kind),
            },
            Err(kind) => Err(kind),
        }
    }

    /// The top of the stack, which stays where it is.
    fn peek(&self) -> (top: Result<u16, ErrorKind>)
        ensures
            top == self@.top(),
    {
        if self.stack.len() > 0 {
            Ok(self.stack[self.stack.len() - 1])
        } else {
            Err(ErrorKind::StackUnderflow)
        }
    }

    /// Reads memory at the address that `raw` stands for.
    fn fetch(&self, raw: u16) -> (word: Result<u16, ErrorKind>)
        ensures
            word == self@.fetch(raw),
    {
        match self.resolve(raw) {
            Ok(address) => if (address as usize) < self.memory.len() {
                Ok(self.memory[address as usize])
            } else {
                Err(ErrorKind::AddressError)
            },
            Err(kind) => Err(kind),
        }
    }

    /// Puts `value` in the register that `dest` names and moves the program
    /// counter on by `width`; changes nothing if either is an error.
    fn store(&mut self, dest: u16, value: Result<u16, ErrorKind>, width: usize) -> (outcome: Result<
        Action,
        ErrorKind,
    >)
        requires
            old(self).pc + width <= usize::MAX,
        ensures
            match old(self)@.store(dest, value, width as int) {
                Ok((next, action)) => outcome == Ok::<Action, ErrorKind>(action) && final(self)@
                    == next,
                Err(kind) => outcome == Err::<Action, ErrorKind>(kind) && final(self)@ == old(
                    self,
                )@,
            },
    {
        match destination(dest) {
            Ok(register) => match value {
                Ok(v) => {
                    self.registers[register] = v;
                    self.pc = self.pc + width;
                    Ok(Action::Continue)
                },
                Err(kind) => Err(kind),
            },
            Err(kind) => Err(kind),
        }
    }

    /// Performs one decoded instruction and says what the host is to do.
    ///
    /// A machine that is not running stays as it is. A running machine ends
    /// in the state that the instruction gives it, or, where the instruction
    /// cannot execute, faulted and otherwise unchanged.
    ///
    /// The program counter must have room to move past the instruction,
    /// which it has wherever the instruction was decoded from memory.
    pub fn perform(&mut self, instruction: Instruction) -> (action: Action)
        requires
            old(self).pc + 1 + instruction.arity_spec() <= usize::MAX,
        ensures
            final(self)@ == old(self)@.perform(instruction).0,
            action == old(self)@.perform(instruction).1,
    {
        match self.status {
            Status::Running => {},
            _ => {
                return Action::Stop;
            },
        }
        let outcome: Result<Action, ErrorKind> = match instruction {
            Instruction::Halt => {
                self.status = Status::Halted;
                Ok(Action::Stop)
            },
            Instruction::Assign { dest, a } => {
                let value = self.resolve(a);
                self.store(dest, value, 3)
            },
            Instruction::Push { a } => match self.resolve(a) {
                Ok(x) => {
                    self.stack.push(x);
                    self.pc = self.pc + 2;
                    Ok(Action::Continue)
                },
                Err(kind) => Err(kind),
            },
            Instruction::Pop { dest } => {
                let top = self.peek();
                match self.store(dest, top, 2) {
                    Ok(action) => {
                        self.stack.pop();
                        Ok(action)
                    },
                    Err(kind) => Err(kind),
                }
            },
            Instruction::Eq { dest, a, b } => match self.operands(a, b) {
                Ok((x, y)) => self.store(dest, Ok(flag_word(x == y)), 4),
                Err(kind) => Err(kind),
            },
            Instruction::Gt { dest, a, b } => match self.operands(a, b) {
                Ok((x, y)) => self.store(dest, Ok(flag_word(x > y)), 4),
                Err(kind) => Err(kind),
            },
            Instruction::Jmp { a } => match self.resolve(a) {
                Ok(target) => {
                    self.pc = target as usize;
                    Ok(Action::Continue)
                },
                Err(kind) => Err(kind),
            },
            Instruction::Jnz { cond, a } => match self.operands(cond, a) {
                Ok((c, target)) => {
                    if c != 0 {
                        self.pc = target as usize;
                    } else {
                        self.pc = self.pc + 3;
                    }
                    Ok(Action::Continue)
                },
                Err(kind) => Err(kind),
            },
            Instruction::Jz { cond, a } => match self.operands(cond, a) {
                Ok((c, target)) => {
                    if c == 0 {
                        self.pc = target as usize;
                    } else {
                        self.pc = self.pc + 3;
                    }
                    Ok(Action::Continue)
                },
                Err(kind) => Err(kind),
            },
            Instruction::Add { dest, a, b } => match self.operands(a, b) {
                Ok((x, y)) => self.store(dest, Ok(add_words(x, y)), 4),
                Err(kind) => Err(kind),
            },
            Instruction::Mul { dest, a, b } => match self.operands(a, b) {
                Ok((x, y)) => self.store(dest, Ok(mul_words(x, y)), 4),
                Err(kind) => Err(kind),
            },
            Instruction::Mod { dest, a, b } => match self.operands(a, b) {
                Ok((x, y)) => self.store(dest, rem_words(x, y), 4),
                Err(kind) => Err(kind),
            },
            Instruction::And { dest, a, b } => match self.operands(a, b) {
                Ok((x, y)) => self.store(dest, Ok(x & y), 4),
                Err(kind) => Err(kind),
            },
            Instruction::Or { dest, a, b } => match self.operands(a, b) {
                Ok((x, y)) => self.store(dest, Ok(x | y), 4),
                Err(kind) => Err(kind),
            },
            Instruction::Not { dest, a } => {
                let value = match self.resolve(a) {
                    Ok(x) => Ok(not_word(x)),
                    Err(kind) => Err(kind),
                };
                self.store(dest, value, 3)
            },
            Instruction::Rmem { dest, a } => {
                let value = self.fetch(a);
                self.store(dest, value, 3)
            },
            Instruction::Wmem { a, b } => match self.operands(a, b) {
                Ok((address, value)) => if (address as usize) < self.memory.len() {
                    self.memory[address as usize] = value;
                    self.pc = self.pc + 3;
                    Ok(Action::Continue)
                } else {
                    Err(ErrorKind::AddressError)
                },
                Err(kind) => Err(kind),
            },
            Instruction::Call { a } => match self.resolve(a) {
                Ok(target) => {
                    let return_address: u16 = ((self.pc + 2) % 65536) as u16;
                    self.stack.push(return_address);
                    self.pc = target as usize;
                    Ok(Action::Continue)
                },
                Err(kind) => Err(kind),
            },
            Instruction::Ret => match self.stack.pop() {
                Some(target) => {
                    self.pc = target as usize;
                    Ok(Action::Continue)
                },
                None => {
                    self.status = Status::Halted;
                    Ok(Action::Stop)
                },
            },
            Instruction::Out { a } => match self.resolve(a) {
                Ok(x) => {
                    self.pc = self.pc + 2;
                    Ok(Action::Output(byte_of(x)))
                },
                Err(kind) => Err(kind),
            },
            Instruction::In { dest } => match destination(dest) {
                Ok(register) => match self.input.pop_front() {
                    Some(character) => {
                        if character == NEWLINE {
                            self.input.clear();
                        }
                        self.registers[register] = character;
                        self.pc = self.pc + 2;
                        Ok(Action::Continue)
                    },
                    None => Ok(Action::NeedInput),
                },
                Err(kind) => Err(kind),
            },
            Instruction::Noop => {
                self.pc = self.pc + 1;
                Ok(Action::Continue)
            },
        };
        match outcome {
            Ok(action) => action,
            Err(kind) => {
                self.status = Status::Faulted(kind);
                Action::Stop
            },
        }
    }

    /// Offers the machine a line of console input, terminator included.
    ///
    /// The line is taken only when the input queue is empty, and then
    /// becomes the queue, one word for each character. A machine that still
    /// has input refuses the line and stays as it is.
    pub fn feed_line(&mut self, line: &str) -> (accepted: bool)
        ensures
            accepted == (old(self)@.input.len() == 0),
            final(self)@ == (if accepted {
                MachineState { input: line_words(line@), ..old(self)@ }
            } else {
                old(self)@
            }),
    {
        if self.input.len() != 0 {
            return false;
        }
        for c in it: line.chars()
            invariant
                it.seq() == line@,
                self.input@ == line_words(line@.take(it.index() as int)),
                self.memory@ == old(self).memory@,
                self.registers@ == old(self).registers@,
                self.stack@ == old(self).stack@,
                self.pc == old(self).pc,
                self.status == old(self).status,
        {
            self.input.push_back(word_of_char(c));
        }
        true
    }

    /// Runs one fetch-decode-execute step and says what the host is to do.
    ///
    /// The machine ends in exactly the state that `step_spec` gives for the
    /// state it was in: after one instruction if all went well, faulted and
    /// otherwise unchanged if the instruction could not be decoded or
    /// executed, and as it was if it was not running or waits for input.
    pub fn step(&mut self) -> (action: Action)
        ensures
            final(self)@ == step_spec(old(self)@).0,
            action == step_spec(old(self)@).1,
    {
        match self.status {
            Status::Running => {},
            _ => {
                return Action::Stop;
            },
        }
        match decode(&self.memory, self.pc) {
            Ok(instruction) => self.perform(instruction),
            Err(kind) => {
                self.status = Status::Faulted(kind);
                Action::Stop
            },
        }
    }
    /// Runs the machine for at most `budget` steps and appends the bytes it
    /// writes to `output`.
    ///
    /// Returns at the first step that asks for input or finds the machine
    /// stopped, with the action of that step; returns `Continue` when the
    /// budget is spent and the machine can go on.
    pub fn run(&mut self, output: &mut Vec<u8>, budget: usize) -> (action: Action)
        ensures
            final(self)@ == run_spec(old(self)@, budget as nat).0,
            final(output)@ == old(output)@ + run_spec(old(self)@, budget as nat).1,
            action == run_spec(old(self)@, budget as nat).2,
            !(action is Output),
    {
        let mut remaining: usize = budget;
        while remaining > 0
            invariant
                run_spec(old(self)@, budget as nat).0 == run_spec(self@, remaining as nat).0,
                old(output)@ + run_spec(old(self)@, budget as nat).1 == output@ + run_spec(
                    self@,
                    remaining as nat,
                ).1,
                run_spec(old(self)@, budget as nat).2 == run_spec(self@, remaining as nat).2,
            decreases remaining,
        {
            let action = self.step();
            match action {
                Action::Continue => {},
                Action::Output(byte) => {
                    output.push(byte);
                },
                Action::NeedInput | Action::Stop => {
                    return action;
                },
            }
            remaining = remaining - 1;
        }
        Action::Continue
    }
}

} // verus!
