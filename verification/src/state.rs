//! The mathematical model of a machine and the meaning of every instruction.
//!
//! `MachineState` is what a machine is to a contract: sequences of words, a
//! program counter and a status. `MachineState::execute` says what one
//! instruction does to a state, and `step_spec` what one fetch-decode-execute
//! step does. The executable machine is proved to follow them.

use vstd::prelude::*;
use crate::error::ErrorKind;
use crate::instruction::{decode_spec, Instruction};
use crate::word::{
    complement15, destination_spec, flag, low_byte, product15, remainder_spec, resolve_spec,
    sum15,
};

verus! {

/// Where a machine stands in its life. `Halted` and `Faulted` are final.
#[derive(Clone, Copy, Debug, PartialEq, Eq, Structural)]
pub enum Status {
    /// The machine executes instructions.
    Running,
    /// The machine stopped in good order, by `HALT` or by `RET` on an empty
    /// stack.
    Halted,
    /// The machine stopped on a fatal condition. Its program counter still
    /// points at the instruction that failed.
    Faulted(ErrorKind),
}

/// What one step asks of the host.
#[derive(Clone, Copy, Debug, PartialEq, Eq, Structural)]
pub enum Action {
    /// An instruction was executed; there is nothing for the host to do.
    Continue,
    /// An instruction was executed; the host writes this byte to the console.
    Output(u8),
    /// The machine stands at an `IN` instruction with an empty input queue.
    /// Nothing was changed; the host supplies a line of input.
    NeedInput,
    /// The machine is halted or faulted; its status says which.
    Stop,
}

/// The state of a machine as contracts see it.
#[verifier::ext_equal]
pub struct MachineState {
    /// Program memory: address `i` holds `memory[i]`.
    pub memory: Seq<u16>,
    /// The register file, of length 8 in every state of an executable
    /// machine.
    pub registers: Seq<u16>,
    /// The stack, with its top at the end.
    pub stack: Seq<u16>,
    /// The address of the next instruction.
    pub pc: int,
    /// The input characters not yet consumed, the next one first.
    pub input: Seq<u16>,
    /// Whether the machine runs, and if not, why.
    pub status: Status,
}

/// A state together with what the host is asked to do, or the fault that
/// kept the instruction from executing.
pub type Outcome = Result<(MachineState, Action), ErrorKind>;

/// The word pushed by a `CALL` whose next instruction is at `address`: the
/// address itself wherever it fits in a word, and its low 16 bits beyond.
pub open spec fn return_word(address: int) -> u16 {
    (address % 65536) as u16
}

/// The character code that ends a line of input.
pub const NEWLINE: u16 = 10;

impl MachineState {
    /// The state in which a machine starts on the program `memory`: all
    /// registers zero, stack and input queue empty, program counter 0.
    pub open spec fn boot(memory: Seq<u16>) -> MachineState {
        MachineState {
            memory,
            registers: Seq::new(8, |i: int| 0u16),
            stack: Seq::empty(),
            pc: 0,
            input: Seq::empty(),
            status: Status::Running,
        }
    }

    /// What the operand word `raw` stands for in this state.
    pub open spec fn resolve(self, raw: u16) -> Result<u16, ErrorKind> {
        resolve_spec(raw, self.registers)
    }

    /// This state, stopped by a fault of the given kind. Nothing else
    /// changes: the program counter stays on the failed instruction.
    pub open spec fn faulted(self, kind: ErrorKind) -> MachineState {
        MachineState { status: Status::Faulted(kind), ..self }
    }

    /// This state, halted in good order.
    pub open spec fn halted(self) -> MachineState {
        MachineState { status: Status::Halted, ..self }
    }

    /// This state with the program counter moved on by `width` words.
    pub open spec fn moved(self, width: int) -> MachineState {
        MachineState { pc: self.pc + width, ..self }
    }

    /// This state with the program counter set to `target`.
    pub open spec fn at(self, target: u16) -> MachineState {
        MachineState { pc: target as int, ..self }
    }

    /// The top of the stack, or a `StackUnderflow` if there is none.
    pub open spec fn top(self) -> Result<u16, ErrorKind> {
        if self.stack.len() > 0 {
            Ok(self.stack.last())
        } else {
            Err(ErrorKind::StackUnderflow)
        }
    }

    /// The memory word at the address that `raw` stands for, or an
    /// `AddressError` if that address is outside memory.
    pub open spec fn fetch(self, raw: u16) -> Result<u16, ErrorKind> {
        match self.resolve(raw) {
            Ok(address) => if address < self.memory.len() {
                Ok(self.memory[address as int])
            } else {
                Err(ErrorKind::AddressError)
            },
            Err(kind) => Err(kind),
        }
    }

    /// An instruction of `width` words, opcode included, that puts `value` in
    /// the register named by `dest`: the destination is checked first, then
    /// the value.
    pub open spec fn store(self, dest: u16, value: Result<u16, ErrorKind>, width: int) -> Outcome {
        match destination_spec(dest) {
            Ok(register) => match value {
                Ok(v) => Ok(
                    (
                        MachineState {
                            registers: self.registers.update(register, v),
                            pc: self.pc + width,
                            ..self
                        },
                        Action::Continue,
                    ),
                ),
                Err(kind) => Err(kind),
            },
            Err(kind) => Err(kind),
        }
    }

    /// An instruction with a destination and two operands: the destination
    /// and both operands must be valid, then `f` gives the value to store or
    /// the fault of the operation itself.
    pub open spec fn compute(
        self,
        dest: u16,
        a: u16,
        b: u16,
        f: spec_fn(u16, u16) -> Result<u16, ErrorKind>,
    ) -> Outcome {
        match (self.resolve(a), self.resolve(b)) {
            (Ok(x), Ok(y)) => self.store(dest, f(x, y), 4),
            _ => Err(ErrorKind::InvalidOperand),
        }
    }

    /// A jump to `a` that is taken when `taken` holds of `cond`. Both operands
    /// are resolved whether or not the jump is taken.
    pub open spec fn branch(self, cond: u16, a: u16, taken: spec_fn(u16) -> bool) -> Outcome {
        match (self.resolve(cond), self.resolve(a)) {
            (Ok(c), Ok(target)) => if taken(c) {
                Ok((self.at(target), Action::Continue))
            } else {
                Ok((self.moved(3), Action::Continue))
            },
            _ => Err(ErrorKind::InvalidOperand),
        }
    }

    /// What executing `instruction` does to this state: the next state and
    /// the action asked of the host, or the fault that stops the machine.
    ///
    /// Operands are checked from left to right, then the condition of the
    /// operation itself (a missing stack entry, a zero divisor, an address
    /// outside memory). An instruction that faults changes nothing.
    pub open spec fn execute(self, instruction: Instruction) -> Outcome {
        match instruction {
            Instruction::Halt => Ok((self.halted(), Action::Stop)),
            Instruction::Assign { dest, a } => self.store(dest, self.resolve(a), 3),
            Instruction::Push { a } => match self.resolve(a) {
                Ok(x) => Ok(
                    (
                        MachineState { stack: self.stack.push(x), pc: self.pc + 2, ..self },
                        Action::Continue,
                    ),
                ),
                Err(kind) => Err(kind),
            },
            Instruction::Pop { dest } => match self.store(dest, self.top(), 2) {
                Ok((next, action)) => Ok(
                    (MachineState { stack: self.stack.drop_last(), ..next }, action),
                ),
                Err(kind) => Err(kind),
            },
            Instruction::Eq { dest, a, b } => self.compute(
                dest,
                a,
                b,
                |x: u16, y: u16| Ok(flag(x == y)),
            ),
            Instruction::Gt { dest, a, b } => self.compute(
                dest,
                a,
                b,
                |x: u16, y: u16| Ok(flag(x > y)),
            ),
            Instruction::Jmp { a } => match self.resolve(a) {
                Ok(target) => Ok((self.at(target), Action::Continue)),
                Err(kind) => Err(kind),
            },
            Instruction::Jnz { cond, a } => self.branch(cond, a, |c: u16| c != 0),
            Instruction::Jz { cond, a } => self.branch(cond, a, |c: u16| c == 0),
            Instruction::Add { dest, a, b } => self.compute(
                dest,
                a,
                b,
                |x: u16, y: u16| Ok(sum15(x, y)),
            ),
            Instruction::Mul { dest, a, b } => self.compute(
                dest,
                a,
                b,
                |x: u16, y: u16| Ok(product15(x, y)),
            ),
            Instruction::Mod { dest, a, b } => self.compute(
                dest,
                a,
                b,
                |x: u16, y: u16| remainder_spec(x, y),
            ),
            Instruction::And { dest, a, b } => self.compute(
                dest,
                a,
                b,
                |x: u16, y: u16| Ok(x & y),
            ),
            Instruction::Or { dest, a, b } => self.compute(dest, a, b, |x: u16, y: u16| Ok(x | y)),
            Instruction::Not { dest, a } => self.store(
                dest,
                match self.resolve(a) {
                    Ok(x) => Ok(complement15(x)),
                    Err(kind) => Err(kind),
                },
                3,
            ),
            Instruction::Rmem { dest, a } => self.store(dest, self.fetch(a), 3),
            Instruction::Wmem { a, b } => match (self.resolve(a), self.resolve(b)) {
                (Ok(address), Ok(value)) => if address < self.memory.len() {
                    Ok(
                        (
                            MachineState {
                                memory: self.memory.update(address as int, value),
                                pc: self.pc + 3,
                                ..self
                            },
                            Action::Continue,
                        ),
                    )
                } else {
                    Err(ErrorKind::AddressError)
                },
                _ => Err(ErrorKind::InvalidOperand),
            },
            Instruction::Call { a } => match self.resolve(a) {
                Ok(target) => Ok(
                    (
                        MachineState {
                            stack: self.stack.push(return_word(self.pc + 2)),
                            pc: target as int,
                            ..self
                        },
                        Action::Continue,
                    ),
                ),
                Err(kind) => Err(kind),
            },
            Instruction::Ret => if self.stack.len() == 0 {
                Ok((self.halted(), Action::Stop))
            } else {
                Ok(
                    (
                        MachineState {
                            stack: self.stack.drop_last(),
                            pc: self.stack.last() as int,
                            ..self
                        },
                        Action::Continue,
                    ),
                )
            },
            Instruction::Out { a } => match self.resolve(a) {
                Ok(x) => Ok((self.moved(2), Action::Output(low_byte(x)))),
                Err(kind) => Err(kind),
            },
            Instruction::In { dest } => match destination_spec(dest) {
                Ok(register) => if self.input.len() == 0 {
                    Ok((self, Action::NeedInput))
                } else {
                    Ok(
                        (
                            MachineState {
                                registers: self.registers.update(register, self.input[0]),
                                input: if self.input[0] == NEWLINE {
                                    Seq::empty()
                                } else {
                                    self.input.drop_first()
                                },
                                pc: self.pc + 2,
                                ..self
                            },
                            Action::Continue,
                        ),
                    )
                },
                Err(kind) => Err(kind),
            },
            Instruction::Noop => Ok((self.moved(1), Action::Continue)),
        }
    }

    /// What a machine in this state does when it is handed `instruction`:
    /// nothing if it is not running; else what `execute` says, where a fault
    /// stops the machine in the state it was in.
    pub open spec fn perform(self, instruction: Instruction) -> (MachineState, Action) {
        if self.status != Status::Running {
            (self, Action::Stop)
        } else {
            match self.execute(instruction) {
                Ok(next) => next,
                Err(kind) => (self.faulted(kind), Action::Stop),
            }
        }
    }
}

/// One fetch-decode-execute step.
///
/// A machine that is not running stays as it is. A running machine decodes
/// the instruction at its program counter and performs it; if either fails,
/// the machine is faulted with the kind of the failure and is otherwise
/// unchanged.
pub open spec fn step_spec(state: MachineState) -> (MachineState, Action) {
    if state.status != Status::Running {
        (state, Action::Stop)
    } else {
        match decode_spec(state.memory, state.pc) {
            Ok(instruction) => state.perform(instruction),
            Err(kind) => (state.faulted(kind), Action::Stop),
        }
    }
}

/// What a run of at most `budget` steps comes to: the state it ends in, the
/// bytes it writes, in order, and the action of its last step.
///
/// The run ends early at the first step that asks for input or finds the
/// machine stopped. If the budget is spent first, the action is `Continue`:
/// the machine can go on.
pub open spec fn run_spec(state: MachineState, budget: nat) -> (MachineState, Seq<u8>, Action)
    decreases budget,
{
    if budget == 0 {
        (state, Seq::empty(), Action::Continue)
    } else {
        let (next, action) = step_spec(state);
        match action {
            Action::Continue => run_spec(next, (budget - 1) as nat),
            Action::Output(byte) => {
                let rest = run_spec(next, (budget - 1) as nat);
                (rest.0, seq![byte] + rest.1, rest.2)
            },
            Action::NeedInput | Action::Stop => (next, Seq::empty(), action),
        }
    }
}

} // verus!
