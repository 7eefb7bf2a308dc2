//! The instruction set: 22 opcodes, each with a fixed number of operand
//! words, and the decoder that reads one instruction from program memory.

use vstd::prelude::*;
use crate::error::ErrorKind;

verus! {

/// One decoded instruction with its raw operand words, in the order in which
/// they follow the opcode. `dest` names a destination register; the other
/// operands are resolved when the instruction executes.
#[derive(Clone, Copy, Debug, PartialEq, Eq, Structural)]
pub enum Instruction {
    /// `HALT`, opcode 0: stop the machine.
    Halt,
    /// `SET`, opcode 1: store `a` in `dest`.
    Assign { dest: u16, a: u16 },
    /// `PUSH`, opcode 2: push `a` on the stack.
    Push { a: u16 },
    /// `POP`, opcode 3: pop the top of the stack into `dest`.
    Pop { dest: u16 },
    /// `EQ`, opcode 4: store 1 in `dest` if `a` equals `b`, else 0.
    Eq { dest: u16, a: u16, b: u16 },
    /// `GT`, opcode 5: store 1 in `dest` if `a` is greater than `b`, else 0.
    Gt { dest: u16, a: u16, b: u16 },
    /// `JMP`, opcode 6: jump to `a`.
    Jmp { a: u16 },
    /// `JNZ`, opcode 7: jump to `a` if `cond` is not zero.
    Jnz { cond: u16, a: u16 },
    /// `JZ`, opcode 8: jump to `a` if `cond` is zero.
    Jz { cond: u16, a: u16 },
    /// `ADD`, opcode 9: store the sum of `a` and `b` modulo 32768 in `dest`.
    Add { dest: u16, a: u16, b: u16 },
    /// `MUL`, opcode 10: store the product of `a` and `b` modulo 32768 in `dest`.
    Mul { dest: u16, a: u16, b: u16 },
    /// `MOD`, opcode 11: store the remainder of `a` divided by `b` in `dest`.
    Mod { dest: u16, a: u16, b: u16 },
    /// `AND`, opcode 12: store the bitwise and of `a` and `b` in `dest`.
    And { dest: u16, a: u16, b: u16 },
    /// `OR`, opcode 13: store the bitwise or of `a` and `b` in `dest`.
    Or { dest: u16, a: u16, b: u16 },
    /// `NOT`, opcode 14: store the 15-bit complement of `a` in `dest`.
    Not { dest: u16, a: u16 },
    /// `RMEM`, opcode 15: store the memory word at address `a` in `dest`.
    Rmem { dest: u16, a: u16 },
    /// `WMEM`, opcode 16: store `b` in memory at address `a`.
    Wmem { a: u16, b: u16 },
    /// `CALL`, opcode 17: push the address of the next instruction and jump to `a`.
    Call { a: u16 },
    /// `RET`, opcode 18: pop an address and jump to it; halt if the stack is empty.
    Ret,
    /// `OUT`, opcode 19: write the character whose code is the low byte of `a`.
    Out { a: u16 },
    /// `IN`, opcode 20: read one character of input into `dest`.
    In { dest: u16 },
    /// `NOOP`, opcode 21: do nothing.
    Noop,
}

/// The number of operand words that follow an opcode, or `None` for a word
/// that is no opcode.
pub open spec fn arity_of_opcode(opcode: u16) -> Option<int> {
    if opcode == 0 || opcode == 18 || opcode == 21 {
        Some(0)
    } else if opcode == 2 || opcode == 3 || opcode == 6 || opcode == 17 || opcode == 19 || opcode
        == 20 {
        Some(1)
    } else if opcode == 1 || opcode == 7 || opcode == 8 || opcode == 14 || opcode == 15 || opcode
        == 16 {
        Some(2)
    } else if opcode == 4 || opcode == 5 || 9 <= opcode <= 13 {
        Some(3)
    } else {
        None
    }
}

/// The instruction that an opcode makes with the three words that follow it;
/// an opcode of lower arity ignores the words it has no use for.
pub open spec fn assemble(opcode: u16, x: u16, y: u16, z: u16) -> Option<Instruction> {
    if opcode == 0 {
        Some(Instruction::Halt)
    } else if opcode == 1 {
        Some(Instruction::Assign { dest: x, a: y })
    } else if opcode == 2 {
        Some(Instruction::Push { a: x })
    } else if opcode == 3 {
        Some(Instruction::Pop { dest: x })
    } else if opcode == 4 {
        Some(Instruction::Eq { dest: x, a: y, b: z })
    } else if opcode == 5 {
        Some(Instruction::Gt { dest: x, a: y, b: z })
    } else if opcode == 6 {
        Some(Instruction::Jmp { a: x })
    } else if opcode == 7 {
        Some(Instruction::Jnz { cond: x, a: y })
    } else if opcode == 8 {
        Some(Instruction::Jz { cond: x, a: y })
    } else if opcode == 9 {
        Some(Instruction::Add { dest: x, a: y, b: z })
    } else if opcode == 10 {
        Some(Instruction::Mul { dest: x, a: y, b: z })
    } else if opcode == 11 {
        Some(Instruction::Mod { dest: x, a: y, b: z })
    } else if opcode == 12 {
        Some(Instruction::And { dest: x, a: y, b: z })
    } else if opcode == 13 {
        Some(Instruction::Or { dest: x, a: y, b: z })
    } else if opcode == 14 {
        Some(Instruction::Not { dest: x, a: y })
    } else if opcode == 15 {
        Some(Instruction::Rmem { dest: x, a: y })
    } else if opcode == 16 {
        Some(Instruction::Wmem { a: x, b: y })
    } else if opcode == 17 {
        Some(Instruction::Call { a: x })
    } else if opcode == 18 {
        Some(Instruction::Ret)
    } else if opcode == 19 {
        Some(Instruction::Out { a: x })
    } else if opcode == 20 {
        Some(Instruction::In { dest: x })
    } else if opcode == 21 {
        Some(Instruction::Noop)
    } else {
        None
    }
}

impl Instruction {
    /// The number of operand words of this instruction.
    pub open spec fn arity_spec(self) -> int {
        match self {
            Instruction::Halt | Instruction::Ret | Instruction::Noop => 0,
            Instruction::Push { .. }
            | Instruction::Pop { .. }
            | Instruction::Jmp { .. }
            | Instruction::Call { .. }
            | Instruction::Out { .. }
            | Instruction::In { .. } => 1,
            Instruction::Assign { .. }
            | Instruction::Jnz { .. }
            | Instruction::Jz { .. }
            | Instruction::Not { .. }
            | Instruction::Rmem { .. }
            | Instruction::Wmem { .. } => 2,
            Instruction::Eq { .. }
            | Instruction::Gt { .. }
            | Instruction::Add { .. }
            | Instruction::Mul { .. }
            | Instruction::Mod { .. }
            | Instruction::And { .. }
            | Instruction::Or { .. } => 3,
        }
    }

    /// The number of operand words of this instruction.
    pub fn arity(&self) -> (count: usize)
        ensures
            count == self.arity_spec(),
            count <= 3,
    {
        match self {
            Instruction::Halt | Instruction::Ret | Instruction::Noop => 0,
            Instruction::Push { .. }
            | Instruction::Pop { .. }
            | Instruction::Jmp { .. }
            | Instruction::Call { .. }
            | Instruction::Out { .. }
            | Instruction::In { .. } => 1,
            Instruction::Assign { .. }
            | Instruction::Jnz { .. }
            | Instruction::Jz { .. }
            | Instruction::Not { .. }
            | Instruction::Rmem { .. }
            | Instruction::Wmem { .. } => 2,
            Instruction::Eq { .. }
            | Instruction::Gt { .. }
            | Instruction::Add { .. }
            | Instruction::Mul { .. }
            | Instruction::Mod { .. }
            | Instruction::And { .. }
            | Instruction::Or { .. } => 3,
        }
    }
}

/// The instruction at address `pc`, or the reason why there is none.
///
/// An `AddressError` if `pc` is outside memory; else an `UnknownOpcode` if the
/// word at `pc` is no opcode; else an `AddressError` if one of the operand
/// words would lie outside memory; else the instruction made of the opcode
/// and the operand words that follow it.
pub open spec fn decode_spec(memory: Seq<u16>, pc: int) -> Result<Instruction, ErrorKind> {
    if !(0 <= pc < memory.len()) {
        Err(ErrorKind::AddressError)
    } else {
        match arity_of_opcode(memory[pc]) {
            None => Err(ErrorKind::UnknownOpcode),
            Some(arity) => if pc + arity < memory.len() {
                Ok(assemble(memory[pc], memory[pc + 1], memory[pc + 2], memory[pc + 3])->0)
            } else {
                Err(ErrorKind::AddressError)
            },
        }
    }
}

/// The number of operand words of an opcode, if the word is one.
pub fn opcode_arity(opcode: u16) -> (arity: Option<usize>)
    ensures
        match arity {
            Some(n) => arity_of_opcode(opcode) == Some(n as int) && n <= 3,
            None => arity_of_opcode(opcode) == None::<int>,
        },
{
    match opcode {
        0 | 18 | 21 => Some(0),
        2 | 3 | 6 | 17 | 19 | 20 => Some(1),
        1 | 7 | 8 | 14 | 15 | 16 => Some(2),
        4 | 5 | 9 | 10 | 11 | 12 | 13 => Some(3),
        _ => None,
    }
}

/// Decodes the instruction at address `pc`.
pub fn decode(memory: &Vec<u16>, pc: usize) -> (decoded: Result<Instruction, ErrorKind>)
    ensures
        decoded == decode_spec(memory@, pc as int),
        decoded matches Ok(instruction) ==> pc + instruction.arity_spec() < memory.len(),
{
    if pc >= memory.len() {
        return Err(ErrorKind::AddressError);
    }
    let opcode: u16 = memory[pc];
    let arity: usize = match opcode_arity(opcode) {
        Some(n) => n,
        None => {
            return Err(ErrorKind::UnknownOpcode);
        },
    };
    if arity >= memory.len() - pc {
        return Err(ErrorKind::AddressError);
    }
    let x: u16 = if arity >= 1 {
        memory[pc + 1]
    } else {
        0
    };
    let y: u16 = if arity >= 2 {
        memory[pc + 2]
    } else {
        0
    };
    let z: u16 = if arity >= 3 {
        memory[pc + 3]
    } else {
        0
    };
    let instruction = match opcode {
        0 => Instruction::Halt,
        1 => Instruction::Assign { dest: x, a: y },
        2 => Instruction::Push { a: x },
        3 => Instruction::Pop { dest: x },
        4 => Instruction::Eq { dest: x, a: y, b: z },
        5 => Instruction::Gt { dest: x, a: y, b: z },
        6 => Instruction::Jmp { a: x },
        7 => Instruction::Jnz { cond: x, a: y },
        8 => Instruction::Jz { cond: x, a: y },
        9 => Instruction::Add { dest: x, a: y, b: z },
        10 => Instruction::Mul { dest: x, a: y, b: z },
        11 => Instruction::Mod { dest: x, a: y, b: z },
        12 => Instruction::And { dest: x, a: y, b: z },
        13 => Instruction::Or { dest: x, a: y, b: z },
        14 => Instruction::Not { dest: x, a: y },
        15 => Instruction::Rmem { dest: x, a: y },
        16 => Instruction::Wmem { a: x, b: y },
        17 => Instruction::Call { a: x },
        18 => Instruction::Ret,
        19 => Instruction::Out { a: x },
        20 => Instruction::In { dest: x },
        // Only opcode 21 is left: every word above it has no arity.
        _ => Instruction::Noop,
    };
    Ok(instruction)
}

} // verus!
