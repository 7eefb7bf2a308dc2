//! The kinds of fatal condition that stop a machine or keep it from starting.

use vstd::prelude::*;

verus! {

/// Why a program image was refused or a running machine stopped for good.
#[derive(Clone, Copy, Debug, PartialEq, Eq, Structural)]
pub enum ErrorKind {
    /// The program image could not be read. The host reports this kind; no
    /// function of this crate returns it, since none of them reads a file.
    IoError,
    /// The program image is not a whole number of 16-bit words.
    CorruptImage,
    /// A memory read, a memory write or an instruction fetch fell outside
    /// program memory.
    AddressError,
    /// An operand word names neither a literal nor one of the eight registers.
    InvalidOperand,
    /// The word at the program counter is not one of the 22 opcodes.
    UnknownOpcode,
    /// `POP` was executed on an empty stack.
    StackUnderflow,
    /// `MOD` was executed with a divisor of zero.
    DivideByZero,
}

} // verus!
