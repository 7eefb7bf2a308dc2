//! A verified execution core for a 15-bit word machine: a register machine
//! with eight registers, a LIFO stack, writable program memory and
//! character-oriented console input and output.
//!
//! The crate holds the program loader, the operand resolver, the instruction
//! decoder and the fetch-decode-execute step, each with a contract over a
//! mathematical model of the machine. Reading the program image and talking
//! to the console are left to the host program: a step hands it the byte to
//! write or asks it for a line of input.
//!
//! - `word`: words, the operand encoding, the resolver and the arithmetic.
//! - `image`: the loader of program images.
//! - `instruction`: the instruction set and the decoder.
//! - `state`: the model of a machine and the meaning of every instruction.
//! - `machine`: the executable machine, proved to follow the model.
//! - `laws`, `traces`: what holds of every machine, one instruction at a time
//!   and over several steps.

pub mod error;
pub mod image;
pub mod instruction;
pub mod laws;
pub mod machine;
pub mod state;
pub mod traces;
pub mod word;

pub use error::ErrorKind;
pub use image::load_image;
pub use instruction::{decode, Instruction};
pub use machine::Machine;
pub use state::{Action, MachineState, Status};
pub use word::{get_value, resolve};
