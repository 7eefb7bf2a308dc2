//! Words, the operand encoding and the resolver that reads operands.
//!
//! A word is an unsigned 16-bit integer. As an operand, a word below 32768 is
//! a literal, a word in `32768..32776` names one of the eight registers, and
//! every other word is outside the encoding.

use vstd::prelude::*;
use crate::error::ErrorKind;

verus! {

/// The number of data values: literals are the words below it, and
/// arithmetic is reduced modulo it.
pub const MODULUS: u16 = 32768;

/// The number of registers.
pub const REGISTER_COUNT: u16 = 8;

/// The first word that is neither a literal nor a register alias.
pub const ENCODING_END: u16 = 32776;

/// What an operand word stands for, given the register contents: itself if it
/// is a literal, the content of register `raw - 32768` if it is a register
/// alias, and an `InvalidOperand` error otherwise.
pub open spec fn resolve_spec(raw: u16, registers: Seq<u16>) -> Result<u16, ErrorKind> {
    if raw < 32768 {
        Ok(raw)
    } else if raw < 32776 {
        Ok(registers[raw - 32768])
    } else {
        Err(ErrorKind::InvalidOperand)
    }
}

/// The register that a destination word selects: the word modulo 32768, which
/// must be below 8. A destination is never resolved as an operand.
pub open spec fn destination_spec(raw: u16) -> Result<int, ErrorKind> {
    if raw % 32768 < 8 {
        Ok(raw as int % 32768)
    } else {
        Err(ErrorKind::InvalidOperand)
    }
}

/// What the operand stored at address `address` stands for: an `AddressError`
/// if the address is outside memory, else the memory word there, resolved.
pub open spec fn get_value_spec(address: int, memory: Seq<u16>, registers: Seq<u16>) -> Result<
    u16,
    ErrorKind,
> {
    if 0 <= address < memory.len() {
        resolve_spec(memory[address], registers)
    } else {
        Err(ErrorKind::AddressError)
    }
}

/// The sum of two words, reduced modulo 32768.
pub open spec fn sum15(a: u16, b: u16) -> u16 {
    ((a + b) % 32768) as u16
}

/// The product of two words, reduced modulo 32768. The product itself is
/// taken over the integers, so nothing is lost before the reduction.
pub open spec fn product15(a: u16, b: u16) -> u16 {
    ((a * b) % 32768) as u16
}

/// The remainder of `a` divided by `b`, which is an error when `b` is zero.
pub open spec fn remainder_spec(a: u16, b: u16) -> Result<u16, ErrorKind> {
    if b == 0 {
        Err(ErrorKind::DivideByZero)
    } else {
        Ok(a % b)
    }
}

/// The bitwise complement of a word with its top bit cleared.
pub open spec fn complement15(a: u16) -> u16 {
    !a & 0x7FFF
}

/// The word that stands for a truth value: 1 for true, 0 for false.
pub open spec fn flag(condition: bool) -> u16 {
    if condition {
        1
    } else {
        0
    }
}

/// The low eight bits of a word: the character code that `OUT` writes.
pub open spec fn low_byte(a: u16) -> u8 {
    (a % 256) as u8
}

/// The word that stands for a character of input: its code, or the low 16
/// bits of the code beyond the range of a word.
pub open spec fn char_word(c: char) -> u16 {
    (c as u32 % 65536) as u16
}

/// The words that stand for the characters of a line, in order.
pub open spec fn line_words(line: Seq<char>) -> Seq<u16> {
    Seq::new(line.len(), |i: int| char_word(line[i]))
}

/// Resolves one operand word against the register file, which has eight
/// registers.
pub fn resolve(raw: u16, registers: &[u16]) -> (value: Result<u16, ErrorKind>)
    requires
        registers@.len() == 8,
    ensures
        value == resolve_spec(raw, registers@),
        raw < 32768 ==> value == Ok::<u16, ErrorKind>(raw),
{
    if raw < MODULUS {
        Ok(raw)
    } else if raw < ENCODING_END {
        let index: usize = (raw - MODULUS) as usize;
        Ok(registers[index])
    } else {
        Err(ErrorKind::InvalidOperand)
    }
}

/// Selects the register that a destination word names.
pub fn destination(raw: u16) -> (register: Result<usize, ErrorKind>)
    ensures
        match register {
            Ok(r) => destination_spec(raw) == Ok::<int, ErrorKind>(r as int) && r < 8,
            Err(kind) => destination_spec(raw) == Err::<int, ErrorKind>(kind),
        },
{
    let index: u16 = raw % MODULUS;
    if index < REGISTER_COUNT {
        Ok(index as usize)
    } else {
        Err(ErrorKind::InvalidOperand)
    }
}

/// Reads the operand stored at `val` in `memory` and resolves it against
/// `registry`, the file of eight registers.
pub fn get_value(val: usize, memory: &Vec<u16>, registry: &[u16]) -> (value: Result<
    u16,
    ErrorKind,
>)
    requires
        registry@.len() == 8,
    ensures
        value == get_value_spec(val as int, memory@, registry@),
{
    if val < memory.len() {
        resolve(memory[val], registry)
    } else {
        Err(ErrorKind::AddressError)
    }
}

/// Adds two words modulo 32768.
pub fn add_words(a: u16, b: u16) -> (sum: u16)
    ensures
        sum == sum15(a, b),
        sum < 32768,
{
    let wide: u32 = a as u32 + b as u32;
    (wide % 32768) as u16
}

/// Multiplies two words modulo 32768, in 32 bits so that the product cannot
/// wrap before it is reduced.
pub fn mul_words(a: u16, b: u16) -> (product: u16)
    ensures
        product == product15(a, b),
        product < 32768,
{
    assert(a * b <= 0xFFFF * 0xFFFF) by (nonlinear_arith)
        requires
            a <= 0xFFFF,
            b <= 0xFFFF,
    ;
    let wide: u32 = a as u32 * b as u32;
    (wide % 32768) as u16
}

/// Divides `a` by `b` and returns the remainder; a zero divisor is refused
/// with `DivideByZero`.
pub fn rem_words(a: u16, b: u16) -> (remainder: Result<u16, ErrorKind>)
    ensures
        remainder == remainder_spec(a, b),
{
    if b == 0 {
        Err(ErrorKind::DivideByZero)
    } else {
        Ok(a % b)
    }
}

/// Complements a word bit by bit and clears the top bit of the result.
pub fn not_word(a: u16) -> (complement: u16)
    ensures
        complement == complement15(a),
        complement < 32768,
{
    assert(!a & 0x7FFF < 32768) by (bit_vector);
    !a & 0x7FFF
}

/// The word for a truth value.
pub fn flag_word(condition: bool) -> (word: u16)
    ensures
        word == flag(condition),
{
    if condition {
        1
    } else {
        0
    }
}

/// The low eight bits of a word.
pub fn byte_of(a: u16) -> (byte: u8)
    ensures
        byte == low_byte(a),
{
    (a % 256) as u8
}

/// The word that stands for a character of input.
pub fn word_of_char(c: char) -> (word: u16)
    ensures
        word == char_word(c),
{
    (c as u32 % 65536) as u16
}

} // verus!
