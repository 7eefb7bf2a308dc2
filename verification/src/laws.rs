//! What holds of the machine whatever program it runs.
//!
//! Each proof function states one law over the model that the contracts of
//! the executable functions speak of, so each law holds of every machine
//! that `Machine::step` drives.

use vstd::prelude::*;
use crate::error::ErrorKind;
use crate::instruction::{decode_spec, Instruction};
use crate::state::{return_word, run_spec, step_spec, Action, MachineState, Status};
use crate::word::{
    complement15, destination_spec, product15, remainder_spec, resolve_spec, sum15,
};

verus! {

/// A literal stands for itself: every word below 32768 resolves to itself,
/// whatever the registers hold.
pub proof fn lemma_literal_resolves_to_itself(v: u16, registers: Seq<u16>)
    requires
        v < 32768,
    ensures
        resolve_spec(v, registers) == Ok::<u16, ErrorKind>(v),
{
}

/// A register alias reads, and a destination word in the alias range selects,
/// the register whose index is the word modulo 32768.
pub proof fn lemma_register_index_is_word_mod_32768(raw: u16, registers: Seq<u16>)
    requires
        32768 <= raw < 32776,
    ensures
        0 <= raw % 32768 < 8,
        resolve_spec(raw, registers) == Ok::<u16, ErrorKind>(registers[raw as int % 32768]),
        destination_spec(raw) == Ok::<int, ErrorKind>(raw as int % 32768),
{
}

/// After a step that executes `SET r, a`, register `r` read through its
/// alias `32768 + r` gives what `a` stood for before the step. For a literal
/// `a` that is `a` itself, which is `a` modulo 32768.
pub proof fn lemma_set_then_resolve(state: MachineState, r: u16, dest: u16, a: u16)
    requires
        state.registers.len() == 8,
        state.status == Status::Running,
        r < 8,
        dest % 32768 == r,
        decode_spec(state.memory, state.pc) == Ok::<Instruction, ErrorKind>(
            Instruction::Assign { dest, a },
        ),
        state.resolve(a) is Ok,
    ensures
        step_spec(state).1 == Action::Continue,
        step_spec(state).0.resolve((32768 + r) as u16) == state.resolve(a),
        a < 32768 ==> step_spec(state).0.resolve((32768 + r) as u16) == Ok::<u16, ErrorKind>(a)
            && a == a % 32768,
{
}

/// Addition and multiplication are closed: their results are the sum and
/// the product of the operands modulo 32768, and so lie below 32768.
pub proof fn lemma_add_mul_closed(a: u16, b: u16)
    ensures
        sum15(a, b) == (a + b) % 32768,
        product15(a, b) == (a * b) % 32768,
        sum15(a, b) < 32768,
        product15(a, b) < 32768,
{
}

/// Whatever their operands, `ADD`, `MUL` and `NOT` leave in their
/// destination register the reduced result, which lies below 32768.
pub proof fn lemma_results_are_reduced(state: MachineState, dest: u16, a: u16, b: u16)
    requires
        state.registers.len() == 8,
    ensures
        match state.execute(Instruction::Add { dest, a, b }) {
            Ok((next, _)) => next.registers[dest as int % 32768] == (state.resolve(a)->Ok_0
                + state.resolve(b)->Ok_0) % 32768 && next.registers[dest as int % 32768] < 32768,
            Err(_) => true,
        },
        match state.execute(Instruction::Mul { dest, a, b }) {
            Ok((next, _)) => next.registers[dest as int % 32768] == (state.resolve(a)->Ok_0
                * state.resolve(b)->Ok_0) % 32768 && next.registers[dest as int % 32768] < 32768,
            Err(_) => true,
        },
        match state.execute(Instruction::Not { dest, a }) {
            Ok((next, _)) => next.registers[dest as int % 32768] == complement15(
                state.resolve(a)->Ok_0,
            ) && next.registers[dest as int % 32768] < 32768,
            Err(_) => true,
        },
{
    lemma_complement_bounded(state.resolve(a)->Ok_0);
}

/// A remainder is never larger than the dividend, so `MOD` of a value below
/// 32768 is below 32768.
pub proof fn lemma_remainder_bounded(a: u16, b: u16)
    requires
        b != 0,
    ensures
        remainder_spec(a, b) matches Ok(r) && r <= a && r < b,
{
    assert(a % b <= a && a % b < b) by (nonlinear_arith)
        requires
            0 <= a,
            0 < b,
    ;
}

/// The complement has its top bit clear, and on values below 32768 it is
/// `32767 - x`.
pub proof fn lemma_complement_bounded(x: u16)
    ensures
        complement15(x) < 32768,
        x < 32768 ==> complement15(x) == 32767 - x,
{
    assert(!x & 0x7FFF < 32768) by (bit_vector);
    assert(x < 32768 ==> !x & 0x7FFF == 32767 - x) by (bit_vector);
}

/// Complementing twice gives the value back, for every value below 32768.
pub proof fn lemma_complement_involution(x: u16)
    requires
        x < 32768,
    ensures
        complement15(complement15(x)) == x,
{
    assert(x < 32768 ==> !(!x & 0x7FFF) & 0x7FFF == x) by (bit_vector);
}

/// The values that the operand words `operands` stand for, given the
/// registers.
pub open spec fn resolved_values(registers: Seq<u16>, operands: Seq<u16>) -> Seq<u16> {
    Seq::new(
        operands.len(),
        |i: int|
            match resolve_spec(operands[i], registers) {
                Ok(value) => value,
                Err(_) => 0,
            },
    )
}

/// The state after `PUSH` was executed on each of `operands` in turn. It
/// stops at the first `PUSH` that faults.
pub open spec fn push_each(state: MachineState, operands: Seq<u16>) -> MachineState
    decreases operands.len(),
{
    if operands.len() == 0 {
        state
    } else {
        match state.execute(Instruction::Push { a: operands[0] }) {
            Ok((next, _)) => push_each(next, operands.drop_first()),
            Err(_) => state,
        }
    }
}

/// The state after `count` executions of `POP dest`, and the values that
/// they put in the destination register, in the order of their arrival. It
/// stops at the first `POP` that faults.
pub open spec fn pop_each(state: MachineState, dest: u16, count: nat) -> (MachineState, Seq<u16>)
    decreases count,
{
    if count == 0 {
        (state, Seq::empty())
    } else {
        match state.execute(Instruction::Pop { dest }) {
            Ok((next, _)) => {
                let rest = pop_each(next, dest, (count - 1) as nat);
                (rest.0, seq![next.registers[dest as int % 32768]] + rest.1)
            },
            Err(_) => (state, Seq::empty()),
        }
    }
}

/// Pushing operands that all resolve puts their values on the stack in
/// order, moves the program counter past the instructions and changes
/// nothing else.
pub proof fn lemma_push_each(state: MachineState, operands: Seq<u16>)
    requires
        forall|i: int| 0 <= i < operands.len() ==> operands[i] < 32776,
    ensures
        push_each(state, operands) == (MachineState {
            stack: state.stack + resolved_values(state.registers, operands),
            pc: state.pc + 2 * operands.len(),
            ..state
        }),
    decreases operands.len(),
{
    if operands.len() == 0 {
        assert(state.stack + resolved_values(state.registers, operands) =~= state.stack);
    } else {
        let first = state.resolve(operands[0])->Ok_0;
        let next = MachineState { stack: state.stack.push(first), pc: state.pc + 2, ..state };
        let rest = operands.drop_first();
        assert(state.execute(Instruction::Push { a: operands[0] }) == Ok::<
            (MachineState, Action),
            ErrorKind,
        >((next, Action::Continue)));
        assert forall|i: int| 0 <= i < rest.len() implies rest[i] < 32776 by {
            assert(rest[i] == operands[i + 1]);
        }
        lemma_push_each(next, rest);
        assert(next.stack + resolved_values(next.registers, rest) =~= state.stack
            + resolved_values(state.registers, operands));
    }
}

/// Popping as many values as lie on top of `base` delivers them last one
/// first and leaves `base` as the stack.
pub proof fn lemma_pop_each(state: MachineState, dest: u16, base: Seq<u16>, values: Seq<u16>)
    requires
        state.registers.len() == 8,
        destination_spec(dest) is Ok,
        state.stack == base + values,
    ensures
        pop_each(state, dest, values.len()).1 == values.reverse(),
        pop_each(state, dest, values.len()).0.stack == base,
        pop_each(state, dest, values.len()).0.registers.len() == 8,
    decreases values.len(),
{
    if values.len() == 0 {
        assert(base + values =~= base);
        assert(values.reverse() =~= Seq::<u16>::empty());
    } else {
        let register = dest as int % 32768;
        let next = MachineState {
            registers: state.registers.update(register, values.last()),
            stack: state.stack.drop_last(),
            pc: state.pc + 2,
            ..state
        };
        assert(state.stack.last() == values.last());
        assert(state.execute(Instruction::Pop { dest }) == Ok::<(MachineState, Action), ErrorKind>(
            (next, Action::Continue),
        ));
        assert(next.stack =~= base + values.drop_last());
        lemma_pop_each(next, dest, base, values.drop_last());
        assert(seq![values.last()] + values.drop_last().reverse() =~= values.reverse());
    }
}

/// The stack is last in, first out: after a `PUSH` of each of a sequence of
/// operands and as many executions of `POP`, the destination register has
/// received the pushed values in reverse order, and the stack is what it was
/// before the first `PUSH`.
pub proof fn lemma_push_pop_round_trip(state: MachineState, operands: Seq<u16>, dest: u16)
    requires
        state.registers.len() == 8,
        destination_spec(dest) is Ok,
        forall|i: int| 0 <= i < operands.len() ==> operands[i] < 32776,
    ensures
        push_each(state, operands).stack == state.stack + resolved_values(
            state.registers,
            operands,
        ),
        pop_each(push_each(state, operands), dest, operands.len()).1 == resolved_values(
            state.registers,
            operands,
        ).reverse(),
        pop_each(push_each(state, operands), dest, operands.len()).0.stack == state.stack,
{
    lemma_push_each(state, operands);
    lemma_pop_each(
        push_each(state, operands),
        dest,
        state.stack,
        resolved_values(state.registers, operands),
    );
}

/// `CALL` and `RET` match: a `CALL` jumps to its target and leaves the
/// address of the instruction after it on the stack, and a `RET` executed
/// later in any state whose stack is the one that the `CALL` left (so after
/// any number of calls that have returned since) resumes at that address,
/// with the stack as it was before the `CALL`.
///
/// The return address must fit in a word, which it does wherever the `CALL`
/// lies below address 65534.
pub proof fn lemma_call_then_ret(state: MachineState, a: u16, later: MachineState)
    requires
        0 <= state.pc,
        state.pc + 2 <= 0xFFFF,
        state.execute(Instruction::Call { a }) matches Ok((called, _)) && later.stack
            == called.stack,
    ensures
        state.execute(Instruction::Call { a }) matches Ok((called, action)) && action
            == Action::Continue && state.resolve(a) == Ok::<u16, ErrorKind>(called.pc as u16)
            && called.stack == state.stack.push(return_word(state.pc + 2)),
        later.execute(Instruction::Ret) matches Ok((back, action)) && action == Action::Continue
            && back.pc == state.pc + 2 && back.stack == state.stack,
{
    let called = state.execute(Instruction::Call { a })->Ok_0.0;
    assert(called.stack.drop_last() =~= state.stack);
}

/// `RET` on an empty stack halts the machine without a fault and changes
/// nothing else.
pub proof fn lemma_ret_on_empty_stack_halts(state: MachineState)
    requires
        state.stack.len() == 0,
    ensures
        state.execute(Instruction::Ret) == Ok::<(MachineState, Action), ErrorKind>(
            (state.halted(), Action::Stop),
        ),
{
}

/// Whether an instruction can set the program counter to a computed target
/// or stop the machine.
pub open spec fn transfers_control(instruction: Instruction) -> bool {
    match instruction {
        Instruction::Halt
        | Instruction::Jmp { .. }
        | Instruction::Jnz { .. }
        | Instruction::Jz { .. }
        | Instruction::Call { .. }
        | Instruction::Ret => true,
        _ => false,
    }
}

/// Every instruction that executes without transferring control moves the
/// program counter on by one word for the opcode and one for each operand.
/// An `IN` that waits for input has not executed and moves nothing.
pub proof fn lemma_pc_advances(state: MachineState, instruction: Instruction)
    requires
        !transfers_control(instruction),
    ensures
        state.execute(instruction) matches Ok((next, action)) ==> (if action
            == Action::NeedInput {
            next == state
        } else {
            next.pc == state.pc + 1 + instruction.arity_spec()
        }),
{
}

/// A conditional jump that is not taken moves on like any other instruction.
pub proof fn lemma_untaken_jump_advances(state: MachineState, cond: u16, a: u16)
    requires
        state.resolve(cond) is Ok,
        state.resolve(a) is Ok,
    ensures
        state.resolve(cond) == Ok::<u16, ErrorKind>(0) ==> state.execute(
            Instruction::Jnz { cond, a },
        ) == Ok::<(MachineState, Action), ErrorKind>((state.moved(3), Action::Continue)),
        state.resolve(cond) != Ok::<u16, ErrorKind>(0) ==> state.execute(
            Instruction::Jz { cond, a },
        ) == Ok::<(MachineState, Action), ErrorKind>((state.moved(3), Action::Continue)),
{
}

/// An instruction that executes leaves the status alone or halts the
/// machine: no fault hides in a state that an instruction hands on.
pub proof fn lemma_execute_keeps_status(state: MachineState, instruction: Instruction)
    ensures
        state.execute(instruction) matches Ok((next, action)) ==> next.status == state.status
            || next.status == Status::Halted,
{
    match instruction {
        Instruction::Halt => {},
        Instruction::Assign { dest, a } => {},
        Instruction::Push { a } => {},
        Instruction::Pop { dest } => {},
        Instruction::Eq { dest, a, b } => {},
        Instruction::Gt { dest, a, b } => {},
        Instruction::Jmp { a } => {},
        Instruction::Jnz { cond, a } => {},
        Instruction::Jz { cond, a } => {},
        Instruction::Add { dest, a, b } => {},
        Instruction::Mul { dest, a, b } => {},
        Instruction::Mod { dest, a, b } => {},
        Instruction::And { dest, a, b } => {},
        Instruction::Or { dest, a, b } => {},
        Instruction::Not { dest, a } => {},
        Instruction::Rmem { dest, a } => {},
        Instruction::Wmem { a, b } => {},
        Instruction::Call { a } => {},
        Instruction::Ret => {},
        Instruction::Out { a } => {},
        Instruction::In { dest } => {},
        Instruction::Noop => {},
    }
}

/// An instruction that executes keeps the register file at its eight
/// registers and program memory at its size.
pub proof fn lemma_execute_keeps_shape(state: MachineState, instruction: Instruction)
    requires
        state.registers.len() == 8,
    ensures
        state.execute(instruction) matches Ok((next, action)) ==> next.registers.len() == 8
            && next.memory.len() == state.memory.len(),
{
    match instruction {
        Instruction::Halt => {},
        Instruction::Assign { dest, a } => {},
        Instruction::Push { a } => {},
        Instruction::Pop { dest } => {},
        Instruction::Eq { dest, a, b } => {},
        Instruction::Gt { dest, a, b } => {},
        Instruction::Jmp { a } => {},
        Instruction::Jnz { cond, a } => {},
        Instruction::Jz { cond, a } => {},
        Instruction::Add { dest, a, b } => {},
        Instruction::Mul { dest, a, b } => {},
        Instruction::Mod { dest, a, b } => {},
        Instruction::And { dest, a, b } => {},
        Instruction::Or { dest, a, b } => {},
        Instruction::Not { dest, a } => {},
        Instruction::Rmem { dest, a } => {},
        Instruction::Wmem { a, b } => {},
        Instruction::Call { a } => {},
        Instruction::Ret => {},
        Instruction::Out { a } => {},
        Instruction::In { dest } => {},
        Instruction::Noop => {},
    }
}

/// An instruction that faults changes nothing but the status: the step
/// leaves memory, registers, stack, input and program counter as they were.
pub proof fn lemma_fault_changes_only_status(state: MachineState)
    ensures
        step_spec(state).0.status matches Status::Faulted(kind) ==> step_spec(state).0
            == state.faulted(kind),
        step_spec(state).0.status is Faulted ==> step_spec(state).1 == Action::Stop,
{
    if state.status == Status::Running {
        match decode_spec(state.memory, state.pc) {
            Ok(instruction) => {
                lemma_execute_keeps_status(state, instruction);
            },
            Err(_) => {},
        }
    } else {
        assert(step_spec(state).0 == state);
        if let Status::Faulted(kind) = state.status {
            assert(state.faulted(kind) =~= state);
        }
    }
}

/// Halted and faulted are final: a machine that is not running stays exactly
/// as it is, for one step and for any run.
pub proof fn lemma_stopped_is_final(state: MachineState, budget: nat)
    requires
        state.status != Status::Running,
    ensures
        step_spec(state) == (state, Action::Stop),
        budget > 0 ==> run_spec(state, budget) == (state, Seq::<u8>::empty(), Action::Stop),
{
}

/// A step keeps the register file at its eight registers and program memory
/// at its size: memory never grows or shrinks.
pub proof fn lemma_step_keeps_shape(state: MachineState)
    requires
        state.registers.len() == 8,
    ensures
        step_spec(state).0.registers.len() == 8,
        step_spec(state).0.memory.len() == state.memory.len(),
{
    if state.status == Status::Running {
        match decode_spec(state.memory, state.pc) {
            Ok(instruction) => {
                lemma_execute_keeps_shape(state, instruction);
            },
            Err(_) => {},
        }
    }
}

} // verus!
