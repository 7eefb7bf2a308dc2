//! Laws about several steps in a row: what a machine does over a stretch of
//! its program, and how runs fit together.

use vstd::prelude::*;
use crate::error::ErrorKind;
use crate::instruction::{decode_spec, Instruction};
use crate::laws::{
    lemma_call_then_ret, lemma_pop_each, lemma_push_each, pop_each, push_each, resolved_values,
};
use crate::state::{return_word, run_spec, step_spec, Action, MachineState, Status};
use crate::word::destination_spec;

verus! {

/// The state of a machine `count` steps after `state`.
pub open spec fn after_steps(state: MachineState, count: nat) -> MachineState
    decreases count,
{
    if count == 0 {
        state
    } else {
        after_steps(step_spec(state).0, (count - 1) as nat)
    }
}

/// Whether memory holds, from address `start` on, one `PUSH` for each of
/// `operands`, in order.
pub open spec fn holds_pushes(memory: Seq<u16>, start: int, operands: Seq<u16>) -> bool {
    &&& 0 <= start
    &&& start + 2 * operands.len() <= memory.len()
    &&& forall|i: int|
        0 <= i < operands.len() ==> #[trigger] memory[start + 2 * i] == 2 && memory[start + 2 * i
            + 1] == operands[i]
}

/// Whether memory holds, from address `start` on, `count` times `POP dest`.
pub open spec fn holds_pops(memory: Seq<u16>, start: int, dest: u16, count: nat) -> bool {
    &&& 0 <= start
    &&& start + 2 * count <= memory.len()
    &&& forall|j: int|
        0 <= j < count ==> #[trigger] memory[start + 2 * j] == 3 && memory[start + 2 * j + 1]
            == dest
}

/// A running machine whose program counter stands on a decodable
/// instruction steps as `execute` says of that instruction.
pub proof fn lemma_step_executes(state: MachineState, instruction: Instruction)
    requires
        state.status == Status::Running,
        decode_spec(state.memory, state.pc) == Ok::<Instruction, ErrorKind>(instruction),
    ensures
        step_spec(state) == state.perform(instruction),
        step_spec(state) == (match state.execute(instruction) {
            Ok(next) => next,
            Err(kind) => (state.faulted(kind), Action::Stop),
        }),
{
}

/// Steps add up: `a + b` steps are `a` steps followed by `b` steps.
pub proof fn lemma_steps_add(state: MachineState, a: nat, b: nat)
    ensures
        after_steps(state, a + b) == after_steps(after_steps(state, a), b),
    decreases a,
{
    if a > 0 {
        lemma_steps_add(step_spec(state).0, (a - 1) as nat, b);
    }
}

/// A machine that stands before a row of `PUSH` instructions is, after as
/// many steps, where executing them one by one leaves it.
pub proof fn lemma_steps_through_pushes(state: MachineState, operands: Seq<u16>)
    requires
        state.status == Status::Running,
        holds_pushes(state.memory, state.pc, operands),
        forall|i: int| 0 <= i < operands.len() ==> operands[i] < 32776,
    ensures
        after_steps(state, operands.len()) == push_each(state, operands),
    decreases operands.len(),
{
    if operands.len() > 0 {
        let rest = operands.drop_first();
        assert(state.memory[state.pc + 2 * 0] == 2);
        assert(state.memory[state.pc + 1] == operands[0]);
        lemma_step_executes(state, Instruction::Push { a: operands[0] });
        let next = step_spec(state).0;
        assert forall|i: int| 0 <= i < rest.len() implies #[trigger] next.memory[next.pc + 2 * i]
            == 2 && next.memory[next.pc + 2 * i + 1] == rest[i] by {
            assert(state.memory[state.pc + 2 * (i + 1)] == 2);
            assert(rest[i] == operands[i + 1]);
        }
        assert forall|i: int| 0 <= i < rest.len() implies rest[i] < 32776 by {
            assert(rest[i] == operands[i + 1]);
        }
        lemma_steps_through_pushes(next, rest);
    }
}

/// A machine that stands before a row of `POP dest` instructions, with at
/// least as many words on its stack, is after as many steps where executing
/// them one by one leaves it, and step `j + 1` puts in the destination
/// register the value that the `POP` number `j` delivers.
pub proof fn lemma_steps_through_pops(state: MachineState, dest: u16, count: nat)
    requires
        state.status == Status::Running,
        state.registers.len() == 8,
        destination_spec(dest) is Ok,
        holds_pops(state.memory, state.pc, dest, count),
        state.stack.len() >= count,
    ensures
        after_steps(state, count) == pop_each(state, dest, count).0,
        pop_each(state, dest, count).1.len() == count,
        forall|j: int|
            0 <= j < count ==> (#[trigger] after_steps(state, (j + 1) as nat)).registers[dest as int
                % 32768] == pop_each(state, dest, count).1[j],
    decreases count,
{
    if count > 0 {
        assert(state.memory[state.pc + 2 * 0] == 3);
        assert(state.memory[state.pc + 1] == dest);
        lemma_step_executes(state, Instruction::Pop { dest });
        let next = step_spec(state).0;
        let fewer = (count - 1) as nat;
        assert forall|j: int| 0 <= j < fewer implies #[trigger] next.memory[next.pc + 2 * j] == 3
            && next.memory[next.pc + 2 * j + 1] == dest by {
            assert(state.memory[state.pc + 2 * (j + 1)] == 3);
        }
        lemma_steps_through_pops(next, dest, fewer);
        let all = pop_each(state, dest, count).1;
        let tail = pop_each(next, dest, fewer).1;
        assert(all == seq![next.registers[dest as int % 32768]] + tail);
        assert forall|j: int| 0 <= j < count implies (#[trigger] after_steps(
            state,
            (j + 1) as nat,
        )).registers[dest as int % 32768] == all[j] by {
            if j == 0 {
                assert(after_steps(state, 1) == after_steps(next, 0));
            } else {
                assert(after_steps(state, (j + 1) as nat) == after_steps(next, j as nat));
                assert(after_steps(next, ((j - 1) + 1) as nat).registers[dest as int % 32768]
                    == tail[j - 1]);
                assert(all[j] == tail[j - 1]);
            }
        }
    }
}

/// The stack is last in, first out, for every program: a machine that runs
/// through `n` `PUSH` instructions followed by `n` `POP` instructions has the
/// pushed values on its stack after the first `n` steps, receives them in its
/// destination register in reverse order over the next `n` steps, and then
/// has the stack that it started with.
pub proof fn lemma_pushes_then_pops(state: MachineState, operands: Seq<u16>, dest: u16)
    requires
        state.status == Status::Running,
        state.registers.len() == 8,
        destination_spec(dest) is Ok,
        forall|i: int| 0 <= i < operands.len() ==> operands[i] < 32776,
        holds_pushes(state.memory, state.pc, operands),
        holds_pops(state.memory, state.pc + 2 * operands.len(), dest, operands.len()),
    ensures
        after_steps(state, operands.len()).stack == state.stack + resolved_values(
            state.registers,
            operands,
        ),
        forall|j: int|
            0 <= j < operands.len() ==> (#[trigger] after_steps(
                state,
                (operands.len() + j + 1) as nat,
            )).registers[dest as int % 32768] == resolved_values(
                state.registers,
                operands,
            )[operands.len() - 1 - j],
        after_steps(state, 2 * operands.len()).stack == state.stack,
{
    let n = operands.len();
    let values = resolved_values(state.registers, operands);
    lemma_steps_through_pushes(state, operands);
    lemma_push_each(state, operands);
    let pushed = after_steps(state, n);
    lemma_steps_through_pops(pushed, dest, n);
    lemma_pop_each(pushed, dest, state.stack, values);
    lemma_steps_add(state, n, n);
    assert forall|j: int| 0 <= j < n implies (#[trigger] after_steps(
        state,
        (n + j + 1) as nat,
    )).registers[dest as int % 32768] == values[n - 1 - j] by {
        lemma_steps_add(state, n, (j + 1) as nat);
        assert(after_steps(pushed, (j + 1) as nat).registers[dest as int % 32768] == pop_each(
            pushed,
            dest,
            n,
        ).1[j]);
        assert(values.reverse()[j] == values[n - 1 - j]);
    }
}

/// `CALL` and `RET` match, step by step: when a machine steps through a
/// `CALL`, and later, in any state with the stack that the `CALL` left,
/// steps through a `RET`, it resumes at the instruction after the operand of
/// the `CALL`, with the stack as it was before the `CALL`. What lies between
/// the two steps is free, calls that have returned included.
///
/// The return address must fit in a word, which it does wherever the `CALL`
/// lies below address 65534.
pub proof fn lemma_call_returns(state: MachineState, a: u16, later: MachineState)
    requires
        state.status == Status::Running,
        later.status == Status::Running,
        state.pc + 2 <= 0xFFFF,
        decode_spec(state.memory, state.pc) == Ok::<Instruction, ErrorKind>(
            Instruction::Call { a },
        ),
        state.resolve(a) is Ok,
        decode_spec(later.memory, later.pc) == Ok::<Instruction, ErrorKind>(Instruction::Ret),
        later.stack == step_spec(state).0.stack,
    ensures
        step_spec(state).0.pc == state.resolve(a)->Ok_0,
        step_spec(state).0.stack == state.stack.push(return_word(state.pc + 2)),
        step_spec(later).1 == Action::Continue,
        step_spec(later).0.pc == state.pc + 2,
        step_spec(later).0.stack == state.stack,
{
    lemma_step_executes(state, Instruction::Call { a });
    lemma_step_executes(later, Instruction::Ret);
    lemma_call_then_ret(state, a, later);
}

/// A step through `RET` with an empty stack halts the machine without a
/// fault and leaves everything else as it was.
pub proof fn lemma_ret_halts(state: MachineState)
    requires
        state.status == Status::Running,
        decode_spec(state.memory, state.pc) == Ok::<Instruction, ErrorKind>(Instruction::Ret),
        state.stack.len() == 0,
    ensures
        step_spec(state) == (state.halted(), Action::Stop),
{
    lemma_step_executes(state, Instruction::Ret);
}

/// Runs fit together: a run of `a + b` steps is a run of `a` steps, followed,
/// if that one ended because its budget was spent, by a run of `b` steps from
/// where it stopped. The output of the whole is the output of the first
/// followed by that of the second.
pub proof fn lemma_runs_add(state: MachineState, a: nat, b: nat)
    ensures
        run_spec(state, a + b) == (if run_spec(state, a).2 == Action::Continue {
            let first = run_spec(state, a);
            let second = run_spec(first.0, b);
            (second.0, first.1 + second.1, second.2)
        } else {
            run_spec(state, a)
        }),
    decreases a,
{
    if a == 0 {
        assert(Seq::<u8>::empty() + run_spec(state, b).1 =~= run_spec(state, b).1);
    } else {
        let (next, action) = step_spec(state);
        let fewer = (a - 1) as nat;
        assert((a + b - 1) as nat == fewer + b);
        match action {
            Action::Continue => {
                lemma_runs_add(next, fewer, b);
            },
            Action::Output(byte) => {
                lemma_runs_add(next, fewer, b);
                let first = run_spec(next, fewer);
                if first.2 == Action::Continue {
                    let second = run_spec(first.0, b);
                    assert(seq![byte] + (first.1 + second.1) =~= (seq![byte] + first.1)
                        + second.1);
                }
            },
            Action::NeedInput | Action::Stop => {},
        }
    }
}

/// A run is a row of steps: it ends in the state that the machine reaches
/// after some number of steps within the budget, which is the whole budget
/// when the run ends because the budget is spent.
pub proof fn lemma_run_is_steps(state: MachineState, budget: nat) -> (count: nat)
    ensures
        count <= budget,
        run_spec(state, budget).0 == after_steps(state, count),
        run_spec(state, budget).2 == Action::Continue ==> count == budget,
    decreases budget,
{
    if budget == 0 {
        0
    } else {
        let (next, action) = step_spec(state);
        match action {
            Action::Continue | Action::Output(_) => {
                let rest = lemma_run_is_steps(next, (budget - 1) as nat);
                rest + 1
            },
            Action::NeedInput | Action::Stop => {
                assert(after_steps(state, 1) == after_steps(next, 0));
                1
            },
        }
    }
}

/// A run never ends on an output: it ends when its budget is spent, when the
/// machine waits for input, or when the machine has stopped.
pub proof fn lemma_run_ends(state: MachineState, budget: nat)
    ensures
        !(run_spec(state, budget).2 is Output),
        run_spec(state, budget).2 == Action::NeedInput ==> run_spec(state, budget).0.status
            == Status::Running && run_spec(state, budget).0.input.len() == 0,
    decreases budget,
{
    if budget > 0 {
        let (next, action) = step_spec(state);
        match action {
            Action::Continue | Action::Output(_) => {
                lemma_run_ends(next, (budget - 1) as nat);
            },
            Action::NeedInput => {
                lemma_need_input(state);
            },
            Action::Stop => {},
        }
    }
}

/// A step asks for input only of a running machine with an empty input
/// queue, and leaves that machine as it is.
pub proof fn lemma_need_input(state: MachineState)
    requires
        step_spec(state).1 == Action::NeedInput,
    ensures
        step_spec(state).0 == state,
        state.status == Status::Running,
        state.input.len() == 0,
        decode_spec(state.memory, state.pc) matches Ok(Instruction::In { .. }),
{
    match decode_spec(state.memory, state.pc) {
        Ok(instruction) => {
            match instruction {
                Instruction::Halt => {},
                Instruction::Assign { dest, a } => {},
                Instruction::Push { a } => {},
                Instruction::Pop { dest } => {},
                Instruction::Eq { dest, a, b } => {},
                Instruction::Gt { dest, a, b } => {},
                Instruction::Jmp { a } => {},
                Instruction::Jnz { cond, a } => {},
                Instruction::Jz { cond, a } => {},
                Instruction::Add { dest, a, b } => {},
                Instruction::Mul { dest, a, b } => {},
                Instruction::Mod { dest, a, b } => {},
                Instruction::And { dest, a, b } => {},
                Instruction::Or { dest, a, b } => {},
                Instruction::Not { dest, a } => {},
                Instruction::Rmem { dest, a } => {},
                Instruction::Wmem { a, b } => {},
                Instruction::Call { a } => {},
                Instruction::Ret => {},
                Instruction::Out { a } => {},
                Instruction::In { dest } => {},
                Instruction::Noop => {},
            }
        },
        Err(_) => {},
    }
}

} // verus!
