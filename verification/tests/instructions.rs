use wordvm::error::ErrorKind;
use wordvm::instruction::Instruction;
use wordvm::machine::Machine;
use wordvm::state::{Action, Status};

fn machine_with(words: &[u16], registers: [u16; 8]) -> Machine {
    let mut machine = Machine::new(words.to_vec());
    machine.registers = registers;
    machine
}

fn fault_of(words: &[u16]) -> ErrorKind {
    let mut machine = Machine::new(words.to_vec());
    let before_registers = machine.registers;
    let action = machine.step();
    assert_eq!(action, Action::Stop);
    assert_eq!(machine.pc, 0);
    assert_eq!(machine.registers, before_registers);
    assert_eq!(machine.memory, words.to_vec());
    assert!(machine.stack.is_empty());
    match machine.status {
        Status::Faulted(kind) => kind,
        _ => panic!("the machine did not fault"),
    }
}

#[test]
fn halt_stops_where_it_stands() {
    let mut machine = Machine::new(vec![21, 0, 21]);
    assert_eq!(machine.step(), Action::Continue);
    assert_eq!(machine.step(), Action::Stop);
    assert_eq!(machine.status, Status::Halted);
    assert_eq!(machine.pc, 1);
}

#[test]
fn set_stores_a_literal_and_a_register() {
    let mut machine = machine_with(&[1, 32769, 500, 1, 32770, 32769], [0; 8]);
    assert_eq!(machine.step(), Action::Continue);
    assert_eq!(machine.registers[1], 500);
    assert_eq!(machine.pc, 3);
    assert_eq!(machine.step(), Action::Continue);
    assert_eq!(machine.registers[2], 500);
    assert_eq!(machine.pc, 6);
}

#[test]
fn set_then_alias_reads_the_value_back() {
    for r in 0..8u16 {
        for &x in [0u16, 1, 76, 32767].iter() {
            let mut machine = Machine::new(vec![1, 32768 + r, x]);
            assert_eq!(machine.step(), Action::Continue);
            assert_eq!(machine.resolve(32768 + r), Ok(x % 32768));
            assert_eq!(machine.resolve(32768 + r), Ok(x));
        }
    }
}

#[test]
fn destination_below_32768_names_the_register_of_that_index() {
    let mut machine = Machine::new(vec![1, 5, 77]);
    assert_eq!(machine.step(), Action::Continue);
    assert_eq!(machine.registers[5], 77);
}

#[test]
fn push_and_pop_move_one_word() {
    let mut machine = machine_with(&[2, 32768, 3, 32771], [9, 0, 0, 0, 0, 0, 0, 0]);
    assert_eq!(machine.step(), Action::Continue);
    assert_eq!(machine.stack, vec![9u16]);
    assert_eq!(machine.pc, 2);
    assert_eq!(machine.step(), Action::Continue);
    assert!(machine.stack.is_empty());
    assert_eq!(machine.registers[3], 9);
    assert_eq!(machine.pc, 4);
}

#[test]
fn pop_on_an_empty_stack_is_a_stack_underflow() {
    assert_eq!(fault_of(&[3, 32768]), ErrorKind::StackUnderflow);
}

#[test]
fn eq_and_gt_store_flags() {
    let mut machine = Machine::new(vec![
        4, 32768, 7, 7, 4, 32769, 7, 8, 5, 32770, 8, 7, 5, 32771, 7, 7,
    ]);
    for _ in 0..4 {
        assert_eq!(machine.step(), Action::Continue);
    }
    assert_eq!(machine.registers[0], 1);
    assert_eq!(machine.registers[1], 0);
    assert_eq!(machine.registers[2], 1);
    assert_eq!(machine.registers[3], 0);
    assert_eq!(machine.pc, 16);
}

#[test]
fn jmp_sets_the_program_counter() {
    let mut machine = machine_with(&[6, 32768], [1234, 0, 0, 0, 0, 0, 0, 0]);
    assert_eq!(machine.step(), Action::Continue);
    assert_eq!(machine.pc, 1234);
    assert_eq!(machine.step(), Action::Stop);
    assert_eq!(machine.status, Status::Faulted(ErrorKind::AddressError));
    assert_eq!(machine.pc, 1234);
}

#[test]
fn jnz_jumps_on_non_zero() {
    let mut taken = Machine::new(vec![7, 1, 9]);
    assert_eq!(taken.step(), Action::Continue);
    assert_eq!(taken.pc, 9);
    let mut passed = Machine::new(vec![7, 0, 9]);
    assert_eq!(passed.step(), Action::Continue);
    assert_eq!(passed.pc, 3);
}

#[test]
fn jz_jumps_on_zero() {
    let mut taken = Machine::new(vec![8, 0, 9]);
    assert_eq!(taken.step(), Action::Continue);
    assert_eq!(taken.pc, 9);
    let mut passed = Machine::new(vec![8, 5, 9]);
    assert_eq!(passed.step(), Action::Continue);
    assert_eq!(passed.pc, 3);
}

#[test]
fn untaken_jump_still_checks_its_target() {
    assert_eq!(fault_of(&[7, 0, 40000]), ErrorKind::InvalidOperand);
    assert_eq!(fault_of(&[8, 1, 40000]), ErrorKind::InvalidOperand);
}

#[test]
fn add_mul_mod_store_their_results() {
    let mut machine = Machine::new(vec![
        9, 32768, 32758, 15, 10, 32769, 1000, 1000, 11, 32770, 17, 5,
    ]);
    for _ in 0..3 {
        assert_eq!(machine.step(), Action::Continue);
    }
    assert_eq!(machine.registers[0], 5);
    assert_eq!(machine.registers[1], 16960);
    assert_eq!(machine.registers[2], 2);
    assert_eq!(machine.pc, 12);
}

#[test]
fn and_or_not_work_bit_by_bit() {
    let mut machine = Machine::new(vec![
        12, 32768, 0x7F0F, 0x0FF0, 13, 32769, 0x7F0F, 0x0FF0, 14, 32770, 0x7F0F,
    ]);
    for _ in 0..3 {
        assert_eq!(machine.step(), Action::Continue);
    }
    assert_eq!(machine.registers[0], 0x0F00);
    assert_eq!(machine.registers[1], 0x7FFF);
    assert_eq!(machine.registers[2], 0x00F0);
    assert_eq!(machine.pc, 11);
}

#[test]
fn rmem_reads_and_wmem_writes_memory() {
    let mut machine = Machine::new(vec![15, 32768, 6, 16, 7, 32768, 4242, 0]);
    assert_eq!(machine.step(), Action::Continue);
    assert_eq!(machine.registers[0], 4242);
    assert_eq!(machine.step(), Action::Continue);
    assert_eq!(machine.memory[7], 4242);
    assert_eq!(machine.memory.len(), 8);
    assert_eq!(machine.pc, 6);
}

#[test]
fn rmem_may_load_a_word_above_the_literals() {
    let mut machine = Machine::new(vec![15, 32768, 1, 2, 32768]);
    assert_eq!(machine.step(), Action::Continue);
    assert_eq!(machine.registers[0], 32768);
    assert_eq!(machine.step(), Action::Continue);
    assert_eq!(machine.stack, vec![32768u16]);
}

#[test]
fn wmem_can_rewrite_the_program() {
    // 0: WMEM 3, 0 turns the NOOP at 3 into HALT
    let mut machine = Machine::new(vec![16, 3, 0, 21, 19, 65]);
    let mut output: Vec<u8> = Vec::new();
    assert_eq!(machine.run(&mut output, 10), Action::Stop);
    assert_eq!(machine.status, Status::Halted);
    assert_eq!(machine.pc, 3);
    assert!(output.is_empty());
}

#[test]
fn memory_access_outside_memory_is_an_address_error() {
    assert_eq!(fault_of(&[15, 32768, 3]), ErrorKind::AddressError);
    assert_eq!(fault_of(&[16, 3, 1]), ErrorKind::AddressError);
    assert_eq!(fault_of(&[16, 32767, 1]), ErrorKind::AddressError);
}

#[test]
fn fetch_outside_memory_faults_the_machine() {
    assert_eq!(fault_of(&[]), ErrorKind::AddressError);
    assert_eq!(fault_of(&[1, 32768]), ErrorKind::AddressError);
    let mut machine = Machine::new(vec![21]);
    assert_eq!(machine.step(), Action::Continue);
    assert_eq!(machine.step(), Action::Stop);
    assert_eq!(machine.status, Status::Faulted(ErrorKind::AddressError));
    assert_eq!(machine.pc, 1);
}

#[test]
fn operand_outside_the_encoding_is_an_invalid_operand() {
    assert_eq!(fault_of(&[1, 32768, 32776]), ErrorKind::InvalidOperand);
    assert_eq!(fault_of(&[2, 65535]), ErrorKind::InvalidOperand);
    assert_eq!(fault_of(&[9, 32768, 1, 32776]), ErrorKind::InvalidOperand);
    assert_eq!(fault_of(&[6, 32776]), ErrorKind::InvalidOperand);
    assert_eq!(fault_of(&[19, 40000]), ErrorKind::InvalidOperand);
    assert_eq!(fault_of(&[17, 40000]), ErrorKind::InvalidOperand);
}

#[test]
fn destination_outside_the_registers_is_an_invalid_operand() {
    assert_eq!(fault_of(&[1, 8, 1]), ErrorKind::InvalidOperand);
    assert_eq!(fault_of(&[1, 32776, 1]), ErrorKind::InvalidOperand);
    assert_eq!(fault_of(&[20, 32776]), ErrorKind::InvalidOperand);
    assert_eq!(fault_of(&[11, 32776, 4, 0]), ErrorKind::InvalidOperand);
    assert_eq!(fault_of(&[3, 32776]), ErrorKind::InvalidOperand);
}

#[test]
fn unknown_opcode_faults_the_machine() {
    assert_eq!(fault_of(&[22]), ErrorKind::UnknownOpcode);
    assert_eq!(fault_of(&[32768, 0, 0, 0]), ErrorKind::UnknownOpcode);
}

#[test]
fn divide_by_zero_faults_the_machine() {
    assert_eq!(fault_of(&[11, 32768, 4, 0]), ErrorKind::DivideByZero);
    assert_eq!(fault_of(&[11, 32768, 4, 32769]), ErrorKind::DivideByZero);
}

#[test]
fn a_failed_push_leaves_the_stack_alone() {
    let mut machine = Machine::new(vec![2, 5, 2, 32776]);
    assert_eq!(machine.step(), Action::Continue);
    assert_eq!(machine.step(), Action::Stop);
    assert_eq!(machine.status, Status::Faulted(ErrorKind::InvalidOperand));
    assert_eq!(machine.stack, vec![5u16]);
    assert_eq!(machine.pc, 2);
}

#[test]
fn call_pushes_the_address_after_its_operand() {
    let mut machine = Machine::new(vec![21, 17, 100]);
    assert_eq!(machine.step(), Action::Continue);
    assert_eq!(machine.step(), Action::Continue);
    assert_eq!(machine.stack, vec![3u16]);
    assert_eq!(machine.pc, 100);
}

#[test]
fn ret_jumps_to_the_popped_address() {
    let mut machine = Machine::new(vec![18, 0, 0]);
    machine.stack = vec![7, 2];
    assert_eq!(machine.step(), Action::Continue);
    assert_eq!(machine.pc, 2);
    assert_eq!(machine.stack, vec![7u16]);
}

#[test]
fn out_writes_the_low_byte() {
    let mut machine = machine_with(&[19, 0x141, 19, 32768], [0x2A42, 0, 0, 0, 0, 0, 0, 0]);
    assert_eq!(machine.step(), Action::Output(0x41));
    assert_eq!(machine.pc, 2);
    assert_eq!(machine.step(), Action::Output(0x42));
    assert_eq!(machine.pc, 4);
}

#[test]
fn noop_only_moves_on() {
    let mut machine = Machine::new(vec![21, 21]);
    assert_eq!(machine.step(), Action::Continue);
    assert_eq!(machine.pc, 1);
    assert_eq!(machine.registers, [0u16; 8]);
    assert!(machine.stack.is_empty());
    assert_eq!(machine.memory, vec![21u16, 21]);
    assert_eq!(machine.status, Status::Running);
}

#[test]
fn in_waits_while_the_queue_is_empty() {
    let mut machine = Machine::new(vec![20, 32768]);
    assert_eq!(machine.step(), Action::NeedInput);
    assert_eq!(machine.step(), Action::NeedInput);
    assert_eq!(machine.pc, 0);
    assert_eq!(machine.registers, [0u16; 8]);
    assert_eq!(machine.status, Status::Running);
}

#[test]
fn in_takes_one_character_at_a_time() {
    let mut machine = Machine::new(vec![20, 32768, 20, 32769, 20, 32770, 20, 32771]);
    assert!(machine.feed_line("ab\n"));
    assert_eq!(machine.input.len(), 3);
    assert_eq!(machine.step(), Action::Continue);
    assert_eq!(machine.registers[0], 97);
    assert_eq!(machine.input.len(), 2);
    assert_eq!(machine.step(), Action::Continue);
    assert_eq!(machine.registers[1], 98);
    assert_eq!(machine.step(), Action::Continue);
    assert_eq!(machine.registers[2], 10);
    assert!(machine.input.is_empty());
    assert_eq!(machine.pc, 6);
    assert_eq!(machine.step(), Action::NeedInput);
    assert_eq!(machine.pc, 6);
}

#[test]
fn newline_empties_the_queue() {
    let mut machine = Machine::new(vec![20, 32768, 20, 32769, 20, 32770]);
    assert!(machine.feed_line("a\nrest"));
    assert_eq!(machine.step(), Action::Continue);
    assert_eq!(machine.step(), Action::Continue);
    assert_eq!(machine.registers[1], 10);
    assert!(machine.input.is_empty());
    assert_eq!(machine.step(), Action::NeedInput);
}

#[test]
fn a_line_without_newline_is_used_up() {
    let mut machine = Machine::new(vec![20, 32768, 20, 32769]);
    assert!(machine.feed_line("z"));
    assert_eq!(machine.step(), Action::Continue);
    assert_eq!(machine.registers[0], 122);
    assert_eq!(machine.step(), Action::NeedInput);
}

#[test]
fn a_line_is_refused_while_input_is_pending() {
    let mut machine = Machine::new(vec![20, 32768]);
    assert!(machine.feed_line("one\n"));
    assert!(!machine.feed_line("two\n"));
    let pending: Vec<u16> = machine.input.iter().copied().collect();
    assert_eq!(pending, vec![111u16, 110, 101, 10]);
}

#[test]
fn an_empty_line_leaves_the_machine_waiting() {
    let mut machine = Machine::new(vec![20, 32768]);
    assert!(machine.feed_line(""));
    assert!(machine.input.is_empty());
    assert_eq!(machine.step(), Action::NeedInput);
}

#[test]
fn feed_line_changes_only_the_queue() {
    let mut machine = machine_with(&[20, 32768, 0], [1, 2, 3, 4, 5, 6, 7, 8]);
    machine.stack = vec![9];
    machine.pc = 2;
    assert!(machine.feed_line("x\n"));
    assert_eq!(machine.memory, vec![20u16, 32768, 0]);
    assert_eq!(machine.registers, [1u16, 2, 3, 4, 5, 6, 7, 8]);
    assert_eq!(machine.stack, vec![9u16]);
    assert_eq!(machine.pc, 2);
    assert_eq!(machine.status, Status::Running);
}

#[test]
fn wide_characters_keep_their_low_sixteen_bits() {
    let mut machine = Machine::new(vec![20, 32768, 20, 32769]);
    assert!(machine.feed_line("\u{20ac}\u{1F600}"));
    assert_eq!(machine.step(), Action::Continue);
    assert_eq!(machine.registers[0], 0x20AC);
    assert_eq!(machine.step(), Action::Continue);
    assert_eq!(machine.registers[1], 0xF600);
}

#[test]
fn a_faulted_machine_stays_faulted() {
    let mut machine = Machine::new(vec![99, 0]);
    assert_eq!(machine.step(), Action::Stop);
    assert_eq!(machine.step(), Action::Stop);
    assert_eq!(machine.status, Status::Faulted(ErrorKind::UnknownOpcode));
    assert_eq!(machine.pc, 0);
}

#[test]
fn return_address_beyond_a_word_keeps_its_low_bits() {
    let mut memory = vec![21u16; 65540];
    memory[65535] = 17;
    memory[65536] = 4;
    let mut machine = Machine::new(memory);
    machine.pc = 65535;
    assert_eq!(machine.step(), Action::Continue);
    assert_eq!(machine.stack, vec![1u16]);
    assert_eq!(machine.pc, 4);
}

#[test]
fn perform_executes_an_instruction_that_memory_does_not_hold() {
    let mut machine = Machine::new(Vec::new());
    let action = machine.perform(Instruction::Add { dest: 32768, a: 4, b: 5 });
    assert_eq!(action, Action::Continue);
    assert_eq!(machine.registers[0], 9);
    assert_eq!(machine.pc, 4);
    let action = machine.perform(Instruction::Out { a: 32768 });
    assert_eq!(action, Action::Output(9));
    assert_eq!(machine.pc, 6);
}

#[test]
fn perform_faults_without_touching_the_state() {
    let mut machine = machine_with(&[21, 21], [1, 2, 3, 4, 5, 6, 7, 8]);
    machine.stack = vec![4, 5];
    machine.pc = 1;
    let action = machine.perform(Instruction::Mod { dest: 32768, a: 32769, b: 0 });
    assert_eq!(action, Action::Stop);
    assert_eq!(machine.status, Status::Faulted(ErrorKind::DivideByZero));
    assert_eq!(machine.registers, [1u16, 2, 3, 4, 5, 6, 7, 8]);
    assert_eq!(machine.stack, vec![4u16, 5]);
    assert_eq!(machine.pc, 1);
    assert_eq!(machine.memory, vec![21u16, 21]);
}

#[test]
fn perform_leaves_a_stopped_machine_alone() {
    let mut machine = Machine::new(vec![0]);
    assert_eq!(machine.step(), Action::Stop);
    assert_eq!(machine.status, Status::Halted);
    let action = machine.perform(Instruction::Push { a: 5 });
    assert_eq!(action, Action::Stop);
    assert!(machine.stack.is_empty());
    assert_eq!(machine.pc, 0);
    assert_eq!(machine.status, Status::Halted);
}

#[test]
fn mod_of_a_loaded_word_is_not_reduced_further() {
    let mut machine = machine_with(&[], [0, 40000, 50000, 0, 0, 0, 0, 0]);
    let action = machine.perform(Instruction::Mod { dest: 32768, a: 32769, b: 32770 });
    assert_eq!(action, Action::Continue);
    assert_eq!(machine.registers[0], 40000);
}

#[test]
fn fault_reports_the_kind_and_the_address() {
    let mut machine = Machine::new(vec![21, 21, 3, 32768]);
    assert_eq!(machine.fault(), None);
    let mut output: Vec<u8> = Vec::new();
    assert_eq!(machine.run(&mut output, 10), Action::Stop);
    assert_eq!(machine.fault(), Some((ErrorKind::StackUnderflow, 2)));
    let mut halted = Machine::new(vec![0]);
    halted.step();
    assert_eq!(halted.fault(), None);
}
