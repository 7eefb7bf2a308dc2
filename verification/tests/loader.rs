use wordvm::error::ErrorKind;
use wordvm::image::load_image;
use wordvm::machine::Machine;
use wordvm::state::Status;

#[test]
fn load_image_reads_words_low_byte_first() {
    let bytes = [0x34u8, 0x12, 0xFF, 0x7F, 0x00, 0x80, 0x01, 0x00];
    assert_eq!(load_image(&bytes), Ok(vec![0x1234u16, 0x7FFF, 0x8000, 0x0001]));
}

#[test]
fn load_image_keeps_image_order() {
    let mut bytes: Vec<u8> = Vec::new();
    for i in 0..300u16 {
        bytes.push((i % 256) as u8);
        bytes.push((i / 256) as u8);
    }
    let words = load_image(&bytes).unwrap();
    assert_eq!(words.len(), 300);
    for i in 0..300u16 {
        assert_eq!(words[i as usize], i);
    }
}

#[test]
fn load_image_of_nothing_is_empty_memory() {
    assert_eq!(load_image(&[]), Ok(Vec::new()));
}

#[test]
fn load_image_refuses_a_dangling_byte() {
    assert_eq!(load_image(&[1, 0, 2]), Err(ErrorKind::CorruptImage));
    assert_eq!(load_image(&[7]), Err(ErrorKind::CorruptImage));
}

#[test]
fn load_image_high_byte_counts_256() {
    assert_eq!(load_image(&[0, 1]), Ok(vec![256u16]));
    assert_eq!(load_image(&[1, 0]), Ok(vec![1u16]));
    assert_eq!(load_image(&[255, 255]), Ok(vec![65535u16]));
}

#[test]
fn from_image_starts_a_fresh_machine() {
    let machine = Machine::from_image(&[19, 0, 65, 0, 0, 0]).unwrap();
    assert_eq!(machine.memory, vec![19u16, 65, 0]);
    assert_eq!(machine.registers, [0u16; 8]);
    assert!(machine.stack.is_empty());
    assert!(machine.input.is_empty());
    assert_eq!(machine.pc, 0);
    assert_eq!(machine.status, Status::Running);
}

#[test]
fn from_image_refuses_odd_length() {
    match Machine::from_image(&[19, 0, 65]) {
        Ok(_) => panic!("an image of three bytes was accepted"),
        Err(kind) => assert_eq!(kind, ErrorKind::CorruptImage),
    }
}

#[test]
fn new_machine_is_running_at_zero() {
    let machine = Machine::new(vec![21, 0]);
    assert_eq!(machine.memory, vec![21u16, 0]);
    assert_eq!(machine.registers, [0u16; 8]);
    assert!(machine.stack.is_empty());
    assert!(machine.input.is_empty());
    assert_eq!(machine.pc, 0);
    assert_eq!(machine.status, Status::Running);
}
