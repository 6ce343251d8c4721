use register_vm::instruction::{Instruction, Opcode};

#[test]
fn test_create_hlt() {
    let opcode = Opcode::HLT;
    assert_eq!(opcode, Opcode::HLT);
}

#[test]
fn test_create_load() {
    let instruction = Instruction::new(Opcode::LOAD);
    assert_eq!(instruction.opcode, Opcode::LOAD);
}

#[test]
fn test_create_add() {
    let instruction = Instruction::new(Opcode::ADD);
    assert_eq!(instruction.opcode, Opcode::ADD);
}

#[test]
fn test_create_sub() {
    let instruction = Instruction::new(Opcode::SUB);
    assert_eq!(instruction.opcode, Opcode::SUB);
}

#[test]
fn test_create_mul() {
    let instruction = Instruction::new(Opcode::MUL);
    assert_eq!(instruction.opcode, Opcode::MUL);
}

#[test]
fn test_create_div() {
    let instruction = Instruction::new(Opcode::DIV);
    assert_eq!(instruction.opcode, Opcode::DIV);
}

#[test]
fn test_create_jmp() {
    let instruction = Instruction::new(Opcode::JMP);
    assert_eq!(instruction.opcode, Opcode::JMP);
}

#[test]
fn test_create_jmpf() {
    let instruction = Instruction::new(Opcode::JMPF);
    assert_eq!(instruction.opcode, Opcode::JMPF);
}

#[test]
fn test_create_jmpb() {
    let instruction = Instruction::new(Opcode::JMPB);
    assert_eq!(instruction.opcode, Opcode::JMPB);
}

#[test]
fn test_create_jmpe() {
    let instruction = Instruction::new(Opcode::JMPE);
    assert_eq!(instruction.opcode, Opcode::JMPE);
}

#[test]
fn test_create_eq() {
    let instruction = Instruction::new(Opcode::EQ);
    assert_eq!(instruction.opcode, Opcode::EQ);
}

#[test]
fn test_create_neq() {
    let instruction = Instruction::new(Opcode::NEQ);
    assert_eq!(instruction.opcode, Opcode::NEQ);
}

#[test]
fn test_create_gte() {
    let instruction = Instruction::new(Opcode::GTE);
    assert_eq!(instruction.opcode, Opcode::GTE);
}

#[test]
fn test_create_lte() {
    let instruction = Instruction::new(Opcode::LTE);
    assert_eq!(instruction.opcode, Opcode::LTE);
}

#[test]
fn test_create_gt() {
    let instruction = Instruction::new(Opcode::GT);
    assert_eq!(instruction.opcode, Opcode::GT);
}

#[test]
fn test_create_lt() {
    let instruction = Instruction::new(Opcode::LT);
    assert_eq!(instruction.opcode, Opcode::LT);
}

#[test]
fn test_create_instruction() {
    let instruction = Instruction::new(Opcode::HLT);
    assert_eq!(instruction.opcode, Opcode::HLT);
}

#[test]
fn decoding_follows_the_table() {
    let table = [
        Opcode::LOAD,
        Opcode::ADD,
        Opcode::SUB,
        Opcode::MUL,
        Opcode::DIV,
        Opcode::HLT,
        Opcode::JMP,
        Opcode::JMPF,
        Opcode::JMPB,
        Opcode::JMPE,
        Opcode::EQ,
        Opcode::NEQ,
        Opcode::GTE,
        Opcode::LTE,
        Opcode::GT,
        Opcode::LT,
    ];
    for (byte, opcode) in table.iter().enumerate() {
        assert_eq!(Opcode::from(byte as u8), *opcode);
    }
}

#[test]
fn every_other_byte_is_illegal() {
    for byte in 16..=255u8 {
        assert_eq!(Opcode::from(byte), Opcode::IGL);
    }
}

#[test]
fn no_table_entry_is_illegal() {
    for byte in 0..16u8 {
        assert_ne!(Opcode::from(byte), Opcode::IGL);
    }
}

#[test]
fn instructions_compare_by_opcode() {
    assert_eq!(Instruction::new(Opcode::ADD), Instruction::new(Opcode::ADD));
    assert_ne!(Instruction::new(Opcode::ADD), Instruction::new(Opcode::SUB));
}
