use nesemu::addressing_mode::AddressingMode;
use nesemu::cpu::CPU;
use nesemu::instruction::Instruction;
use nesemu::memory::FlatMemory;
use nesemu::op_code::Opcode;

fn entry(opcode: Opcode, addressing_mode: AddressingMode, cycles: u8) -> Instruction {
    Instruction { opcode, addressing_mode, cycles }
}

#[test]
fn documented_opcodes_have_their_entries() {
    let cpu = CPU::new(FlatMemory::new());
    assert_eq!(cpu.lookup(0x00), entry(Opcode::BRK, AddressingMode::IMP, 7));
    assert_eq!(cpu.lookup(0xA9), entry(Opcode::LDA, AddressingMode::IMM, 2));
    assert_eq!(cpu.lookup(0xA5), entry(Opcode::LDA, AddressingMode::ZP0, 3));
    assert_eq!(cpu.lookup(0xB5), entry(Opcode::LDA, AddressingMode::ZPX, 4));
    assert_eq!(cpu.lookup(0xB6), entry(Opcode::LDX, AddressingMode::ZPY, 4));
    assert_eq!(cpu.lookup(0xAD), entry(Opcode::LDA, AddressingMode::ABS, 4));
    assert_eq!(cpu.lookup(0xBD), entry(Opcode::LDA, AddressingMode::ABX, 4));
    assert_eq!(cpu.lookup(0xB9), entry(Opcode::LDA, AddressingMode::ABY, 4));
    assert_eq!(cpu.lookup(0xA1), entry(Opcode::LDA, AddressingMode::IZX, 6));
    assert_eq!(cpu.lookup(0xB1), entry(Opcode::LDA, AddressingMode::IZY, 5));
    assert_eq!(cpu.lookup(0x6C), entry(Opcode::JMP, AddressingMode::IND, 5));
    assert_eq!(cpu.lookup(0x4C), entry(Opcode::JMP, AddressingMode::ABS, 3));
    assert_eq!(cpu.lookup(0xD0), entry(Opcode::BNE, AddressingMode::REL, 2));
    assert_eq!(cpu.lookup(0x20), entry(Opcode::JSR, AddressingMode::ABS, 6));
    assert_eq!(cpu.lookup(0x60), entry(Opcode::RTS, AddressingMode::IMP, 6));
    assert_eq!(cpu.lookup(0x40), entry(Opcode::RTI, AddressingMode::IMP, 6));
    assert_eq!(cpu.lookup(0x91), entry(Opcode::STA, AddressingMode::IZY, 6));
    assert_eq!(cpu.lookup(0x9D), entry(Opcode::STA, AddressingMode::ABX, 5));
    assert_eq!(cpu.lookup(0xFE), entry(Opcode::INC, AddressingMode::ABX, 7));
    assert_eq!(cpu.lookup(0xEA), entry(Opcode::NOP, AddressingMode::IMP, 2));
}

#[test]
fn stack_pointer_transfers_are_two_opcodes() {
    let cpu = CPU::new(FlatMemory::new());
    assert_eq!(cpu.lookup(0x9A), entry(Opcode::TXS, AddressingMode::IMP, 2));
    assert_eq!(cpu.lookup(0xBA), entry(Opcode::TSX, AddressingMode::IMP, 2));
}

#[test]
fn subtract_has_both_indexed_absolute_forms() {
    let cpu = CPU::new(FlatMemory::new());
    assert_eq!(cpu.lookup(0xF9), entry(Opcode::SBC, AddressingMode::ABY, 4));
    assert_eq!(cpu.lookup(0xFD), entry(Opcode::SBC, AddressingMode::ABX, 4));
    assert_eq!(cpu.lookup(0xED), entry(Opcode::SBC, AddressingMode::ABS, 4));
}

#[test]
fn undocumented_bytes_are_two_cycle_no_ops() {
    let cpu = CPU::new(FlatMemory::new());
    for byte in [0x02u8, 0x03, 0x04, 0x07, 0x0B, 0x1A, 0x80, 0x89, 0x9E, 0xFF] {
        assert_eq!(cpu.lookup(byte), entry(Opcode::XXX, AddressingMode::IMP, 2));
    }
}

#[test]
fn the_table_has_151_documented_opcodes() {
    let cpu = CPU::new(FlatMemory::new());
    let mut documented = 0;
    for byte in 0..=255u8 {
        let instruction = cpu.lookup(byte);
        if instruction.opcode != Opcode::XXX {
            documented += 1;
        }
        assert!(2 <= instruction.cycles && instruction.cycles <= 7);
    }
    assert_eq!(documented, 151);
}

#[test]
fn every_mnemonic_is_in_the_table() {
    let cpu = CPU::new(FlatMemory::new());
    let all = [
        Opcode::ADC, Opcode::AND, Opcode::ASL, Opcode::BCC, Opcode::BCS, Opcode::BEQ,
        Opcode::BIT, Opcode::BMI, Opcode::BNE, Opcode::BPL, Opcode::BRK, Opcode::BVC,
        Opcode::BVS, Opcode::CLC, Opcode::CLD, Opcode::CLI, Opcode::CLV, Opcode::CMP,
        Opcode::CPX, Opcode::CPY, Opcode::DEC, Opcode::DEX, Opcode::DEY, Opcode::EOR,
        Opcode::INC, Opcode::INX, Opcode::INY, Opcode::JMP, Opcode::JSR, Opcode::LDA,
        Opcode::LDX, Opcode::LDY, Opcode::LSR, Opcode::NOP, Opcode::ORA, Opcode::PHA,
        Opcode::PHP, Opcode::PLA, Opcode::PLP, Opcode::ROL, Opcode::ROR, Opcode::RTI,
        Opcode::RTS, Opcode::SBC, Opcode::SEC, Opcode::SED, Opcode::SEI, Opcode::STA,
        Opcode::STX, Opcode::STY, Opcode::TAX, Opcode::TAY, Opcode::TSX, Opcode::TXA,
        Opcode::TXS, Opcode::TYA,
    ];
    assert_eq!(all.len(), 56);
    for mnemonic in all {
        assert!((0..=255u8).any(|byte| cpu.lookup(byte).opcode == mnemonic));
    }
}

#[test]
fn the_table_does_not_depend_on_the_processor() {
    let mut cpu = CPU::new(FlatMemory::new());
    let before = cpu.lookup(0x69);
    cpu.acc_reg = 0x12;
    cpu.opcode = 0xEA;
    cpu.status = 0xFF;
    assert_eq!(cpu.lookup(0x69), before);
    assert_eq!(before, entry(Opcode::ADC, AddressingMode::IMM, 2));
}
