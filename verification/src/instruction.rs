//! The instruction table: what each opcode byte means.
use vstd::prelude::*;
use crate::addressing_mode::AddressingMode;
use crate::cpu::CPU;
use crate::op_code::Opcode;
use crate::Write;

verus! {

/// One entry of the instruction table.
#[derive(Clone, Copy, Debug, PartialEq, Eq, Structural)]
pub struct Instruction {
    /// The mnemonic.
    pub opcode: Opcode,
    /// How the operand is found.
    pub addressing_mode: AddressingMode,
    /// The cycles the instruction takes before any penalty.
    pub cycles: u8,
}

/// Shorthand for one entry.
pub open spec fn entry(opcode: Opcode, addressing_mode: AddressingMode, cycles: u8) -> Instruction {
    Instruction { opcode, addressing_mode, cycles }
}

/// The entry that every undocumented byte maps to: a two-cycle no-op.
pub open spec fn illegal() -> Instruction {
    entry(Opcode::XXX, AddressingMode::IMP, 2)
}

/// The instruction table as a total function of the opcode byte: the 151
/// documented opcodes with their base timings, and [`illegal`] for the rest.
pub open spec fn instruction_for(n: u8) -> Instruction {
    match n {
        0x00 => entry(Opcode::BRK, AddressingMode::IMP, 7),
        0x01 => entry(Opcode::ORA, AddressingMode::IZX, 6),
        0x05 => entry(Opcode::ORA, AddressingMode::ZP0, 3),
        0x06 => entry(Opcode::ASL, AddressingMode::ZP0, 5),
        0x08 => entry(Opcode::PHP, AddressingMode::IMP, 3),
        0x09 => entry(Opcode::ORA, AddressingMode::IMM, 2),
        0x0A => entry(Opcode::ASL, AddressingMode::IMP, 2),
        0x0D => entry(Opcode::ORA, AddressingMode::ABS, 4),
        0x0E => entry(Opcode::ASL, AddressingMode::ABS, 6),
        0x10 => entry(Opcode::BPL, AddressingMode::REL, 2),
        0x11 => entry(Opcode::ORA, AddressingMode::IZY, 5),
        0x15 => entry(Opcode::ORA, AddressingMode::ZPX, 4),
        0x16 => entry(Opcode::ASL, AddressingMode::ZPX, 6),
        0x18 => entry(Opcode::CLC, AddressingMode::IMP, 2),
        0x19 => entry(Opcode::ORA, AddressingMode::ABY, 4),
        0x1D => entry(Opcode::ORA, AddressingMode::ABX, 4),
        0x1E => entry(Opcode::ASL, AddressingMode::ABX, 7),
        0x20 => entry(Opcode::JSR, AddressingMode::ABS, 6),
        0x21 => entry(Opcode::AND, AddressingMode::IZX, 6),
        0x24 => entry(Opcode::BIT, AddressingMode::ZP0, 3),
        0x25 => entry(Opcode::AND, AddressingMode::ZP0, 3),
        0x26 => entry(Opcode::ROL, AddressingMode::ZP0, 5),
        0x28 => entry(Opcode::PLP, AddressingMode::IMP, 4),
        0x29 => entry(Opcode::AND, AddressingMode::IMM, 2),
        0x2A => entry(Opcode::ROL, AddressingMode::IMP, 2),
        0x2C => entry(Opcode::BIT, AddressingMode::ABS, 4),
        0x2D => entry(Opcode::AND, AddressingMode::ABS, 4),
        0x2E => entry(Opcode::ROL, AddressingMode::ABS, 6),
        0x30 => entry(Opcode::BMI, AddressingMode::REL, 2),
        0x31 => entry(Opcode::AND, AddressingMode::IZY, 5),
        0x35 => entry(Opcode::AND, AddressingMode::ZPX, 4),
        0x36 => entry(Opcode::ROL, AddressingMode::ZPX, 6),
        0x38 => entry(Opcode::SEC, AddressingMode::IMP, 2),
        0x39 => entry(Opcode::AND, AddressingMode::ABY, 4),
        0x3D => entry(Opcode::AND, AddressingMode::ABX, 4),
        0x3E => entry(Opcode::ROL, AddressingMode::ABX, 7),
        0x40 => entry(Opcode::RTI, AddressingMode::IMP, 6),
        0x41 => entry(Opcode::EOR, AddressingMode::IZX, 6),
        0x45 => entry(Opcode::EOR, AddressingMode::ZP0, 3),
        0x46 => entry(Opcode::LSR, AddressingMode::ZP0, 5),
        0x48 => entry(Opcode::PHA, AddressingMode::IMP, 3),
        0x49 => entry(Opcode::EOR, AddressingMode::IMM, 2),
        0x4A => entry(Opcode::LSR, AddressingMode::IMP, 2),
        0x4C => entry(Opcode::JMP, AddressingMode::ABS, 3),
        0x4D => entry(Opcode::EOR, AddressingMode::ABS, 4),
        0x4E => entry(Opcode::LSR, AddressingMode::ABS, 6),
        0x50 => entry(Opcode::BVC, AddressingMode::REL, 2),
        0x51 => entry(Opcode::EOR, AddressingMode::IZY, 5),
        0x55 => entry(Opcode::EOR, AddressingMode::ZPX, 4),
        0x56 => entry(Opcode::LSR, AddressingMode::ZPX, 6),
        0x58 => entry(Opcode::CLI, AddressingMode::IMP, 2),
        0x59 => entry(Opcode::EOR, AddressingMode::ABY, 4),
        0x5D => entry(Opcode::EOR, AddressingMode::ABX, 4),
        0x5E => entry(Opcode::LSR, AddressingMode::ABX, 7),
        0x60 => entry(Opcode::RTS, AddressingMode::IMP, 6),
        0x61 => entry(Opcode::ADC, AddressingMode::IZX, 6),
        0x65 => entry(Opcode::ADC, AddressingMode::ZP0, 3),
        0x66 => entry(Opcode::ROR, AddressingMode::ZP0, 5),
        0x68 => entry(Opcode::PLA, AddressingMode::IMP, 4),
        0x69 => entry(Opcode::ADC, AddressingMode::IMM, 2),
        0x6A => entry(Opcode::ROR, AddressingMode::IMP, 2),
        0x6C => entry(Opcode::JMP, AddressingMode::IND, 5),
        0x6D => entry(Opcode::ADC, AddressingMode::ABS, 4),
        0x6E => entry(Opcode::ROR, AddressingMode::ABS, 6),
        0x70 => entry(Opcode::BVS, AddressingMode::REL, 2),
        0x71 => entry(Opcode::ADC, AddressingMode::IZY, 5),
        0x75 => entry(Opcode::ADC, AddressingMode::ZPX, 4),
        0x76 => entry(Opcode::ROR, AddressingMode::ZPX, 6),
        0x78 => entry(Opcode::SEI, AddressingMode::IMP, 2),
        0x79 => entry(Opcode::ADC, AddressingMode::ABY, 4),
        0x7D => entry(Opcode::ADC, AddressingMode::ABX, 4),
        0x7E => entry(Opcode::ROR, AddressingMode::ABX, 7),
        0x81 => entry(Opcode::STA, AddressingMode::IZX, 6),
        0x84 => entry(Opcode::STY, AddressingMode::ZP0, 3),
        0x85 => entry(Opcode::STA, AddressingMode::ZP0, 3),
        0x86 => entry(Opcode::STX, AddressingMode::ZP0, 3),
        0x88 => entry(Opcode::DEY, AddressingMode::IMP, 2),
        0x8A => entry(Opcode::TXA, AddressingMode::IMP, 2),
        0x8C => entry(Opcode::STY, AddressingMode::ABS, 4),
        0x8D => entry(Opcode::STA, AddressingMode::ABS, 4),
        0x8E => entry(Opcode::STX, AddressingMode::ABS, 4),
        0x90 => entry(Opcode::BCC, AddressingMode::REL, 2),
        0x91 => entry(Opcode::STA, AddressingMode::IZY, 6),
        0x94 => entry(Opcode::STY, AddressingMode::ZPX, 4),
        0x95 => entry(Opcode::STA, AddressingMode::ZPX, 4),
        0x96 => entry(Opcode::STX, AddressingMode::ZPY, 4),
        0x98 => entry(Opcode::TYA, AddressingMode::IMP, 2),
        0x99 => entry(Opcode::STA, AddressingMode::ABY, 5),
        0x9A => entry(Opcode::TXS, AddressingMode::IMP, 2),
        0x9D => entry(Opcode::STA, AddressingMode::ABX, 5),
        0xA0 => entry(Opcode::LDY, AddressingMode::IMM, 2),
        0xA1 => entry(Opcode::LDA, AddressingMode::IZX, 6),
        0xA2 => entry(Opcode::LDX, AddressingMode::IMM, 2),
        0xA4 => entry(Opcode::LDY, AddressingMode::ZP0, 3),
        0xA5 => entry(Opcode::LDA, AddressingMode::ZP0, 3),
        0xA6 => entry(Opcode::LDX, AddressingMode::ZP0, 3),
        0xA8 => entry(Opcode::TAY, AddressingMode::IMP, 2),
        0xA9 => entry(Opcode::LDA, AddressingMode::IMM, 2),
        0xAA => entry(Opcode::TAX, AddressingMode::IMP, 2),
        0xAC => entry(Opcode::LDY, AddressingMode::ABS, 4),
        0xAD => entry(Opcode::LDA, AddressingMode::ABS, 4),
        0xAE => entry(Opcode::LDX, AddressingMode::ABS, 4),
        0xB0 => entry(Opcode::BCS, AddressingMode::REL, 2),
        0xB1 => entry(Opcode::LDA, AddressingMode::IZY, 5),
        0xB4 => entry(Opcode::LDY, AddressingMode::ZPX, 4),
        0xB5 => entry(Opcode::LDA, AddressingMode::ZPX, 4),
        0xB6 => entry(Opcode::LDX, AddressingMode::ZPY, 4),
        0xB8 => entry(Opcode::CLV, AddressingMode::IMP, 2),
        0xB9 => entry(Opcode::LDA, AddressingMode::ABY, 4),
        0xBA => entry(Opcode::TSX, AddressingMode::IMP, 2),
        0xBC => entry(Opcode::LDY, AddressingMode::ABX, 4),
        0xBD => entry(Opcode::LDA, AddressingMode::ABX, 4),
        0xBE => entry(Opcode::LDX, AddressingMode::ABY, 4),
        0xC0 => entry(Opcode::CPY, AddressingMode::IMM, 2),
        0xC1 => entry(Opcode::CMP, AddressingMode::IZX, 6),
        0xC4 => entry(Opcode::CPY, AddressingMode::ZP0, 3),
        0xC5 => entry(Opcode::CMP, AddressingMode::ZP0, 3),
        0xC6 => entry(Opcode::DEC, AddressingMode::ZP0, 5),
        0xC8 => entry(Opcode::INY, AddressingMode::IMP, 2),
        0xC9 => entry(Opcode::CMP, AddressingMode::IMM, 2),
        0xCA => entry(Opcode::DEX, AddressingMode::IMP, 2),
        0xCC => entry(Opcode::CPY, AddressingMode::ABS, 4),
        0xCD => entry(Opcode::CMP, AddressingMode::ABS, 4),
        0xCE => entry(Opcode::DEC, AddressingMode::ABS, 6),
        0xD0 => entry(Opcode::BNE, AddressingMode::REL, 2),
        0xD1 => entry(Opcode::CMP, AddressingMode::IZY, 5),
        0xD5 => entry(Opcode::CMP, AddressingMode::ZPX, 4),
        0xD6 => entry(Opcode::DEC, AddressingMode::ZPX, 6),
        0xD8 => entry(Opcode::CLD, AddressingMode::IMP, 2),
        0xD9 => entry(Opcode::CMP, AddressingMode::ABY, 4),
        0xDD => entry(Opcode::CMP, AddressingMode::ABX, 4),
        0xDE => entry(Opcode::DEC, AddressingMode::ABX, 7),
        0xE0 => entry(Opcode::CPX, AddressingMode::IMM, 2),
        0xE1 => entry(Opcode::SBC, AddressingMode::IZX, 6),
        0xE4 => entry(Opcode::CPX, AddressingMode::ZP0, 3),
        0xE5 => entry(Opcode::SBC, AddressingMode::ZP0, 3),
        0xE6 => entry(Opcode::INC, AddressingMode::ZP0, 5),
        0xE8 => entry(Opcode::INX, AddressingMode::IMP, 2),
        0xE9 => entry(Opcode::SBC, AddressingMode::IMM, 2),
        0xEA => entry(Opcode::NOP, AddressingMode::IMP, 2),
        0xEC => entry(Opcode::CPX, AddressingMode::ABS, 4),
        0xED => entry(Opcode::SBC, AddressingMode::ABS, 4),
        0xEE => entry(Opcode::INC, AddressingMode::ABS, 6),
        0xF0 => entry(Opcode::BEQ, AddressingMode::REL, 2),
        0xF1 => entry(Opcode::SBC, AddressingMode::IZY, 5),
        0xF5 => entry(Opcode::SBC, AddressingMode::ZPX, 4),
        0xF6 => entry(Opcode::INC, AddressingMode::ZPX, 6),
        0xF8 => entry(Opcode::SED, AddressingMode::IMP, 2),
        0xF9 => entry(Opcode::SBC, AddressingMode::ABY, 4),
        0xFD => entry(Opcode::SBC, AddressingMode::ABX, 4),
        0xFE => entry(Opcode::INC, AddressingMode::ABX, 7),
        _ => illegal(),
    }
}

impl<B: Write> CPU<B> {
    /// Looks an opcode byte up in the instruction table. The table does not
    /// depend on the state of the processor.
    pub fn lookup(&self, n: u8) -> (instruction: Instruction)
        ensures
            instruction == instruction_for(n),
    {
        match n {
            0x00 => Instruction { opcode: Opcode::BRK, addressing_mode: AddressingMode::IMP, cycles: 7 },
            0x01 => Instruction { opcode: Opcode::ORA, addressing_mode: AddressingMode::IZX, cycles: 6 },
            0x05 => Instruction { opcode: Opcode::ORA, addressing_mode: AddressingMode::ZP0, cycles: 3 },
            0x06 => Instruction { opcode: Opcode::ASL, addressing_mode: AddressingMode::ZP0, cycles: 5 },
            0x08 => Instruction { opcode: Opcode::PHP, addressing_mode: AddressingMode::IMP, cycles: 3 },
            0x09 => Instruction { opcode: Opcode::ORA, addressing_mode: AddressingMode::IMM, cycles: 2 },
            0x0A => Instruction { opcode: Opcode::ASL, addressing_mode: AddressingMode::IMP, cycles: 2 },
            0x0D => Instruction { opcode: Opcode::ORA, addressing_mode: AddressingMode::ABS, cycles: 4 },
            0x0E => Instruction { opcode: Opcode::ASL, addressing_mode: AddressingMode::ABS, cycles: 6 },
            0x10 => Instruction { opcode: Opcode::BPL, addressing_mode: AddressingMode::REL, cycles: 2 },
            0x11 => Instruction { opcode: Opcode::ORA, addressing_mode: AddressingMode::IZY, cycles: 5 },
            0x15 => Instruction { opcode: Opcode::ORA, addressing_mode: AddressingMode::ZPX, cycles: 4 },
            0x16 => Instruction { opcode: Opcode::ASL, addressing_mode: AddressingMode::ZPX, cycles: 6 },
            0x18 => Instruction { opcode: Opcode::CLC, addressing_mode: AddressingMode::IMP, cycles: 2 },
            0x19 => Instruction { opcode: Opcode::ORA, addressing_mode: AddressingMode::ABY, cycles: 4 },
            0x1D => Instruction { opcode: Opcode::ORA, addressing_mode: AddressingMode::ABX, cycles: 4 },
            0x1E => Instruction { opcode: Opcode::ASL, addressing_mode: AddressingMode::ABX, cycles: 7 },
            0x20 => Instruction { opcode: Opcode::JSR, addressing_mode: AddressingMode::ABS, cycles: 6 },
            0x21 => Instruction { opcode: Opcode::AND, addressing_mode: AddressingMode::IZX, cycles: 6 },
            0x24 => Instruction { opcode: Opcode::BIT, addressing_mode: AddressingMode::ZP0, cycles: 3 },
            0x25 => Instruction { opcode: Opcode::AND, addressing_mode: AddressingMode::ZP0, cycles: 3 },
            0x26 => Instruction { opcode: Opcode::ROL, addressing_mode: AddressingMode::ZP0, cycles: 5 },
            0x28 => Instruction { opcode: Opcode::PLP, addressing_mode: AddressingMode::IMP, cycles: 4 },
            0x29 => Instruction { opcode: Opcode::AND, addressing_mode: AddressingMode::IMM, cycles: 2 },
            0x2A => Instruction { opcode: Opcode::ROL, addressing_mode: AddressingMode::IMP, cycles: 2 },
            0x2C => Instruction { opcode: Opcode::BIT, addressing_mode: AddressingMode::ABS, cycles: 4 },
            0x2D => Instruction { opcode: Opcode::AND, addressing_mode: AddressingMode::ABS, cycles: 4 },
            0x2E => Instruction { opcode: Opcode::ROL, addressing_mode: AddressingMode::ABS, cycles: 6 },
            0x30 => Instruction { opcode: Opcode::BMI, addressing_mode: AddressingMode::REL, cycles: 2 },
            0x31 => Instruction { opcode: Opcode::AND, addressing_mode: AddressingMode::IZY, cycles: 5 },
            0x35 => Instruction { opcode: Opcode::AND, addressing_mode: AddressingMode::ZPX, cycles: 4 },
            0x36 => Instruction { opcode: Opcode::ROL, addressing_mode: AddressingMode::ZPX, cycles: 6 },
            0x38 => Instruction { opcode: Opcode::SEC, addressing_mode: AddressingMode::IMP, cycles: 2 },
            0x39 => Instruction { opcode: Opcode::AND, addressing_mode: AddressingMode::ABY, cycles: 4 },
            0x3D => Instruction { opcode: Opcode::AND, addressing_mode: AddressingMode::ABX, cycles: 4 },
            0x3E => Instruction { opcode: Opcode::ROL, addressing_mode: AddressingMode::ABX, cycles: 7 },
            0x40 => Instruction { opcode: Opcode::RTI, addressing_mode: AddressingMode::IMP, cycles: 6 },
            0x41 => Instruction { opcode: Opcode::EOR, addressing_mode: AddressingMode::IZX, cycles: 6 },
            0x45 => Instruction { opcode: Opcode::EOR, addressing_mode: AddressingMode::ZP0, cycles: 3 },
            0x46 => Instruction { opcode: Opcode::LSR, addressing_mode: AddressingMode::ZP0, cycles: 5 },
            0x48 => Instruction { opcode: Opcode::PHA, addressing_mode: AddressingMode::IMP, cycles: 3 },
            0x49 => Instruction { opcode: Opcode::EOR, addressing_mode: AddressingMode::IMM, cycles: 2 },
            0x4A => Instruction { opcode: Opcode::LSR, addressing_mode: AddressingMode::IMP, cycles: 2 },
            0x4C => Instruction { opcode: Opcode::JMP, addressing_mode: AddressingMode::ABS, cycles: 3 },
            0x4D => Instruction { opcode: Opcode::EOR, addressing_mode: AddressingMode::ABS, cycles: 4 },
            0x4E => Instruction { opcode: Opcode::LSR, addressing_mode: AddressingMode::ABS, cycles: 6 },
            0x50 => Instruction { opcode: Opcode::BVC, addressing_mode: AddressingMode::REL, cycles: 2 },
            0x51 => Instruction { opcode: Opcode::EOR, addressing_mode: AddressingMode::IZY, cycles: 5 },
            0x55 => Instruction { opcode: Opcode::EOR, addressing_mode: AddressingMode::ZPX, cycles: 4 },
            0x56 => Instruction { opcode: Opcode::LSR, addressing_mode: AddressingMode::ZPX, cycles: 6 },
            0x58 => Instruction { opcode: Opcode::CLI, addressing_mode: AddressingMode::IMP, cycles: 2 },
            0x59 => Instruction { opcode: Opcode::EOR, addressing_mode: AddressingMode::ABY, cycles: 4 },
            0x5D => Instruction { opcode: Opcode::EOR, addressing_mode: AddressingMode::ABX, cycles: 4 },
            0x5E => Instruction { opcode: Opcode::LSR, addressing_mode: AddressingMode::ABX, cycles: 7 },
            0x60 => Instruction { opcode: Opcode::RTS, addressing_mode: AddressingMode::IMP, cycles: 6 },
            0x61 => Instruction { opcode: Opcode::ADC, addressing_mode: AddressingMode::IZX, cycles: 6 },
            0x65 => Instruction { opcode: Opcode::ADC, addressing_mode: AddressingMode::ZP0, cycles: 3 },
            0x66 => Instruction { opcode: Opcode::ROR, addressing_mode: AddressingMode::ZP0, cycles: 5 },
            0x68 => Instruction { opcode: Opcode::PLA, addressing_mode: AddressingMode::IMP, cycles: 4 },
            0x69 => Instruction { opcode: Opcode::ADC, addressing_mode: AddressingMode::IMM, cycles: 2 },
            0x6A => Instruction { opcode: Opcode::ROR, addressing_mode: AddressingMode::IMP, cycles: 2 },
            0x6C => Instruction { opcode: Opcode::JMP, addressing_mode: AddressingMode::IND, cycles: 5 },
            0x6D => Instruction { opcode: Opcode::ADC, addressing_mode: AddressingMode::ABS, cycles: 4 },
            0x6E => Instruction { opcode: Opcode::ROR, addressing_mode: AddressingMode::ABS, cycles: 6 },
            0x70 => Instruction { opcode: Opcode::BVS, addressing_mode: AddressingMode::REL, cycles: 2 },
            0x71 => Instruction { opcode: Opcode::ADC, addressing_mode: AddressingMode::IZY, cycles: 5 },
            0x75 => Instruction { opcode: Opcode::ADC, addressing_mode: AddressingMode::ZPX, cycles: 4 },
            0x76 => Instruction { opcode: Opcode::ROR, addressing_mode: AddressingMode::ZPX, cycles: 6 },
            0x78 => Instruction { opcode: Opcode::SEI, addressing_mode: AddressingMode::IMP, cycles: 2 },
            0x79 => Instruction { opcode: Opcode::ADC, addressing_mode: AddressingMode::ABY, cycles: 4 },
            0x7D => Instruction { opcode: Opcode::ADC, addressing_mode: AddressingMode::ABX, cycles: 4 },
            0x7E => Instruction { opcode: Opcode::ROR, addressing_mode: AddressingMode::ABX, cycles: 7 },
            0x81 => Instruction { opcode: Opcode::STA, addressing_mode: AddressingMode::IZX, cycles: 6 },
            0x84 => Instruction { opcode: Opcode::STY, addressing_mode: AddressingMode::ZP0, cycles: 3 },
            0x85 => Instruction { opcode: Opcode::STA, addressing_mode: AddressingMode::ZP0, cycles: 3 },
            0x86 => Instruction { opcode: Opcode::STX, addressing_mode: AddressingMode::ZP0, cycles: 3 },
            0x88 => Instruction { opcode: Opcode::DEY, addressing_mode: AddressingMode::IMP, cycles: 2 },
            0x8A => Instruction { opcode: Opcode::TXA, addressing_mode: AddressingMode::IMP, cycles: 2 },
            0x8C => Instruction { opcode: Opcode::STY, addressing_mode: AddressingMode::ABS, cycles: 4 },
            0x8D => Instruction { opcode: Opcode::STA, addressing_mode: AddressingMode::ABS, cycles: 4 },
            0x8E => Instruction { opcode: Opcode::STX, addressing_mode: AddressingMode::ABS, cycles: 4 },
            0x90 => Instruction { opcode: Opcode::BCC, addressing_mode: AddressingMode::REL, cycles: 2 },
            0x91 => Instruction { opcode: Opcode::STA, addressing_mode: AddressingMode::IZY, cycles: 6 },
            0x94 => Instruction { opcode: Opcode::STY, addressing_mode: AddressingMode::ZPX, cycles: 4 },
            0x95 => Instruction { opcode: Opcode::STA, addressing_mode: AddressingMode::ZPX, cycles: 4 },
            0x96 => Instruction { opcode: Opcode::STX, addressing_mode: AddressingMode::ZPY, cycles: 4 },
            0x98 => Instruction { opcode: Opcode::TYA, addressing_mode: AddressingMode::IMP, cycles: 2 },
            0x99 => Instruction { opcode: Opcode::STA, addressing_mode: AddressingMode::ABY, cycles: 5 },
            0x9A => Instruction { opcode: Opcode::TXS, addressing_mode: AddressingMode::IMP, cycles: 2 },
            0x9D => Instruction { opcode: Opcode::STA, addressing_mode: AddressingMode::ABX, cycles: 5 },
            0xA0 => Instruction { opcode: Opcode::LDY, addressing_mode: AddressingMode::IMM, cycles: 2 },
            0xA1 => Instruction { opcode: Opcode::LDA, addressing_mode: AddressingMode::IZX, cycles: 6 },
            0xA2 => Instruction { opcode: Opcode::LDX, addressing_mode: AddressingMode::IMM, cycles: 2 },
            0xA4 => Instruction { opcode: Opcode::LDY, addressing_mode: AddressingMode::ZP0, cycles: 3 },
            0xA5 => Instruction { opcode: Opcode::LDA, addressing_mode: AddressingMode::ZP0, cycles: 3 },
            0xA6 => Instruction { opcode: Opcode::LDX, addressing_mode: AddressingMode::ZP0, cycles: 3 },
            0xA8 => Instruction { opcode: Opcode::TAY, addressing_mode: AddressingMode::IMP, cycles: 2 },
            0xA9 => Instruction { opcode: Opcode::LDA, addressing_mode: AddressingMode::IMM, cycles: 2 },
            0xAA => Instruction { opcode: Opcode::TAX, addressing_mode: AddressingMode::IMP, cycles: 2 },
            0xAC => Instruction { opcode: Opcode::LDY, addressing_mode: AddressingMode::ABS, cycles: 4 },
            0xAD => Instruction { opcode: Opcode::LDA, addressing_mode: AddressingMode::ABS, cycles: 4 },
            0xAE => Instruction { opcode: Opcode::LDX, addressing_mode: AddressingMode::ABS, cycles: 4 },
            0xB0 => Instruction { opcode: Opcode::BCS, addressing_mode: AddressingMode::REL, cycles: 2 },
            0xB1 => Instruction { opcode: Opcode::LDA, addressing_mode: AddressingMode::IZY, cycles: 5 },
            0xB4 => Instruction { opcode: Opcode::LDY, addressing_mode: AddressingMode::ZPX, cycles: 4 },
            0xB5 => Instruction { opcode: Opcode::LDA, addressing_mode: AddressingMode::ZPX, cycles: 4 },
            0xB6 => Instruction { opcode: Opcode::LDX, addressing_mode: AddressingMode::ZPY, cycles: 4 },
            0xB8 => Instruction { opcode: Opcode::CLV, addressing_mode: AddressingMode::IMP, cycles: 2 },
            0xB9 => Instruction { opcode: Opcode::LDA, addressing_mode: AddressingMode::ABY, cycles: 4 },
            0xBA => Instruction { opcode: Opcode::TSX, addressing_mode: AddressingMode::IMP, cycles: 2 },
            0xBC => Instruction { opcode: Opcode::LDY, addressing_mode: AddressingMode::ABX, cycles: 4 },
            0xBD => Instruction { opcode: Opcode::LDA, addressing_mode: AddressingMode::ABX, cycles: 4 },
            0xBE => Instruction { opcode: Opcode::LDX, addressing_mode: AddressingMode::ABY, cycles: 4 },
            0xC0 => Instruction { opcode: Opcode::CPY, addressing_mode: AddressingMode::IMM, cycles: 2 },
            0xC1 => Instruction { opcode: Opcode::CMP, addressing_mode: AddressingMode::IZX, cycles: 6 },
            0xC4 => Instruction { opcode: Opcode::CPY, addressing_mode: AddressingMode::ZP0, cycles: 3 },
            0xC5 => Instruction { opcode: Opcode::CMP, addressing_mode: AddressingMode::ZP0, cycles: 3 },
            0xC6 => Instruction { opcode: Opcode::DEC, addressing_mode: AddressingMode::ZP0, cycles: 5 },
            0xC8 => Instruction { opcode: Opcode::INY, addressing_mode: AddressingMode::IMP, cycles: 2 },
            0xC9 => Instruction { opcode: Opcode::CMP, addressing_mode: AddressingMode::IMM, cycles: 2 },
            0xCA => Instruction { opcode: Opcode::DEX, addressing_mode: AddressingMode::IMP, cycles: 2 },
            0xCC => Instruction { opcode: Opcode::CPY, addressing_mode: AddressingMode::ABS, cycles: 4 },
            0xCD => Instruction { opcode: Opcode::CMP, addressing_mode: AddressingMode::ABS, cycles: 4 },
            0xCE => Instruction { opcode: Opcode::DEC, addressing_mode: AddressingMode::ABS, cycles: 6 },
            0xD0 => Instruction { opcode: Opcode::BNE, addressing_mode: AddressingMode::REL, cycles: 2 },
            0xD1 => Instruction { opcode: Opcode::CMP, addressing_mode: AddressingMode::IZY, cycles: 5 },
            0xD5 => Instruction { opcode: Opcode::CMP, addressing_mode: AddressingMode::ZPX, cycles: 4 },
            0xD6 => Instruction { opcode: Opcode::DEC, addressing_mode: AddressingMode::ZPX, cycles: 6 },
            0xD8 => Instruction { opcode: Opcode::CLD, addressing_mode: AddressingMode::IMP, cycles: 2 },
            0xD9 => Instruction { opcode: Opcode::CMP, addressing_mode: AddressingMode::ABY, cycles: 4 },
            0xDD => Instruction { opcode: Opcode::CMP, addressing_mode: AddressingMode::ABX, cycles: 4 },
            0xDE => Instruction { opcode: Opcode::DEC, addressing_mode: AddressingMode::ABX, cycles: 7 },
            0xE0 => Instruction { opcode: Opcode::CPX, addressing_mode: AddressingMode::IMM, cycles: 2 },
            0xE1 => Instruction { opcode: Opcode::SBC, addressing_mode: AddressingMode::IZX, cycles: 6 },
            0xE4 => Instruction { opcode: Opcode::CPX, addressing_mode: AddressingMode::ZP0, cycles: 3 },
            0xE5 => Instruction { opcode: Opcode::SBC, addressing_mode: AddressingMode::ZP0, cycles: 3 },
            0xE6 => Instruction { opcode: Opcode::INC, addressing_mode: AddressingMode::ZP0, cycles: 5 },
            0xE8 => Instruction { opcode: Opcode::INX, addressing_mode: AddressingMode::IMP, cycles: 2 },
            0xE9 => Instruction { opcode: Opcode::SBC, addressing_mode: AddressingMode::IMM, cycles: 2 },
            0xEA => Instruction { opcode: Opcode::NOP, addressing_mode: AddressingMode::IMP, cycles: 2 },
            0xEC => Instruction { opcode: Opcode::CPX, addressing_mode: AddressingMode::ABS, cycles: 4 },
            0xED => Instruction { opcode: Opcode::SBC, addressing_mode: AddressingMode::ABS, cycles: 4 },
            0xEE => Instruction { opcode: Opcode::INC, addressing_mode: AddressingMode::ABS, cycles: 6 },
            0xF0 => Instruction { opcode: Opcode::BEQ, addressing_mode: AddressingMode::REL, cycles: 2 },
            0xF1 => Instruction { opcode: Opcode::SBC, addressing_mode: AddressingMode::IZY, cycles: 5 },
            0xF5 => Instruction { opcode: Opcode::SBC, addressing_mode: AddressingMode::ZPX, cycles: 4 },
            0xF6 => Instruction { opcode: Opcode::INC, addressing_mode: AddressingMode::ZPX, cycles: 6 },
            0xF8 => Instruction { opcode: Opcode::SED, addressing_mode: AddressingMode::IMP, cycles: 2 },
            0xF9 => Instruction { opcode: Opcode::SBC, addressing_mode: AddressingMode::ABY, cycles: 4 },
            0xFD => Instruction { opcode: Opcode::SBC, addressing_mode: AddressingMode::ABX, cycles: 4 },
            0xFE => Instruction { opcode: Opcode::INC, addressing_mode: AddressingMode::ABX, cycles: 7 },
            _ => Instruction { opcode: Opcode::XXX, addressing_mode: AddressingMode::IMP, cycles: 2 },
        }
    }
}

} // verus!
