use nesemu::cpu::{StatusFlag, CPU};
use nesemu::memory::FlatMemory;
use nesemu::op_code::Opcode;
use nesemu::Write;

fn setup(val: u8) -> CPU<FlatMemory> {
    let mut bus = FlatMemory::new();
    bus.write(0, val);
    CPU::new(bus)
}

#[test]
fn adc() {
    let mut cpu = setup(0x50);
    cpu.opcode = 0x65;
    cpu.acc_reg = 0x50;
    let consent = cpu.operation(Opcode::ADC);
    assert_eq!(consent, 1);
    assert_eq!(cpu.acc_reg, 0xA0);
    assert_eq!(cpu.get_flag(StatusFlag::C), 0);
    assert_eq!(cpu.get_flag(StatusFlag::V), 1);
    assert_eq!(cpu.get_flag(StatusFlag::N), 1);
    assert_eq!(cpu.get_flag(StatusFlag::Z), 0);
}

#[test]
fn and() {
    let mut cpu = setup(0b1000_1101);
    // A new processor holds the opcode byte 0x00, an implied instruction,
    // which takes no operand from memory: pick the zero-page AND.
    cpu.opcode = 0x25;
    cpu.acc_reg = 0b1000_0010;
    cpu.operation(Opcode::AND);
    assert_eq!(cpu.get_flag(StatusFlag::N), 1);
    assert_eq!(cpu.get_flag(StatusFlag::Z), 0);
    assert_eq!(cpu.acc_reg, 0b1000_0000);
}

#[test]
fn asl() {
    let mut cpu = setup(0b1000_1101);
    cpu.opcode = 0x06;
    cpu.acc_reg = 0b1000_0010;
    let consent = cpu.operation(Opcode::ASL);
    assert_eq!(consent, 0);
    assert_eq!(nesemu::Read::read(&cpu, 0, true), 0b0001_1010);
    assert_eq!(cpu.acc_reg, 0b1000_0010);
    assert_eq!(cpu.get_flag(StatusFlag::C), 1);
    assert_eq!(cpu.get_flag(StatusFlag::N), 0);
    assert_eq!(cpu.get_flag(StatusFlag::Z), 0);
}
