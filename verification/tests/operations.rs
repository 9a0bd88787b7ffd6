use nesemu::addressing_mode::AddressingMode;
use nesemu::cpu::{StatusFlag, CPU};
use nesemu::memory::FlatMemory;
use nesemu::op_code::Opcode;
use nesemu::{Read, Write};

/// A processor whose instruction in flight reads its operand at 0x0040,
/// where `operand` stands.
fn with_operand(operand: u8) -> CPU<FlatMemory> {
    let mut cpu = CPU::new(FlatMemory::new());
    cpu.write(0x0040, operand);
    cpu.opcode = 0xA5;
    cpu.addr_abs = 0x0040;
    cpu.status = 0x20;
    cpu.stk_ptr = 0xFD;
    cpu
}

/// A processor whose instruction in flight is implied and works on the
/// accumulator `a`.
fn on_accumulator(a: u8) -> CPU<FlatMemory> {
    let mut cpu = CPU::new(FlatMemory::new());
    cpu.opcode = 0x0A;
    cpu.acc_reg = a;
    cpu.status = 0x20;
    cpu.address(AddressingMode::IMP);
    cpu
}

fn flags(cpu: &CPU<FlatMemory>) -> (u8, u8, u8, u8) {
    (
        cpu.get_flag(StatusFlag::C),
        cpu.get_flag(StatusFlag::Z),
        cpu.get_flag(StatusFlag::V),
        cpu.get_flag(StatusFlag::N),
    )
}

#[test]
fn adc_carries_out() {
    let mut cpu = with_operand(0x01);
    cpu.acc_reg = 0xFF;
    assert_eq!(cpu.operation(Opcode::ADC), 1);
    assert_eq!(cpu.acc_reg, 0x00);
    assert_eq!(flags(&cpu), (1, 1, 0, 0));
}

#[test]
fn adc_takes_the_carry_in() {
    let mut cpu = with_operand(0x01);
    cpu.acc_reg = 0x01;
    cpu.set_flag(StatusFlag::C, true);
    cpu.operation(Opcode::ADC);
    assert_eq!(cpu.acc_reg, 0x03);
    assert_eq!(flags(&cpu), (0, 0, 0, 0));
}

#[test]
fn adc_overflows_into_the_sign() {
    let mut cpu = with_operand(0x01);
    cpu.acc_reg = 0x7F;
    cpu.operation(Opcode::ADC);
    assert_eq!(cpu.acc_reg, 0x80);
    assert_eq!(flags(&cpu), (0, 0, 1, 1));

    let mut cpu = with_operand(0x80);
    cpu.acc_reg = 0x80;
    cpu.operation(Opcode::ADC);
    assert_eq!(cpu.acc_reg, 0x00);
    assert_eq!(flags(&cpu), (1, 1, 1, 0));
}

#[test]
fn sbc_subtracts_with_borrow() {
    let mut cpu = with_operand(0xF0);
    cpu.acc_reg = 0x50;
    cpu.set_flag(StatusFlag::C, true);
    assert_eq!(cpu.operation(Opcode::SBC), 1);
    assert_eq!(cpu.acc_reg, 0x60);
    assert_eq!(flags(&cpu), (0, 0, 0, 0));

    let mut cpu = with_operand(0xB0);
    cpu.acc_reg = 0x50;
    cpu.set_flag(StatusFlag::C, true);
    cpu.operation(Opcode::SBC);
    assert_eq!(cpu.acc_reg, 0xA0);
    assert_eq!(flags(&cpu), (0, 0, 1, 1));

    let mut cpu = with_operand(0x10);
    cpu.acc_reg = 0x50;
    cpu.set_flag(StatusFlag::C, true);
    cpu.operation(Opcode::SBC);
    assert_eq!(cpu.acc_reg, 0x40);
    assert_eq!(flags(&cpu), (1, 0, 0, 0));

    // without the carry the result is one lower
    let mut cpu = with_operand(0x10);
    cpu.acc_reg = 0x50;
    cpu.operation(Opcode::SBC);
    assert_eq!(cpu.acc_reg, 0x3F);
    assert_eq!(flags(&cpu), (1, 0, 0, 0));
}

#[test]
fn logic_on_the_accumulator() {
    let mut cpu = with_operand(0b1100_1100);
    cpu.acc_reg = 0b1010_1010;
    assert_eq!(cpu.operation(Opcode::AND), 1);
    assert_eq!(cpu.acc_reg, 0b1000_1000);
    assert_eq!(cpu.get_flag(StatusFlag::N), 1);
    assert_eq!(cpu.get_flag(StatusFlag::Z), 0);

    let mut cpu = with_operand(0b1100_1100);
    cpu.acc_reg = 0b1010_1010;
    assert_eq!(cpu.operation(Opcode::ORA), 1);
    assert_eq!(cpu.acc_reg, 0b1110_1110);
    assert_eq!(cpu.get_flag(StatusFlag::N), 1);

    let mut cpu = with_operand(0b1100_1100);
    cpu.acc_reg = 0b1010_1010;
    assert_eq!(cpu.operation(Opcode::EOR), 1);
    assert_eq!(cpu.acc_reg, 0b0110_0110);
    assert_eq!(cpu.get_flag(StatusFlag::N), 0);

    let mut cpu = with_operand(0x0F);
    cpu.acc_reg = 0xF0;
    cpu.operation(Opcode::AND);
    assert_eq!(cpu.acc_reg, 0);
    assert_eq!(cpu.get_flag(StatusFlag::Z), 1);
    assert_eq!(cpu.get_flag(StatusFlag::N), 0);
}

#[test]
fn bit_copies_the_top_bits_of_the_operand() {
    let mut cpu = with_operand(0xC0);
    cpu.acc_reg = 0x0F;
    assert_eq!(cpu.operation(Opcode::BIT), 0);
    assert_eq!(cpu.acc_reg, 0x0F);
    assert_eq!(flags(&cpu), (0, 1, 1, 1));

    let mut cpu = with_operand(0x41);
    cpu.acc_reg = 0x01;
    cpu.operation(Opcode::BIT);
    assert_eq!(flags(&cpu), (0, 0, 1, 0));

    let mut cpu = with_operand(0x81);
    cpu.acc_reg = 0x01;
    cpu.operation(Opcode::BIT);
    assert_eq!(flags(&cpu), (0, 0, 0, 1));
}

#[test]
fn compares() {
    let mut cpu = with_operand(0x40);
    cpu.acc_reg = 0x40;
    assert_eq!(cpu.operation(Opcode::CMP), 1);
    assert_eq!(flags(&cpu), (1, 1, 0, 0));
    assert_eq!(cpu.acc_reg, 0x40);

    let mut cpu = with_operand(0x41);
    cpu.acc_reg = 0x40;
    cpu.operation(Opcode::CMP);
    assert_eq!(flags(&cpu), (0, 0, 0, 1));

    let mut cpu = with_operand(0x01);
    cpu.acc_reg = 0x90;
    cpu.operation(Opcode::CMP);
    assert_eq!(flags(&cpu), (1, 0, 0, 1));

    // CPX and CPY compare their own register, not the accumulator
    let mut cpu = with_operand(0x10);
    cpu.acc_reg = 0x00;
    cpu.x_reg = 0x20;
    assert_eq!(cpu.operation(Opcode::CPX), 0);
    assert_eq!(flags(&cpu), (1, 0, 0, 0));

    let mut cpu = with_operand(0x10);
    cpu.acc_reg = 0xFF;
    cpu.y_reg = 0x0F;
    assert_eq!(cpu.operation(Opcode::CPY), 0);
    assert_eq!(flags(&cpu), (0, 0, 0, 1));
}

#[test]
fn shifts_on_the_accumulator() {
    let mut cpu = on_accumulator(0x81);
    assert_eq!(cpu.operation(Opcode::ASL), 0);
    assert_eq!(cpu.acc_reg, 0x02);
    assert_eq!(flags(&cpu), (1, 0, 0, 0));

    let mut cpu = on_accumulator(0x40);
    cpu.operation(Opcode::ASL);
    assert_eq!(cpu.acc_reg, 0x80);
    assert_eq!(flags(&cpu), (0, 0, 0, 1));

    let mut cpu = on_accumulator(0x80);
    cpu.operation(Opcode::ASL);
    assert_eq!(cpu.acc_reg, 0x00);
    assert_eq!(flags(&cpu), (1, 1, 0, 0));

    let mut cpu = on_accumulator(0x01);
    assert_eq!(cpu.operation(Opcode::LSR), 0);
    assert_eq!(cpu.acc_reg, 0x00);
    assert_eq!(flags(&cpu), (1, 1, 0, 0));

    let mut cpu = on_accumulator(0xFE);
    cpu.operation(Opcode::LSR);
    assert_eq!(cpu.acc_reg, 0x7F);
    assert_eq!(flags(&cpu), (0, 0, 0, 0));
}

#[test]
fn rotates_go_through_the_carry() {
    let mut cpu = on_accumulator(0x80);
    cpu.set_flag(StatusFlag::C, true);
    assert_eq!(cpu.operation(Opcode::ROL), 0);
    assert_eq!(cpu.acc_reg, 0x01);
    assert_eq!(flags(&cpu), (1, 0, 0, 0));

    let mut cpu = on_accumulator(0x40);
    cpu.operation(Opcode::ROL);
    assert_eq!(cpu.acc_reg, 0x80);
    assert_eq!(flags(&cpu), (0, 0, 0, 1));

    let mut cpu = on_accumulator(0x01);
    cpu.set_flag(StatusFlag::C, true);
    assert_eq!(cpu.operation(Opcode::ROR), 0);
    assert_eq!(cpu.acc_reg, 0x80);
    assert_eq!(flags(&cpu), (1, 0, 0, 1));

    let mut cpu = on_accumulator(0x01);
    cpu.operation(Opcode::ROR);
    assert_eq!(cpu.acc_reg, 0x00);
    assert_eq!(flags(&cpu), (1, 1, 0, 0));
}

#[test]
fn shifts_on_memory_leave_the_accumulator() {
    let mut cpu = with_operand(0x81);
    cpu.opcode = 0x06;
    cpu.acc_reg = 0x33;
    cpu.operation(Opcode::ASL);
    assert_eq!(cpu.read(0x0040, true), 0x02);
    assert_eq!(cpu.acc_reg, 0x33);
    assert_eq!(flags(&cpu), (1, 0, 0, 0));

    let mut cpu = with_operand(0x03);
    cpu.opcode = 0x66;
    cpu.set_flag(StatusFlag::C, true);
    cpu.operation(Opcode::ROR);
    assert_eq!(cpu.read(0x0040, true), 0x81);
    assert_eq!(flags(&cpu), (1, 0, 0, 1));
}

#[test]
fn increments_and_decrements_wrap() {
    let mut cpu = with_operand(0xFF);
    assert_eq!(cpu.operation(Opcode::INC), 0);
    assert_eq!(cpu.read(0x0040, true), 0x00);
    assert_eq!(cpu.get_flag(StatusFlag::Z), 1);
    assert_eq!(cpu.get_flag(StatusFlag::N), 0);

    let mut cpu = with_operand(0x00);
    assert_eq!(cpu.operation(Opcode::DEC), 0);
    assert_eq!(cpu.read(0x0040, true), 0xFF);
    assert_eq!(cpu.get_flag(StatusFlag::Z), 0);
    assert_eq!(cpu.get_flag(StatusFlag::N), 1);

    let mut cpu = with_operand(0);
    cpu.x_reg = 0xFF;
    cpu.y_reg = 0x00;
    cpu.operation(Opcode::INX);
    assert_eq!(cpu.x_reg, 0x00);
    assert_eq!(cpu.get_flag(StatusFlag::Z), 1);
    cpu.operation(Opcode::DEY);
    assert_eq!(cpu.y_reg, 0xFF);
    assert_eq!(cpu.get_flag(StatusFlag::N), 1);
    assert_eq!(cpu.get_flag(StatusFlag::Z), 0);
    cpu.operation(Opcode::DEX);
    assert_eq!(cpu.x_reg, 0xFF);
    cpu.operation(Opcode::INY);
    assert_eq!(cpu.y_reg, 0x00);
    assert_eq!(cpu.get_flag(StatusFlag::Z), 1);
}

#[test]
fn loads_and_stores() {
    let mut cpu = with_operand(0x80);
    assert_eq!(cpu.operation(Opcode::LDA), 1);
    assert_eq!(cpu.acc_reg, 0x80);
    assert_eq!(cpu.get_flag(StatusFlag::N), 1);
    assert_eq!(cpu.operation(Opcode::LDX), 1);
    assert_eq!(cpu.x_reg, 0x80);
    assert_eq!(cpu.operation(Opcode::LDY), 1);
    assert_eq!(cpu.y_reg, 0x80);

    let mut cpu = with_operand(0x00);
    cpu.acc_reg = 0x11;
    cpu.operation(Opcode::LDA);
    assert_eq!(cpu.acc_reg, 0x00);
    assert_eq!(cpu.get_flag(StatusFlag::Z), 1);

    let mut cpu = with_operand(0x00);
    cpu.acc_reg = 0x11;
    cpu.x_reg = 0x22;
    cpu.y_reg = 0x33;
    let p = cpu.status;
    assert_eq!(cpu.operation(Opcode::STA), 0);
    assert_eq!(cpu.read(0x0040, true), 0x11);
    assert_eq!(cpu.operation(Opcode::STX), 0);
    assert_eq!(cpu.read(0x0040, true), 0x22);
    assert_eq!(cpu.operation(Opcode::STY), 0);
    assert_eq!(cpu.read(0x0040, true), 0x33);
    assert_eq!(cpu.status, p);
}

#[test]
fn transfers() {
    let mut cpu = with_operand(0);
    cpu.acc_reg = 0x80;
    assert_eq!(cpu.operation(Opcode::TAX), 0);
    assert_eq!(cpu.x_reg, 0x80);
    assert_eq!(cpu.get_flag(StatusFlag::N), 1);
    cpu.acc_reg = 0x00;
    cpu.operation(Opcode::TAY);
    assert_eq!(cpu.y_reg, 0x00);
    assert_eq!(cpu.get_flag(StatusFlag::Z), 1);
    assert_eq!(cpu.get_flag(StatusFlag::N), 0);
    cpu.operation(Opcode::TXA);
    assert_eq!(cpu.acc_reg, 0x80);
    cpu.y_reg = 0x07;
    cpu.operation(Opcode::TYA);
    assert_eq!(cpu.acc_reg, 0x07);
    cpu.stk_ptr = 0xF0;
    cpu.operation(Opcode::TSX);
    assert_eq!(cpu.x_reg, 0xF0);
    assert_eq!(cpu.get_flag(StatusFlag::N), 1);
}

#[test]
fn txs_leaves_the_flags() {
    let mut cpu = with_operand(0);
    cpu.x_reg = 0x00;
    let p = cpu.status;
    assert_eq!(cpu.operation(Opcode::TXS), 0);
    assert_eq!(cpu.stk_ptr, 0x00);
    assert_eq!(cpu.status, p);
    cpu.x_reg = 0x80;
    cpu.operation(Opcode::TXS);
    assert_eq!(cpu.stk_ptr, 0x80);
    assert_eq!(cpu.status, p);
}

#[test]
fn flag_setters_and_clearers() {
    let mut cpu = with_operand(0);
    cpu.status = 0x00;
    cpu.operation(Opcode::SEC);
    assert_eq!(cpu.status, 0x01);
    cpu.operation(Opcode::SED);
    assert_eq!(cpu.status, 0x09);
    cpu.operation(Opcode::SEI);
    assert_eq!(cpu.status, 0x0D);
    cpu.status = 0xFF;
    cpu.operation(Opcode::CLC);
    assert_eq!(cpu.status, 0xFE);
    cpu.operation(Opcode::CLD);
    assert_eq!(cpu.status, 0xF6);
    cpu.operation(Opcode::CLI);
    assert_eq!(cpu.status, 0xF2);
    cpu.operation(Opcode::CLV);
    assert_eq!(cpu.status, 0xB2);
}

#[test]
fn jumps() {
    let mut cpu = with_operand(0);
    cpu.addr_abs = 0x1234;
    assert_eq!(cpu.operation(Opcode::JMP), 0);
    assert_eq!(cpu.pgrm_ctr, 0x1234);
}

#[test]
fn jsr_and_rts() {
    let mut cpu = with_operand(0);
    cpu.pgrm_ctr = 0x8003;
    cpu.addr_abs = 0x1234;
    assert_eq!(cpu.operation(Opcode::JSR), 0);
    assert_eq!(cpu.pgrm_ctr, 0x1234);
    assert_eq!(cpu.stk_ptr, 0xFB);
    assert_eq!(cpu.read(0x01FD, true), 0x80);
    assert_eq!(cpu.read(0x01FC, true), 0x02);
    assert_eq!(cpu.operation(Opcode::RTS), 0);
    assert_eq!(cpu.pgrm_ctr, 0x8003);
    assert_eq!(cpu.stk_ptr, 0xFD);
}

#[test]
fn php_and_plp() {
    let mut cpu = with_operand(0);
    cpu.status = 0x21;
    assert_eq!(cpu.operation(Opcode::PHP), 0);
    assert_eq!(cpu.read(0x01FD, true), 0x31);
    assert_eq!(cpu.stk_ptr, 0xFC);
    assert_eq!(cpu.status, 0x21);

    cpu.write(0x01FD, 0xFF);
    assert_eq!(cpu.operation(Opcode::PLP), 0);
    assert_eq!(cpu.status, 0xEF);
    assert_eq!(cpu.stk_ptr, 0xFD);

    cpu.write(0x01FE, 0x00);
    cpu.operation(Opcode::PLP);
    assert_eq!(cpu.status, 0x20);
}

#[test]
fn pla_sets_z_and_n() {
    let mut cpu = with_operand(0);
    cpu.write(0x01FE, 0x00);
    cpu.write(0x01FF, 0x90);
    cpu.acc_reg = 0x55;
    assert_eq!(cpu.operation(Opcode::PLA), 0);
    assert_eq!(cpu.acc_reg, 0x00);
    assert_eq!(cpu.get_flag(StatusFlag::Z), 1);
    cpu.operation(Opcode::PLA);
    assert_eq!(cpu.acc_reg, 0x90);
    assert_eq!(cpu.get_flag(StatusFlag::N), 1);
    assert_eq!(cpu.get_flag(StatusFlag::Z), 0);
    assert_eq!(cpu.stk_ptr, 0xFF);
}

#[test]
fn the_stack_pointer_wraps_both_ways() {
    let mut cpu = with_operand(0);
    cpu.stk_ptr = 0x00;
    cpu.acc_reg = 0xAB;
    cpu.operation(Opcode::PHA);
    assert_eq!(cpu.read(0x0100, true), 0xAB);
    assert_eq!(cpu.stk_ptr, 0xFF);
    cpu.acc_reg = 0;
    cpu.operation(Opcode::PLA);
    assert_eq!(cpu.acc_reg, 0xAB);
    assert_eq!(cpu.stk_ptr, 0x00);
}

#[test]
fn rti_pulls_status_and_program_counter() {
    let mut cpu = with_operand(0);
    cpu.stk_ptr = 0xFA;
    cpu.write(0x01FB, 0xD3);
    cpu.write(0x01FC, 0x34);
    cpu.write(0x01FD, 0x12);
    assert_eq!(cpu.operation(Opcode::RTI), 0);
    assert_eq!(cpu.status, 0xE3);
    assert_eq!(cpu.pgrm_ctr, 0x1234);
    assert_eq!(cpu.stk_ptr, 0xFD);
}

#[test]
fn brk_pushes_and_takes_the_vector() {
    let mut cpu = with_operand(0);
    cpu.write(0xFFFE, 0xCD);
    cpu.write(0xFFFF, 0xAB);
    cpu.pgrm_ctr = 0x12FF;
    cpu.status = 0x61;
    assert_eq!(cpu.operation(Opcode::BRK), 0);
    assert_eq!(cpu.pgrm_ctr, 0xABCD);
    assert_eq!(cpu.read(0x01FD, true), 0x13);
    assert_eq!(cpu.read(0x01FC, true), 0x00);
    assert_eq!(cpu.read(0x01FB, true), 0x71);
    assert_eq!(cpu.stk_ptr, 0xFA);
    assert_eq!(cpu.status, 0x65);
}

#[test]
fn every_branch_follows_its_flag() {
    let cases = [
        (Opcode::BCC, StatusFlag::C, false),
        (Opcode::BCS, StatusFlag::C, true),
        (Opcode::BNE, StatusFlag::Z, false),
        (Opcode::BEQ, StatusFlag::Z, true),
        (Opcode::BPL, StatusFlag::N, false),
        (Opcode::BMI, StatusFlag::N, true),
        (Opcode::BVC, StatusFlag::V, false),
        (Opcode::BVS, StatusFlag::V, true),
    ];
    for (branch, flag, taken_when) in cases {
        for set in [false, true] {
            let mut cpu = with_operand(0);
            cpu.pgrm_ctr = 0x8010;
            cpu.addr_rel = 0x0008;
            cpu.cycles = 2;
            cpu.set_flag(flag, set);
            assert_eq!(cpu.operation(branch), 0);
            if set == taken_when {
                assert_eq!(cpu.pgrm_ctr, 0x8018);
                assert_eq!(cpu.addr_abs, 0x8018);
                assert_eq!(cpu.cycles, 3);
            } else {
                assert_eq!(cpu.pgrm_ctr, 0x8010);
                assert_eq!(cpu.cycles, 2);
            }
        }
    }
}

#[test]
fn branch_backwards_across_a_page() {
    let mut cpu = with_operand(0);
    cpu.pgrm_ctr = 0x8002;
    cpu.addr_rel = 0xFFFB;
    cpu.cycles = 2;
    cpu.branch();
    assert_eq!(cpu.pgrm_ctr, 0x7FFD);
    assert_eq!(cpu.addr_abs, 0x7FFD);
    assert_eq!(cpu.cycles, 4);
}

#[test]
fn no_op_and_illegal_change_nothing() {
    for mnemonic in [Opcode::NOP, Opcode::XXX] {
        let mut cpu = with_operand(0x12);
        cpu.acc_reg = 1;
        cpu.x_reg = 2;
        cpu.y_reg = 3;
        cpu.pgrm_ctr = 0x4321;
        assert_eq!(cpu.operation(mnemonic), 0);
        assert_eq!(
            (cpu.acc_reg, cpu.x_reg, cpu.y_reg, cpu.stk_ptr, cpu.pgrm_ctr, cpu.status),
            (1, 2, 3, 0xFD, 0x4321, 0x20)
        );
        assert_eq!(cpu.read(0x0040, true), 0x12);
    }
}

#[test]
fn fetch_reads_memory_unless_implied() {
    let mut cpu = with_operand(0x99);
    cpu.fetched = 0x11;
    assert_eq!(cpu.fetch(), 0x99);
    assert_eq!(cpu.fetched, 0x99);

    let mut cpu = with_operand(0x99);
    cpu.opcode = 0xEA;
    cpu.fetched = 0x11;
    assert_eq!(cpu.fetch(), 0x11);
    assert_eq!(cpu.fetched, 0x11);
}

#[test]
fn flags_read_back_as_written() {
    let all = [
        StatusFlag::C,
        StatusFlag::Z,
        StatusFlag::I,
        StatusFlag::D,
        StatusFlag::B,
        StatusFlag::U,
        StatusFlag::V,
        StatusFlag::N,
    ];
    for (i, flag) in all.iter().enumerate() {
        assert_eq!(flag.bit(), 1 << i);
        for start in [0x00u8, 0xFF, 0xA5] {
            for set in [false, true] {
                let mut cpu = CPU::new(FlatMemory::new());
                cpu.status = start;
                cpu.set_flag(*flag, set);
                assert_eq!(cpu.get_flag(*flag), set as u8);
                assert_eq!(cpu.status & !flag.bit(), start & !flag.bit());
            }
        }
    }
}

#[test]
fn snapshots_copy_the_registers() {
    let mut cpu = CPU::new(FlatMemory::new());
    cpu.acc_reg = 1;
    cpu.x_reg = 2;
    cpu.y_reg = 3;
    cpu.stk_ptr = 4;
    cpu.pgrm_ctr = 0x0506;
    cpu.status = 0b1010_0101;
    cpu.fetched = 7;
    cpu.addr_abs = 0x0809;
    cpu.addr_rel = 0x0A0B;
    cpu.opcode = 0x6C;
    cpu.cycles = 5;
    let info = cpu.get_cpu_debug_info();
    assert_eq!(info.acc_reg, 1);
    assert_eq!(info.x_reg, 2);
    assert_eq!(info.y_reg, 3);
    assert_eq!(info.stk_ptr, 4);
    assert_eq!(info.pgrm_ctr, 0x0506);
    assert_eq!(info.status, 0b1010_0101);
    assert_eq!(info.fetched, 7);
    assert_eq!(info.addr_abs, 0x0809);
    assert_eq!(info.addr_rel, 0x0A0B);
    assert_eq!(info.opcode_index, 0x6C);
    assert_eq!(info.opcode.opcode, Opcode::JMP);
    assert_eq!(info.opcode.addressing_mode, AddressingMode::IND);
    assert_eq!(info.opcode.cycles, 5);
    assert_eq!(info.cycles, 5);
    let flags = cpu.get_flag_data();
    assert_eq!(
        (flags.C, flags.Z, flags.I, flags.D, flags.B, flags.U, flags.V, flags.N),
        (1, 0, 1, 0, 0, 1, 0, 1)
    );
}
