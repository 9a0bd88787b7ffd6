use nesemu::cpu::{StatusFlag, CPU};
use nesemu::memory::FlatMemory;
use nesemu::{Read, Write};

fn boot(program: &[u8]) -> CPU<FlatMemory> {
    let mut memory = FlatMemory::new();
    for (i, byte) in program.iter().enumerate() {
        memory.write(0x8000 + i as u16, *byte);
    }
    memory.write(0xFFFC, 0x00);
    memory.write(0xFFFD, 0x80);
    let mut cpu = CPU::new(memory);
    cpu.reset();
    while cpu.cycles > 0 {
        cpu.clock();
    }
    cpu
}

fn step(cpu: &mut CPU<FlatMemory>) {
    while cpu.cycles > 0 {
        cpu.clock();
    }
    cpu.clock();
}

#[test]
fn untaken_branch_costs_the_base() {
    // BEQ +5 with Z clear
    let mut cpu = boot(&[0xF0, 0x05]);
    step(&mut cpu);
    assert_eq!(cpu.pgrm_ctr, 0x8002);
    assert_eq!(cpu.cycles, 2);
}

#[test]
fn taken_branch_costs_one_more() {
    // BNE +5 with Z clear
    let mut cpu = boot(&[0xD0, 0x05]);
    step(&mut cpu);
    assert_eq!(cpu.pgrm_ctr, 0x8007);
    assert_eq!(cpu.cycles, 3);
}

#[test]
fn taken_branch_into_another_page_costs_two_more() {
    // BNE -3 from 0x8002 goes to 0x7FFF
    let mut cpu = boot(&[0xD0, 0xFD]);
    step(&mut cpu);
    assert_eq!(cpu.pgrm_ctr, 0x7FFF);
    assert_eq!(cpu.cycles, 4);
}

#[test]
fn every_branch_has_the_same_timing() {
    let branches = [
        (0x90u8, StatusFlag::C, false),
        (0xB0, StatusFlag::C, true),
        (0xD0, StatusFlag::Z, false),
        (0xF0, StatusFlag::Z, true),
        (0x10, StatusFlag::N, false),
        (0x30, StatusFlag::N, true),
        (0x50, StatusFlag::V, false),
        (0x70, StatusFlag::V, true),
    ];
    for (opcode, flag, taken_when) in branches {
        let mut cpu = boot(&[opcode, 0x10]);
        cpu.set_flag(flag, taken_when);
        step(&mut cpu);
        assert_eq!((cpu.pgrm_ctr, cpu.cycles), (0x8012, 3));

        let mut cpu = boot(&[opcode, 0x10]);
        cpu.set_flag(flag, !taken_when);
        step(&mut cpu);
        assert_eq!((cpu.pgrm_ctr, cpu.cycles), (0x8002, 2));

        let mut cpu = boot(&[opcode, 0x80]);
        cpu.set_flag(flag, taken_when);
        step(&mut cpu);
        assert_eq!((cpu.pgrm_ctr, cpu.cycles), (0x7F82, 4));
    }
}

#[test]
fn a_read_across_a_page_costs_one_more() {
    // LDA $12FF,X
    let mut cpu = boot(&[0xBD, 0xFF, 0x12]);
    cpu.write(0x1300, 0x77);
    cpu.x_reg = 1;
    step(&mut cpu);
    assert_eq!(cpu.acc_reg, 0x77);
    assert_eq!(cpu.cycles, 5);

    let mut cpu = boot(&[0xBD, 0xFE, 0x12]);
    cpu.write(0x12FF, 0x78);
    cpu.x_reg = 1;
    step(&mut cpu);
    assert_eq!(cpu.acc_reg, 0x78);
    assert_eq!(cpu.cycles, 4);

    // LDA ($10),Y
    let mut cpu = boot(&[0xB1, 0x10]);
    cpu.write(0x0010, 0xFF);
    cpu.write(0x0011, 0x12);
    cpu.write(0x1300, 0x79);
    cpu.y_reg = 1;
    step(&mut cpu);
    assert_eq!(cpu.acc_reg, 0x79);
    assert_eq!(cpu.cycles, 6);

    // SBC $12FF,Y
    let mut cpu = boot(&[0xF9, 0xFF, 0x12]);
    cpu.write(0x1300, 0x01);
    cpu.acc_reg = 0x05;
    cpu.y_reg = 1;
    cpu.set_flag(StatusFlag::C, true);
    step(&mut cpu);
    assert_eq!(cpu.acc_reg, 0x04);
    assert_eq!(cpu.cycles, 5);
}

#[test]
fn a_write_across_a_page_costs_nothing_more() {
    // STA $12FF,X
    let mut cpu = boot(&[0x9D, 0xFF, 0x12]);
    cpu.acc_reg = 0x66;
    cpu.x_reg = 1;
    step(&mut cpu);
    assert_eq!(cpu.read(0x1300, true), 0x66);
    assert_eq!(cpu.cycles, 5);

    // INC $12FF,X
    let mut cpu = boot(&[0xFE, 0xFF, 0x12]);
    cpu.write(0x1300, 0x41);
    cpu.x_reg = 1;
    step(&mut cpu);
    assert_eq!(cpu.read(0x1300, true), 0x42);
    assert_eq!(cpu.cycles, 7);
}

#[test]
fn base_cycles_of_plain_instructions() {
    for (program, cycles) in [
        (vec![0xEAu8], 2),
        (vec![0xA5, 0x10], 3),
        (vec![0xAD, 0x10, 0x20], 4),
        (vec![0x48], 3),
        (vec![0x68], 4),
        (vec![0x20, 0x00, 0x90], 6),
        (vec![0x4C, 0x00, 0x90], 3),
        (vec![0x00], 7),
    ] {
        let mut cpu = boot(&program);
        step(&mut cpu);
        assert_eq!(cpu.cycles, cycles);
    }
}

#[test]
fn txs_reaches_the_stack_pointer_through_the_clock() {
    // LDX #$40, TXS
    let mut cpu = boot(&[0xA2, 0x40, 0x9A]);
    step(&mut cpu);
    step(&mut cpu);
    assert_eq!(cpu.stk_ptr, 0x40);
    assert_eq!(cpu.x_reg, 0x40);
}

#[test]
fn ticks_between_instructions_only_count_down() {
    let mut cpu = boot(&[0xA9, 0x11, 0xA9, 0x22]);
    cpu.clock();
    let after = (cpu.acc_reg, cpu.pgrm_ctr, cpu.status, cpu.stk_ptr);
    assert_eq!(after, (0x11, 0x8002, 0x24, 0xFD));
    for left in [1u8, 0] {
        cpu.clock();
        assert_eq!(cpu.cycles, left);
        assert_eq!((cpu.acc_reg, cpu.pgrm_ctr, cpu.status, cpu.stk_ptr), after);
    }
    cpu.clock();
    assert_eq!(cpu.acc_reg, 0x22);
}

#[test]
fn interrupt_request_is_masked_by_i() {
    let mut cpu = boot(&[0xEA]);
    cpu.write(0xFFFE, 0x00);
    cpu.write(0xFFFF, 0x90);
    assert_eq!(cpu.get_flag(StatusFlag::I), 1);
    cpu.irq();
    assert_eq!(cpu.pgrm_ctr, 0x8000);
    assert_eq!(cpu.stk_ptr, 0xFD);
    assert_eq!(cpu.cycles, 0);

    cpu.set_flag(StatusFlag::I, false);
    cpu.set_flag(StatusFlag::C, true);
    cpu.irq();
    assert_eq!(cpu.pgrm_ctr, 0x9000);
    assert_eq!(cpu.stk_ptr, 0xFA);
    assert_eq!(cpu.read(0x01FD, true), 0x80);
    assert_eq!(cpu.read(0x01FC, true), 0x00);
    assert_eq!(cpu.read(0x01FB, true), 0x21);
    assert_eq!(cpu.status, 0x25);
    assert_eq!(cpu.cycles, 7);
}

#[test]
fn non_maskable_interrupt_ignores_i() {
    let mut cpu = boot(&[0xEA]);
    cpu.write(0xFFFA, 0x34);
    cpu.write(0xFFFB, 0x12);
    cpu.nmi();
    assert_eq!(cpu.pgrm_ctr, 0x1234);
    assert_eq!(cpu.stk_ptr, 0xFA);
    assert_eq!(cpu.read(0x01FD, true), 0x80);
    assert_eq!(cpu.read(0x01FC, true), 0x00);
    assert_eq!(cpu.read(0x01FB, true), 0x24);
    assert_eq!(cpu.status, 0x24);
    assert_eq!(cpu.cycles, 8);
}
