//! The mnemonics and what each of them does to the machine.
use vstd::prelude::*;
use crate::addressing_mode::AddressingMode;
use crate::bits::{bit7, hi, high_byte, lo, low_byte, negative, page, page_of, word, word_of};
use crate::cpu::{flag_bit, has_flag, stack_slot, with_flag, with_operand, with_zn, Machine, StatusFlag, CPU};
use crate::instruction::instruction_for;
use crate::{Read, Write};

verus! {

/// The 56 mnemonics of the 6502, and `XXX` for every byte that names none.
#[derive(Clone, Copy, Debug, PartialEq, Eq, Structural)]
pub enum Opcode {
    ADC,
    AND,
    ASL,
    BCC,
    BCS,
    BEQ,
    BIT,
    BMI,
    BNE,
    BPL,
    BRK,
    BVC,
    BVS,
    CLC,
    CLD,
    CLI,
    CLV,
    CMP,
    CPX,
    CPY,
    DEC,
    DEX,
    DEY,
    EOR,
    INC,
    INX,
    INY,
    JMP,
    JSR,
    LDA,
    LDX,
    LDY,
    LSR,
    NOP,
    ORA,
    PHA,
    PHP,
    PLA,
    PLP,
    ROL,
    ROR,
    RTI,
    RTS,
    SBC,
    SEC,
    SED,
    SEI,
    STA,
    STX,
    STY,
    TAX,
    TAY,
    TSX,
    TXA,
    TXS,
    TYA,
    XXX,
}

/// The carry flag as a number, 0 or 1.
pub open spec fn carry_in(p: u8) -> u8 {
    flag_bit(p, StatusFlag::C)
}

/// Signed overflow of an addition: the operands `a` and `operand` have one
/// sign and the result has the other.
pub open spec fn signed_overflow(a: u8, operand: u8, result: u8) -> bool {
    ((a ^ result) & (operand ^ result) & 0x80) != 0
}

/// The machine after `operand` and the carry were added to the
/// accumulator. The sum is formed in 16 bits; its low byte goes to the
/// accumulator, C says that the sum passed 255, V that it overflowed as a
/// signed sum, Z and N describe the low byte.
pub open spec fn added(m: Machine, operand: u8) -> Machine {
    let sum: u16 = (m.a as u16 + operand as u16 + carry_in(m.p) as u16) as u16;
    let result: u8 = (sum & 0x00FF) as u8;
    let p = with_flag(m.p, StatusFlag::C, sum > 255);
    let p = with_flag(p, StatusFlag::Z, result == 0);
    let p = with_flag(p, StatusFlag::V, signed_overflow(m.a, operand, result));
    let p = with_flag(p, StatusFlag::N, bit7(result));
    Machine { a: result, p, ..m }
}

/// `ADC`: adds the operand and the carry to the accumulator.
pub open spec fn op_adc(m: Machine) -> Machine {
    let f = with_operand(m);
    added(f, f.fetched)
}

/// `SBC`: subtracts by adding the inverted operand and the carry.
pub open spec fn op_sbc(m: Machine) -> Machine {
    let f = with_operand(m);
    added(f, f.fetched ^ 0xFF)
}

/// The machine with `v` in the accumulator and Z, N describing `v`.
pub open spec fn with_a(m: Machine, v: u8) -> Machine {
    Machine { a: v, p: with_zn(m.p, v), ..m }
}

/// The machine with `v` in X and Z, N describing `v`.
pub open spec fn with_x(m: Machine, v: u8) -> Machine {
    Machine { x: v, p: with_zn(m.p, v), ..m }
}

/// The machine with `v` in Y and Z, N describing `v`.
pub open spec fn with_y(m: Machine, v: u8) -> Machine {
    Machine { y: v, p: with_zn(m.p, v), ..m }
}

/// `AND`.
pub open spec fn op_and(m: Machine) -> Machine {
    let f = with_operand(m);
    with_a(f, f.a & f.fetched)
}

/// `ORA`.
pub open spec fn op_ora(m: Machine) -> Machine {
    let f = with_operand(m);
    with_a(f, f.a | f.fetched)
}

/// `EOR`.
pub open spec fn op_eor(m: Machine) -> Machine {
    let f = with_operand(m);
    with_a(f, f.a ^ f.fetched)
}

/// `BIT`: Z says that the accumulator and the operand share no bit; N and V
/// copy bits 7 and 6 of the operand.
pub open spec fn op_bit(m: Machine) -> Machine {
    let f = with_operand(m);
    let p = with_flag(f.p, StatusFlag::Z, (f.a & f.fetched) == 0);
    let p = with_flag(p, StatusFlag::N, f.fetched & 0x80 != 0);
    let p = with_flag(p, StatusFlag::V, f.fetched & 0x40 != 0);
    Machine { p, ..f }
}

/// The machine after `register` was compared with the operand: C says
/// that the register is at least the operand, Z and N describe their
/// difference modulo 256.
pub open spec fn compared(m: Machine, register: u8) -> Machine {
    let f = with_operand(m);
    let difference: u8 = register.wrapping_sub(f.fetched);
    let p = with_flag(f.p, StatusFlag::C, register >= f.fetched);
    Machine { p: with_zn(p, difference), ..f }
}

/// The machine with the result of a shift or rotate put back where the
/// operand came from: the accumulator for an implied instruction, the
/// memory at `addr_abs` otherwise.
pub open spec fn put_back<B: Write>(m: Machine, result: u8) -> Machine {
    if instruction_for(m.opcode).addressing_mode == AddressingMode::IMP {
        Machine { a: result, ..m }
    } else {
        Machine { mem: B::store(m.mem, m.addr_abs, result), ..m }
    }
}

/// The machine after a shift or rotate that gave `result` and pushed out
/// the bit `carry`.
pub open spec fn shifted<B: Write>(m: Machine, result: u8, carry: bool) -> Machine {
    let p = with_flag(m.p, StatusFlag::C, carry);
    put_back::<B>(Machine { p: with_zn(p, result), ..m }, result)
}

/// `ASL`: shifts left; bit 7 goes to the carry.
pub open spec fn op_asl<B: Write>(m: Machine) -> Machine {
    let f = with_operand(m);
    let wide: u16 = (f.fetched as u16) << 1;
    shifted::<B>(f, (wide & 0x00FF) as u8, (wide & 0xFF00) != 0)
}

/// `LSR`: shifts right; bit 0 goes to the carry.
pub open spec fn op_lsr<B: Write>(m: Machine) -> Machine {
    let f = with_operand(m);
    shifted::<B>(f, f.fetched >> 1, f.fetched & 0x01 != 0)
}

/// `ROL`: rotates left through the carry.
pub open spec fn op_rol<B: Write>(m: Machine) -> Machine {
    let f = with_operand(m);
    let wide: u16 = ((f.fetched as u16) << 1) | (carry_in(f.p) as u16);
    shifted::<B>(f, (wide & 0x00FF) as u8, (wide & 0xFF00) != 0)
}

/// `ROR`: rotates right through the carry.
pub open spec fn op_ror<B: Write>(m: Machine) -> Machine {
    let f = with_operand(m);
    shifted::<B>(f, (carry_in(f.p) << 7) | (f.fetched >> 1), f.fetched & 0x01 != 0)
}

/// The machine after a branch was taken: the program counter moves by the
/// offset in `addr_rel`, which costs one cycle, and one more where the
/// target lies in another page.
pub open spec fn branched(m: Machine) -> Machine {
    let target: u16 = m.pc.wrapping_add(m.addr_rel);
    let cost: u8 = if page_of(target) != page_of(m.pc) {
        m.cycles.wrapping_add(1).wrapping_add(1)
    } else {
        m.cycles.wrapping_add(1)
    };
    Machine { addr_abs: target, pc: target, cycles: cost, ..m }
}

/// The machine after a conditional branch: taken where `condition` holds,
/// untouched otherwise.
pub open spec fn branched_if(m: Machine, condition: bool) -> Machine {
    if condition {
        branched(m)
    } else {
        m
    }
}

/// The machine after `byte` was pushed: written at the stack slot, and the
/// stack pointer one lower, modulo 256.
pub open spec fn pushed<B: Write>(m: Machine, byte: u8) -> Machine {
    Machine { mem: B::store(m.mem, stack_slot(m.sp), byte), sp: m.sp.wrapping_sub(1), ..m }
}

/// The byte that the next pull gives: the one above the stack pointer.
pub open spec fn top_of_stack(m: Machine) -> u8 {
    m.mem[stack_slot(m.sp.wrapping_add(1)) as int]
}

/// The machine after one pull: the stack pointer one higher, modulo 256.
pub open spec fn pulled(m: Machine) -> Machine {
    Machine { sp: m.sp.wrapping_add(1), ..m }
}

/// The status byte as it goes on the stack: with B and U set.
pub open spec fn status_on_stack(p: u8) -> u8 {
    p | StatusFlag::B.mask() | StatusFlag::U.mask()
}

/// A status byte as the register holds it: with B cleared and U set. B
/// exists only in the copy on the stack.
pub open spec fn status_in_register(byte: u8) -> u8 {
    with_flag(with_flag(byte, StatusFlag::B, false), StatusFlag::U, true)
}

/// `BRK`: steps over the padding byte, pushes the program counter (high
/// byte first) and the status with B and U set, sets I, clears B, and
/// loads the program counter from the vector at `0xFFFE` and `0xFFFF`.
pub open spec fn op_brk<B: Write>(m: Machine) -> Machine {
    let ret: u16 = m.pc.wrapping_add(1);
    let s = pushed::<B>(Machine { pc: ret, ..m }, high_byte(ret));
    let s = pushed::<B>(s, low_byte(ret));
    let s = pushed::<B>(s, status_on_stack(m.p));
    let p = with_flag(with_flag(s.p, StatusFlag::I, true), StatusFlag::B, false);
    Machine { p, pc: word_of(s.mem[0xFFFE], s.mem[0xFFFF]), ..s }
}

/// `JSR`: pushes the address of its own last byte (high byte first) and
/// jumps.
pub open spec fn op_jsr<B: Write>(m: Machine) -> Machine {
    let ret: u16 = m.pc.wrapping_sub(1);
    let s = pushed::<B>(Machine { pc: ret, ..m }, high_byte(ret));
    let s = pushed::<B>(s, low_byte(ret));
    Machine { pc: m.addr_abs, ..s }
}

/// `RTS`: pulls the program counter (low byte first) and steps past the
/// last byte of the `JSR` that pushed it.
pub open spec fn op_rts(m: Machine) -> Machine {
    let s = pulled(m);
    let t = pulled(s);
    Machine { pc: word_of(top_of_stack(m), top_of_stack(s)).wrapping_add(1), ..t }
}

/// `RTI`: pulls the status (B cleared, U set) and the program counter.
pub open spec fn op_rti(m: Machine) -> Machine {
    let s = pulled(m);
    let t = pulled(s);
    let u = pulled(t);
    Machine { p: status_in_register(top_of_stack(m)), pc: word_of(top_of_stack(s), top_of_stack(t)), ..u }
}

/// `PHP`: pushes the status with B and U set; the register itself is left
/// with B cleared and U set.
pub open spec fn op_php<B: Write>(m: Machine) -> Machine {
    let s = pushed::<B>(m, status_on_stack(m.p));
    Machine { p: status_in_register(m.p), ..s }
}

/// `PLP`: pulls the status, with B cleared and U set.
pub open spec fn op_plp(m: Machine) -> Machine {
    Machine { p: status_in_register(top_of_stack(m)), ..pulled(m) }
}

/// `PLA`: pulls the accumulator.
pub open spec fn op_pla(m: Machine) -> Machine {
    with_a(pulled(m), top_of_stack(m))
}

/// `DEC` and `INC`: the operand, changed by one modulo 256 to `result`, is
/// written back at `addr_abs`.
pub open spec fn stepped<B: Write>(f: Machine, result: u8) -> Machine {
    Machine { mem: B::store(f.mem, f.addr_abs, result), p: with_zn(f.p, result), ..f }
}

/// What a mnemonic does to the machine.
pub open spec fn executed<B: Write>(m: Machine, opcode: Opcode) -> Machine {
    match opcode {
        Opcode::ADC => op_adc(m),
        Opcode::AND => op_and(m),
        Opcode::ASL => op_asl::<B>(m),
        Opcode::BCC => branched_if(m, !has_flag(m.p, StatusFlag::C)),
        Opcode::BCS => branched_if(m, has_flag(m.p, StatusFlag::C)),
        Opcode::BEQ => branched_if(m, has_flag(m.p, StatusFlag::Z)),
        Opcode::BIT => op_bit(m),
        Opcode::BMI => branched_if(m, has_flag(m.p, StatusFlag::N)),
        Opcode::BNE => branched_if(m, !has_flag(m.p, StatusFlag::Z)),
        Opcode::BPL => branched_if(m, !has_flag(m.p, StatusFlag::N)),
        Opcode::BRK => op_brk::<B>(m),
        Opcode::BVC => branched_if(m, !has_flag(m.p, StatusFlag::V)),
        Opcode::BVS => branched_if(m, has_flag(m.p, StatusFlag::V)),
        Opcode::CLC => Machine { p: with_flag(m.p, StatusFlag::C, false), ..m },
        Opcode::CLD => Machine { p: with_flag(m.p, StatusFlag::D, false), ..m },
        Opcode::CLI => Machine { p: with_flag(m.p, StatusFlag::I, false), ..m },
        Opcode::CLV => Machine { p: with_flag(m.p, StatusFlag::V, false), ..m },
        Opcode::CMP => compared(m, m.a),
        Opcode::CPX => compared(m, m.x),
        Opcode::CPY => compared(m, m.y),
        Opcode::DEC => stepped::<B>(with_operand(m), with_operand(m).fetched.wrapping_sub(1)),
        Opcode::DEX => with_x(m, m.x.wrapping_sub(1)),
        Opcode::DEY => with_y(m, m.y.wrapping_sub(1)),
        Opcode::EOR => op_eor(m),
        Opcode::INC => stepped::<B>(with_operand(m), with_operand(m).fetched.wrapping_add(1)),
        Opcode::INX => with_x(m, m.x.wrapping_add(1)),
        Opcode::INY => with_y(m, m.y.wrapping_add(1)),
        Opcode::JMP => Machine { pc: m.addr_abs, ..m },
        Opcode::JSR => op_jsr::<B>(m),
        Opcode::LDA => with_a(with_operand(m), with_operand(m).fetched),
        Opcode::LDX => with_x(with_operand(m), with_operand(m).fetched),
        Opcode::LDY => with_y(with_operand(m), with_operand(m).fetched),
        Opcode::LSR => op_lsr::<B>(m),
        Opcode::NOP => m,
        Opcode::ORA => op_ora(m),
        Opcode::PHA => pushed::<B>(m, m.a),
        Opcode::PHP => op_php::<B>(m),
        Opcode::PLA => op_pla(m),
        Opcode::PLP => op_plp(m),
        Opcode::ROL => op_rol::<B>(m),
        Opcode::ROR => op_ror::<B>(m),
        Opcode::RTI => op_rti(m),
        Opcode::RTS => op_rts(m),
        Opcode::SBC => op_sbc(m),
        Opcode::SEC => Machine { p: with_flag(m.p, StatusFlag::C, true), ..m },
        Opcode::SED => Machine { p: with_flag(m.p, StatusFlag::D, true), ..m },
        Opcode::SEI => Machine { p: with_flag(m.p, StatusFlag::I, true), ..m },
        Opcode::STA => Machine { mem: B::store(m.mem, m.addr_abs, m.a), ..m },
        Opcode::STX => Machine { mem: B::store(m.mem, m.addr_abs, m.x), ..m },
        Opcode::STY => Machine { mem: B::store(m.mem, m.addr_abs, m.y), ..m },
        Opcode::TAX => with_x(m, m.a),
        Opcode::TAY => with_y(m, m.a),
        Opcode::TSX => with_x(m, m.sp),
        Opcode::TXA => with_a(m, m.x),
        Opcode::TXS => Machine { sp: m.x, ..m },
        Opcode::TYA => with_a(m, m.y),
        Opcode::XXX => m,
    }
}

/// Whether a mnemonic takes the page-cross penalty of its addressing
/// mode, as 1 or 0: the ones that only read their operand do.
pub open spec fn consents(opcode: Opcode) -> u8 {
    match opcode {
        Opcode::ADC
        | Opcode::AND
        | Opcode::CMP
        | Opcode::EOR
        | Opcode::LDA
        | Opcode::LDX
        | Opcode::LDY
        | Opcode::ORA
        | Opcode::SBC => 1,
        _ => 0,
    }
}

impl<B: Write> CPU<B> {
    /// Sets Z and N after a result.
    fn set_zn(&mut self, v: u8)
        ensures
            final(self)@ == (Machine { p: with_zn(old(self)@.p, v), ..old(self)@ }),
    {
        self.set_flag(StatusFlag::Z, v == 0);
        self.set_flag(StatusFlag::N, negative(v));
    }

    /// Adds `operand` and the carry to the accumulator.
    fn add_with_carry(&mut self, operand: u8)
        ensures
            final(self)@ == added(old(self)@, operand),
    {
        let a: u8 = self.acc_reg;
        let sum: u16 = a as u16 + operand as u16 + self.get_flag(StatusFlag::C) as u16;
        let result: u8 = (sum & 0x00FF) as u8;
        self.set_flag(StatusFlag::C, sum > 255);
        self.set_flag(StatusFlag::Z, result == 0);
        self.set_flag(StatusFlag::V, ((a ^ result) & (operand ^ result) & 0x80) != 0);
        self.set_flag(StatusFlag::N, negative(result));
        self.acc_reg = result;
    }

    /// Puts `v` in the accumulator and sets Z and N.
    fn load_a(&mut self, v: u8)
        ensures
            final(self)@ == with_a(old(self)@, v),
    {
        self.acc_reg = v;
        self.set_zn(v);
    }

    /// Puts `v` in X and sets Z and N.
    fn load_x(&mut self, v: u8)
        ensures
            final(self)@ == with_x(old(self)@, v),
    {
        self.x_reg = v;
        self.set_zn(v);
    }

    /// Puts `v` in Y and sets Z and N.
    fn load_y(&mut self, v: u8)
        ensures
            final(self)@ == with_y(old(self)@, v),
    {
        self.y_reg = v;
        self.set_zn(v);
    }

    /// Compares `register` with the operand.
    fn compare(&mut self, register: u8)
        ensures
            final(self)@ == compared(old(self)@, register),
    {
        let operand: u8 = self.fetch();
        self.set_flag(StatusFlag::C, register >= operand);
        self.set_zn(register.wrapping_sub(operand));
    }

    /// Finishes a shift or rotate: sets C, Z and N and puts the result back
    /// where the operand came from.
    fn shift_to(&mut self, result: u8, carry: bool)
        ensures
            final(self)@ == shifted::<B>(old(self)@, result, carry),
    {
        self.set_flag(StatusFlag::C, carry);
        self.set_zn(result);
        if self.lookup(self.opcode).addressing_mode == AddressingMode::IMP {
            self.acc_reg = result;
        } else {
            self.write(self.addr_abs, result);
        }
    }

    fn asl(&mut self)
        ensures
            final(self)@ == op_asl::<B>(old(self)@),
    {
        let operand: u8 = self.fetch();
        let wide: u16 = (operand as u16) << 1;
        self.shift_to((wide & 0x00FF) as u8, (wide & 0xFF00) != 0);
    }

    fn lsr(&mut self)
        ensures
            final(self)@ == op_lsr::<B>(old(self)@),
    {
        let operand: u8 = self.fetch();
        self.shift_to(operand >> 1, operand & 0x01 != 0);
    }

    fn rol(&mut self)
        ensures
            final(self)@ == op_rol::<B>(old(self)@),
    {
        let operand: u8 = self.fetch();
        let wide: u16 = ((operand as u16) << 1) | (self.get_flag(StatusFlag::C) as u16);
        self.shift_to((wide & 0x00FF) as u8, (wide & 0xFF00) != 0);
    }

    fn ror(&mut self)
        ensures
            final(self)@ == op_ror::<B>(old(self)@),
    {
        let operand: u8 = self.fetch();
        let result: u8 = (self.get_flag(StatusFlag::C) << 7) | (operand >> 1);
        self.shift_to(result, operand & 0x01 != 0);
    }

    fn bit(&mut self)
        ensures
            final(self)@ == op_bit(old(self)@),
    {
        let operand: u8 = self.fetch();
        self.set_flag(StatusFlag::Z, (self.acc_reg & operand) == 0);
        self.set_flag(StatusFlag::N, operand & 0x80 != 0);
        self.set_flag(StatusFlag::V, operand & 0x40 != 0);
    }

    /// Takes a branch: moves the program counter by the offset in
    /// `addr_rel` and charges one cycle, two where the target lies in
    /// another page.
    pub fn branch(&mut self)
        ensures
            final(self)@ == branched(old(self)@),
    {
        self.cycles = self.cycles.wrapping_add(1);
        self.addr_abs = self.pgrm_ctr.wrapping_add(self.addr_rel);
        if page(self.addr_abs) != page(self.pgrm_ctr) {
            self.cycles = self.cycles.wrapping_add(1);
        }
        self.pgrm_ctr = self.addr_abs;
    }

    fn branch_if(&mut self, condition: bool)
        ensures
            final(self)@ == branched_if(old(self)@, condition),
    {
        if condition {
            self.branch();
        }
    }

    /// Pushes a byte on the stack.
    pub(crate) fn push(&mut self, byte: u8)
        ensures
            final(self)@ == pushed::<B>(old(self)@, byte),
    {
        self.write(0x0100 + self.stk_ptr as u16, byte);
        self.stk_ptr = self.stk_ptr.wrapping_sub(1);
    }

    /// Pulls a byte off the stack.
    fn pull(&mut self) -> (byte: u8)
        ensures
            final(self)@ == pulled(old(self)@),
            byte == top_of_stack(old(self)@),
    {
        self.stk_ptr = self.stk_ptr.wrapping_add(1);
        self.read(0x0100 + self.stk_ptr as u16, false)
    }

    fn brk(&mut self)
        ensures
            final(self)@ == op_brk::<B>(old(self)@),
    {
        self.pgrm_ctr = self.pgrm_ctr.wrapping_add(1);
        let ret: u16 = self.pgrm_ctr;
        self.push(hi(ret));
        self.push(lo(ret));
        let status: u8 = self.status | StatusFlag::B.bit() | StatusFlag::U.bit();
        self.push(status);
        self.set_flag(StatusFlag::I, true);
        self.set_flag(StatusFlag::B, false);
        let low: u8 = self.read(0xFFFE, false);
        let high: u8 = self.read(0xFFFF, false);
        self.pgrm_ctr = word(low, high);
    }

    fn jsr(&mut self)
        ensures
            final(self)@ == op_jsr::<B>(old(self)@),
    {
        self.pgrm_ctr = self.pgrm_ctr.wrapping_sub(1);
        let ret: u16 = self.pgrm_ctr;
        self.push(hi(ret));
        self.push(lo(ret));
        self.pgrm_ctr = self.addr_abs;
    }

    fn rts(&mut self)
        ensures
            final(self)@ == op_rts(old(self)@),
    {
        let low: u8 = self.pull();
        let high: u8 = self.pull();
        self.pgrm_ctr = word(low, high).wrapping_add(1);
    }

    /// Loads the status from a byte that came off the stack.
    pub(crate) fn restore_status(&mut self, byte: u8)
        ensures
            final(self)@ == (Machine { p: status_in_register(byte), ..old(self)@ }),
    {
        self.status = byte;
        self.set_flag(StatusFlag::B, false);
        self.set_flag(StatusFlag::U, true);
    }

    fn rti(&mut self)
        ensures
            final(self)@ == op_rti(old(self)@),
    {
        let status: u8 = self.pull();
        self.restore_status(status);
        let low: u8 = self.pull();
        let high: u8 = self.pull();
        self.pgrm_ctr = word(low, high);
    }

    fn php(&mut self)
        ensures
            final(self)@ == op_php::<B>(old(self)@),
    {
        let status: u8 = self.status | StatusFlag::B.bit() | StatusFlag::U.bit();
        self.push(status);
        self.set_flag(StatusFlag::B, false);
        self.set_flag(StatusFlag::U, true);
    }

    /// Writes the operand, changed to `result`, back and sets Z and N.
    fn step_to(&mut self, result: u8)
        ensures
            final(self)@ == stepped::<B>(old(self)@, result),
    {
        self.write(self.addr_abs, result);
        self.set_zn(result);
    }

    /// Carries out one mnemonic on the operand that the addressing mode
    /// resolved, and returns 1 where the mnemonic takes the mode's
    /// page-cross penalty, 0 where it does not.
    pub fn operation(&mut self, opcode: Opcode) -> (consent: u8)
        ensures
            final(self)@ == executed::<B>(old(self)@, opcode),
            consent == consents(opcode),
    {
        match opcode {
            Opcode::ADC => {
                let operand: u8 = self.fetch();
                self.add_with_carry(operand);
                1
            },
            Opcode::AND => {
                let operand: u8 = self.fetch();
                self.load_a(self.acc_reg & operand);
                1
            },
            Opcode::ASL => {
                self.asl();
                0
            },
            Opcode::BCC => {
                self.branch_if(self.get_flag(StatusFlag::C) == 0);
                0
            },
            Opcode::BCS => {
                self.branch_if(self.get_flag(StatusFlag::C) == 1);
                0
            },
            Opcode::BEQ => {
                self.branch_if(self.get_flag(StatusFlag::Z) == 1);
                0
            },
            Opcode::BIT => {
                self.bit();
                0
            },
            Opcode::BMI => {
                self.branch_if(self.get_flag(StatusFlag::N) == 1);
                0
            },
            Opcode::BNE => {
                self.branch_if(self.get_flag(StatusFlag::Z) == 0);
                0
            },
            Opcode::BPL => {
                self.branch_if(self.get_flag(StatusFlag::N) == 0);
                0
            },
            Opcode::BRK => {
                self.brk();
                0
            },
            Opcode::BVC => {
                self.branch_if(self.get_flag(StatusFlag::V) == 0);
                0
            },
            Opcode::BVS => {
                self.branch_if(self.get_flag(StatusFlag::V) == 1);
                0
            },
            Opcode::CLC => {
                self.set_flag(StatusFlag::C, false);
                0
            },
            Opcode::CLD => {
                self.set_flag(StatusFlag::D, false);
                0
            },
            Opcode::CLI => {
                self.set_flag(StatusFlag::I, false);
                0
            },
            Opcode::CLV => {
                self.set_flag(StatusFlag::V, false);
                0
            },
            Opcode::CMP => {
                self.compare(self.acc_reg);
                1
            },
            Opcode::CPX => {
                self.compare(self.x_reg);
                0
            },
            Opcode::CPY => {
                self.compare(self.y_reg);
                0
            },
            Opcode::DEC => {
                let operand: u8 = self.fetch();
                self.step_to(operand.wrapping_sub(1));
                0
            },
            Opcode::DEX => {
                self.load_x(self.x_reg.wrapping_sub(1));
                0
            },
            Opcode::DEY => {
                self.load_y(self.y_reg.wrapping_sub(1));
                0
            },
            Opcode::EOR => {
                let operand: u8 = self.fetch();
                self.load_a(self.acc_reg ^ operand);
                1
            },
            Opcode::INC => {
                let operand: u8 = self.fetch();
                self.step_to(operand.wrapping_add(1));
                0
            },
            Opcode::INX => {
                self.load_x(self.x_reg.wrapping_add(1));
                0
            },
            Opcode::INY => {
                self.load_y(self.y_reg.wrapping_add(1));
                0
            },
            Opcode::JMP => {
                self.pgrm_ctr = self.addr_abs;
                0
            },
            Opcode::JSR => {
                self.jsr();
                0
            },
            Opcode::LDA => {
                let operand: u8 = self.fetch();
                self.load_a(operand);
                1
            },
            Opcode::LDX => {
                let operand: u8 = self.fetch();
                self.load_x(operand);
                1
            },
            Opcode::LDY => {
                let operand: u8 = self.fetch();
                self.load_y(operand);
                1
            },
            Opcode::LSR => {
                self.lsr();
                0
            },
            Opcode::NOP => 0,
            Opcode::ORA => {
                let operand: u8 = self.fetch();
                self.load_a(self.acc_reg | operand);
                1
            },
            Opcode::PHA => {
                self.push(self.acc_reg);
                0
            },
            Opcode::PHP => {
                self.php();
                0
            },
            Opcode::PLA => {
                let byte: u8 = self.pull();
                self.load_a(byte);
                0
            },
            Opcode::PLP => {
                let byte: u8 = self.pull();
                self.restore_status(byte);
                0
            },
            Opcode::ROL => {
                self.rol();
                0
            },
            Opcode::ROR => {
                self.ror();
                0
            },
            Opcode::RTI => {
                self.rti();
                0
            },
            Opcode::RTS => {
                self.rts();
                0
            },
            Opcode::SBC => {
                let operand: u8 = self.fetch();
                self.add_with_carry(operand ^ 0xFF);
                1
            },
            Opcode::SEC => {
                self.set_flag(StatusFlag::C, true);
                0
            },
            Opcode::SED => {
                self.set_flag(StatusFlag::D, true);
                0
            },
            Opcode::SEI => {
                self.set_flag(StatusFlag::I, true);
                0
            },
            Opcode::STA => {
                self.write(self.addr_abs, self.acc_reg);
                0
            },
            Opcode::STX => {
                self.write(self.addr_abs, self.x_reg);
                0
            },
            Opcode::STY => {
                self.write(self.addr_abs, self.y_reg);
                0
            },
            Opcode::TAX => {
                self.load_x(self.acc_reg);
                0
            },
            Opcode::TAY => {
                self.load_y(self.acc_reg);
                0
            },
            Opcode::TSX => {
                self.load_x(self.stk_ptr);
                0
            },
            Opcode::TXA => {
                self.load_a(self.x_reg);
                0
            },
            Opcode::TXS => {
                self.stk_ptr = self.x_reg;
                0
            },
            Opcode::TYA => {
                self.load_a(self.y_reg);
                0
            },
            Opcode::XXX => 0,
        }
    }
}

} // verus!
