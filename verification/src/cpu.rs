//! The processor: its registers, its status flags, and the clock that drives
//! fetch, decode, address resolution and execution.
use vstd::prelude::*;
use crate::addressing_mode::{page_penalty, resolved, AddressingMode};
use crate::bits::{bit7, hi, high_byte, lo, low_byte, word, word_of};
use crate::instruction::{instruction_for, Instruction};
use crate::op_code::{consents, executed, pushed, status_in_register};
use crate::{Read, Write};

verus! {

/// The bits of the status register.
#[derive(Clone, Copy, Debug, PartialEq, Eq, Structural)]
pub enum StatusFlag {
    /// Carry, bit 0.
    C,
    /// Zero, bit 1.
    Z,
    /// Interrupt disable, bit 2.
    I,
    /// Decimal, bit 3. The console's processor ignores it.
    D,
    /// Break, bit 4. Set only in the copy of the status that goes on the stack.
    B,
    /// Unused, bit 5. Always reads 1.
    U,
    /// Overflow, bit 6.
    V,
    /// Negative, bit 7.
    N,
}

impl StatusFlag {
    /// The flag's bit in the status register.
    pub open spec fn mask(self) -> u8 {
        match self {
            StatusFlag::C => 0x01,
            StatusFlag::Z => 0x02,
            StatusFlag::I => 0x04,
            StatusFlag::D => 0x08,
            StatusFlag::B => 0x10,
            StatusFlag::U => 0x20,
            StatusFlag::V => 0x40,
            StatusFlag::N => 0x80,
        }
    }

    /// The flag's bit in the status register.
    pub fn bit(&self) -> (b: u8)
        ensures
            b == self.mask(),
    {
        match self {
            StatusFlag::C => 0x01,
            StatusFlag::Z => 0x02,
            StatusFlag::I => 0x04,
            StatusFlag::D => 0x08,
            StatusFlag::B => 0x10,
            StatusFlag::U => 0x20,
            StatusFlag::V => 0x40,
            StatusFlag::N => 0x80,
        }
    }
}

/// Whether `flag` is set in the status byte `p`.
pub open spec fn has_flag(p: u8, flag: StatusFlag) -> bool {
    p & flag.mask() != 0
}

/// The flag `flag` of the status byte `p` as a number, 0 or 1.
pub open spec fn flag_bit(p: u8, flag: StatusFlag) -> u8 {
    if has_flag(p, flag) {
        1
    } else {
        0
    }
}

/// The status byte `p` with `flag` set or cleared and every other bit kept.
pub open spec fn with_flag(p: u8, flag: StatusFlag, on: bool) -> u8 {
    if on {
        p | flag.mask()
    } else {
        p & !flag.mask()
    }
}

/// A flag reads as it was last written, and writing one flag leaves the
/// other seven as they were.
pub proof fn lemma_flag_written(p: u8, flag: StatusFlag, on: bool, other: StatusFlag)
    ensures
        has_flag(with_flag(p, flag, on), flag) == on,
        other != flag ==> has_flag(with_flag(p, flag, on), other) == has_flag(p, other),
{
    let m: u8 = flag.mask();
    let g: u8 = other.mask();
    assert((p | m) & m != 0 && (p & !m) & m == 0) by (bit_vector)
        requires
            m == 0x01 || m == 0x02 || m == 0x04 || m == 0x08 || m == 0x10 || m == 0x20 || m == 0x40
                || m == 0x80,
    ;
    if other != flag {
        assert(((p | m) & g != 0) == (p & g != 0) && ((p & !m) & g != 0) == (p & g != 0))
            by (bit_vector)
            requires
                m == 0x01 || m == 0x02 || m == 0x04 || m == 0x08 || m == 0x10 || m == 0x20 || m
                    == 0x40 || m == 0x80,
                g == 0x01 || g == 0x02 || g == 0x04 || g == 0x08 || g == 0x10 || g == 0x20 || g
                    == 0x40 || g == 0x80,
                m != g,
        ;
    }
}

/// The status byte `p` after a result `v`: Z says that `v` is zero, N that
/// bit 7 of `v` is set.
pub open spec fn with_zn(p: u8, v: u8) -> u8 {
    with_flag(with_flag(p, StatusFlag::Z, v == 0), StatusFlag::N, bit7(v))
}

/// The eight flags, each as 0 or 1.
#[allow(non_snake_case)]
#[derive(Clone, Copy, Debug, Default, PartialEq, Eq)]
pub struct FlagData {
    pub C: u8,
    pub Z: u8,
    pub I: u8,
    pub D: u8,
    pub B: u8,
    pub U: u8,
    pub V: u8,
    pub N: u8,
}

/// The eight flags of the status byte `p`.
pub open spec fn flags_of(p: u8) -> FlagData {
    FlagData {
        C: flag_bit(p, StatusFlag::C),
        Z: flag_bit(p, StatusFlag::Z),
        I: flag_bit(p, StatusFlag::I),
        D: flag_bit(p, StatusFlag::D),
        B: flag_bit(p, StatusFlag::B),
        U: flag_bit(p, StatusFlag::U),
        V: flag_bit(p, StatusFlag::V),
        N: flag_bit(p, StatusFlag::N),
    }
}

/// A copy of everything the processor holds but the memory, with the table
/// entry of the opcode it last fetched.
#[derive(Clone, Copy, Debug)]
pub struct CpuDebugInfo {
    pub acc_reg: u8,
    pub x_reg: u8,
    pub y_reg: u8,
    pub stk_ptr: u8,
    pub pgrm_ctr: u16,
    pub status: u8,
    pub fetched: u8,
    pub addr_abs: u16,
    pub addr_rel: u16,
    pub opcode_index: u8,
    pub opcode: Instruction,
    pub cycles: u8,
}

/// The machine as mathematics: the registers, the bookkeeping of the
/// instruction in flight, and the byte at each address.
#[verifier::ext_equal]
pub struct Machine {
    /// The accumulator.
    pub a: u8,
    /// The X index register.
    pub x: u8,
    /// The Y index register.
    pub y: u8,
    /// The stack pointer; the stack lives at `0x0100 + sp`.
    pub sp: u8,
    /// The program counter.
    pub pc: u16,
    /// The status register.
    pub p: u8,
    /// The operand byte last fetched.
    pub fetched: u8,
    /// The effective address of the instruction in flight.
    pub addr_abs: u16,
    /// The sign-extended offset of a branch.
    pub addr_rel: u16,
    /// The opcode byte last fetched.
    pub opcode: u8,
    /// The cycles that the instruction in flight still owes.
    pub cycles: u8,
    /// The byte at each address.
    pub mem: Seq<u8>,
}

/// What an inspector is shown of the machine `m`.
pub open spec fn debug_info_of(m: Machine) -> CpuDebugInfo {
    CpuDebugInfo {
        acc_reg: m.a,
        x_reg: m.x,
        y_reg: m.y,
        stk_ptr: m.sp,
        pgrm_ctr: m.pc,
        status: m.p,
        fetched: m.fetched,
        addr_abs: m.addr_abs,
        addr_rel: m.addr_rel,
        opcode_index: m.opcode,
        opcode: instruction_for(m.opcode),
        cycles: m.cycles,
    }
}

/// The address of the stack slot that `sp` points at.
pub open spec fn stack_slot(sp: u8) -> u16 {
    (0x0100 + sp) as u16
}

/// The machine after a reset: registers cleared, the stack pointer at
/// `0xFD`, U and I set, the program counter loaded from the reset vector at
/// `0xFFFC` (low) and `0xFFFD` (high), and seven cycles owed. The memory and
/// the opcode byte stay.
pub open spec fn reset_state(m: Machine) -> Machine {
    Machine {
        a: 0,
        x: 0,
        y: 0,
        sp: 0xFD,
        pc: word_of(m.mem[0xFFFC], m.mem[0xFFFD]),
        p: 0x24,
        fetched: 0,
        addr_abs: 0,
        addr_rel: 0,
        cycles: 7,
        ..m
    }
}

/// The machine after an interrupt was taken through the vector at
/// `vector`: the program counter (high byte first) and the status (B
/// cleared, U set) are on the stack, I is set, the program counter comes
/// from the vector, and `cost` cycles are owed.
pub open spec fn interrupted<B: Write>(m: Machine, vector: u16, cost: u8) -> Machine {
    let s = pushed::<B>(m, high_byte(m.pc));
    let s = pushed::<B>(s, low_byte(m.pc));
    let s = pushed::<B>(s, status_in_register(m.p));
    Machine {
        p: with_flag(status_in_register(m.p), StatusFlag::I, true),
        pc: word_of(s.mem[vector as int], s.mem[vector.wrapping_add(1) as int]),
        cycles: cost,
        ..s
    }
}

/// The machine with the operand of the instruction in flight in `fetched`:
/// an implied instruction already has it, any other reads it at `addr_abs`.
pub open spec fn with_operand(m: Machine) -> Machine {
    if instruction_for(m.opcode).addressing_mode == AddressingMode::IMP {
        m
    } else {
        Machine { fetched: m.mem[m.addr_abs as int], ..m }
    }
}

/// The machine after the instruction at the program counter ran: the
/// opcode byte is fetched and stepped over, its table entry found, its
/// operand resolved and its mnemonic carried out. The cycles owed are the
/// entry's base cycles, what a taken branch adds, and one more where both
/// the addressing mode and the mnemonic ask for the page-cross penalty.
pub open spec fn instruction_run<B: Write>(m: Machine) -> Machine {
    let opcode: u8 = m.mem[m.pc as int];
    let instruction = instruction_for(opcode);
    let start = Machine { opcode, pc: m.pc.wrapping_add(1), cycles: instruction.cycles, ..m };
    let done = executed::<B>(resolved(start, instruction.addressing_mode), instruction.opcode);
    let penalty: u8 = page_penalty(start, instruction.addressing_mode) & consents(instruction.opcode);
    Machine { cycles: done.cycles.wrapping_add(penalty), ..done }
}

/// The machine one clock tick later. While the instruction in flight owes
/// cycles, a tick pays one of them; once none is owed, the tick runs the
/// next instruction. Either way the tick leaves U set.
pub open spec fn tick<B: Write>(m: Machine) -> Machine {
    let next = if m.cycles > 0 {
        Machine { cycles: (m.cycles - 1) as u8, ..m }
    } else {
        instruction_run::<B>(m)
    };
    Machine { p: with_flag(next.p, StatusFlag::U, true), ..next }
}

/// A 6502 on a bus `B`.
pub struct CPU<B: Write> {
    /// What the processor reads from and writes to.
    pub bus: B,
    pub acc_reg: u8,
    pub x_reg: u8,
    pub y_reg: u8,
    pub stk_ptr: u8,
    pub pgrm_ctr: u16,
    pub status: u8,
    pub fetched: u8,
    pub addr_abs: u16,
    pub addr_rel: u16,
    pub opcode: u8,
    pub cycles: u8,
}

impl<B: Write> View for CPU<B> {
    type V = Machine;

    open spec fn view(&self) -> Machine {
        Machine {
            a: self.acc_reg,
            x: self.x_reg,
            y: self.y_reg,
            sp: self.stk_ptr,
            pc: self.pgrm_ctr,
            p: self.status,
            fetched: self.fetched,
            addr_abs: self.addr_abs,
            addr_rel: self.addr_rel,
            opcode: self.opcode,
            cycles: self.cycles,
            mem: self.bus.mem(),
        }
    }
}

impl<B: Write> Read for CPU<B> {
    /// The processor sees what its bus sees.
    open spec fn mem(&self) -> Seq<u8> {
        self.bus.mem()
    }

    proof fn address_space(&self) {
        self.bus.address_space();
    }

    fn read(&self, addr: u16, _read_only: bool) -> (data: u8) {
        self.bus.read(addr, _read_only)
    }
}

impl<B: Write> Write for CPU<B> {
    open spec fn store(mem: Seq<u8>, addr: u16, data: u8) -> Seq<u8> {
        B::store(mem, addr, data)
    }

    fn write(&mut self, addr: u16, data: u8)
        ensures
            final(self)@ == (Machine { mem: B::store(old(self)@.mem, addr, data), ..old(self)@ }),
    {
        self.bus.write(addr, data)
    }
}

impl<B: Write> CPU<B> {
    /// A processor on `bus` with every register zero. It is ready to run
    /// after a [`CPU::reset`].
    pub fn new(bus: B) -> (cpu: Self)
        ensures
            cpu.bus == bus,
            cpu@ == (Machine {
                a: 0,
                x: 0,
                y: 0,
                sp: 0,
                pc: 0,
                p: 0,
                fetched: 0,
                addr_abs: 0,
                addr_rel: 0,
                opcode: 0,
                cycles: 0,
                mem: bus.mem(),
            }),
    {
        CPU {
            bus,
            acc_reg: 0,
            x_reg: 0,
            y_reg: 0,
            stk_ptr: 0,
            pgrm_ctr: 0,
            status: 0,
            fetched: 0,
            addr_abs: 0,
            addr_rel: 0,
            opcode: 0,
            cycles: 0,
        }
    }

    /// Resets the processor.
    pub fn reset(&mut self)
        ensures
            final(self)@ == reset_state(old(self)@),
    {
        let low: u8 = self.read(0xFFFC, false);
        let high: u8 = self.read(0xFFFD, false);
        self.pgrm_ctr = word(low, high);
        self.acc_reg = 0;
        self.x_reg = 0;
        self.y_reg = 0;
        self.stk_ptr = 0xFD;
        self.status = 0x24;
        self.addr_rel = 0;
        self.addr_abs = 0;
        self.fetched = 0;
        self.cycles = 7;
    }

    /// Enters an interrupt through the vector at `vector`.
    fn interrupt(&mut self, vector: u16, cost: u8)
        ensures
            final(self)@ == interrupted::<B>(old(self)@, vector, cost),
    {
        let ret: u16 = self.pgrm_ctr;
        self.push(hi(ret));
        self.push(lo(ret));
        self.restore_status(self.status);
        self.push(self.status);
        self.set_flag(StatusFlag::I, true);
        let low: u8 = self.read(vector, false);
        let high: u8 = self.read(vector.wrapping_add(1), false);
        self.pgrm_ctr = word(low, high);
        self.cycles = cost;
    }

    /// The entry point of an interrupt request, for a host to call between
    /// instructions. While I is set the request is ignored; otherwise the
    /// processor enters the handler at the vector `0xFFFE`, which costs
    /// seven cycles.
    pub fn irq(&mut self)
        ensures
            final(self)@ == if has_flag(old(self)@.p, StatusFlag::I) {
                old(self)@
            } else {
                interrupted::<B>(old(self)@, 0xFFFE, 7)
            },
    {
        if self.get_flag(StatusFlag::I) == 0 {
            self.interrupt(0xFFFE, 7);
        }
    }

    /// The entry point of a non-maskable interrupt, for a host to call
    /// between instructions. The processor enters the handler at the vector
    /// `0xFFFA`, which costs eight cycles.
    pub fn nmi(&mut self)
        ensures
            final(self)@ == interrupted::<B>(old(self)@, 0xFFFA, 8),
    {
        self.interrupt(0xFFFA, 8);
    }

    /// Advances the processor by exactly one cycle.
    pub fn clock(&mut self)
        ensures
            final(self)@ == tick::<B>(old(self)@),
            has_flag(final(self).status, StatusFlag::U),
    {
        if self.cycles == 0 {
            self.opcode = self.read(self.pgrm_ctr, false);
            self.pgrm_ctr = self.pgrm_ctr.wrapping_add(1);
            let instruction = self.lookup(self.opcode);
            self.cycles = instruction.cycles;
            let penalty: u8 = self.address(instruction.addressing_mode);
            let consent: u8 = self.operation(instruction.opcode);
            self.cycles = self.cycles.wrapping_add(penalty & consent);
        } else {
            self.cycles = self.cycles - 1;
        }
        let ghost before: u8 = self.status;
        self.set_flag(StatusFlag::U, true);
        proof {
            lemma_flag_written(before, StatusFlag::U, true, StatusFlag::U);
        }
    }

    /// Brings the operand of the instruction in flight into `fetched` and
    /// returns it.
    pub fn fetch(&mut self) -> (operand: u8)
        ensures
            final(self)@ == with_operand(old(self)@),
            operand == with_operand(old(self)@).fetched,
    {
        if !(self.lookup(self.opcode).addressing_mode == AddressingMode::IMP) {
            self.fetched = self.read(self.addr_abs, false);
        }
        self.fetched
    }

    /// Reads one flag as 0 or 1.
    pub fn get_flag(&self, flag: StatusFlag) -> (value: u8)
        ensures
            value == flag_bit(self.status, flag),
    {
        if (self.status & flag.bit()) != 0 {
            1
        } else {
            0
        }
    }

    /// Sets or clears one flag and keeps everything else.
    pub fn set_flag(&mut self, flag: StatusFlag, set: bool)
        ensures
            final(self)@ == (Machine { p: with_flag(old(self)@.p, flag, set), ..old(self)@ }),
    {
        if set {
            self.status = self.status | flag.bit();
        } else {
            self.status = self.status & !flag.bit();
        }
    }

    /// Reads all eight flags.
    pub fn get_flag_data(&self) -> (flags: FlagData)
        ensures
            flags == flags_of(self.status),
    {
        FlagData {
            C: self.get_flag(StatusFlag::C),
            Z: self.get_flag(StatusFlag::Z),
            I: self.get_flag(StatusFlag::I),
            D: self.get_flag(StatusFlag::D),
            B: self.get_flag(StatusFlag::B),
            U: self.get_flag(StatusFlag::U),
            V: self.get_flag(StatusFlag::V),
            N: self.get_flag(StatusFlag::N),
        }
    }

    /// Copies the registers and the bookkeeping out, for an inspector.
    pub fn get_cpu_debug_info(&self) -> (info: CpuDebugInfo)
        ensures
            info == debug_info_of(self@),
    {
        CpuDebugInfo {
            acc_reg: self.acc_reg,
            x_reg: self.x_reg,
            y_reg: self.y_reg,
            stk_ptr: self.stk_ptr,
            pgrm_ctr: self.pgrm_ctr,
            status: self.status,
            fetched: self.fetched,
            addr_abs: self.addr_abs,
            addr_rel: self.addr_rel,
            opcode_index: self.opcode,
            opcode: self.lookup(self.opcode),
            cycles: self.cycles,
        }
    }
}

} // verus!
