//! The addressing modes and the resolver that turns operand bytes into an
//! effective address.
use vstd::prelude::*;
use crate::bits::{page, page_of, sign_extend, sign_extended, word, word_of};
use crate::cpu::{Machine, CPU};
use crate::{Read, Write};

verus! {

/// How an instruction finds its operand.
#[derive(Clone, Copy, Debug, PartialEq, Eq, Structural)]
pub enum AddressingMode {
    /// Implied: no operand bytes; the accumulator stands in for the operand.
    IMP,
    /// Immediate: the operand is the byte after the opcode.
    IMM,
    /// Zero page.
    ZP0,
    /// Zero page, indexed by X.
    ZPX,
    /// Zero page, indexed by Y.
    ZPY,
    /// Relative: a signed 8-bit branch offset.
    REL,
    /// Absolute.
    ABS,
    /// Absolute, indexed by X.
    ABX,
    /// Absolute, indexed by Y.
    ABY,
    /// Indirect, used by `JMP` only.
    IND,
    /// Zero-page pointer, indexed by X before it is followed.
    IZX,
    /// Zero-page pointer, indexed by Y after it is followed.
    IZY,
}

/// The first operand byte: the byte at the program counter.
pub open spec fn operand_byte(m: Machine) -> u8 {
    m.mem[m.pc as int]
}

/// The two operand bytes as a little-endian word.
pub open spec fn operand_word(m: Machine) -> u16 {
    word_of(m.mem[m.pc as int], m.mem[m.pc.wrapping_add(1) as int])
}

/// `base` plus an index register, modulo 65,536.
pub open spec fn indexed(base: u16, index: u8) -> u16 {
    base.wrapping_add(index as u16)
}

/// Whether indexing moves the address out of the page of `base`.
pub open spec fn crosses_page(base: u16, index: u8) -> bool {
    page_of(indexed(base, index)) != page_of(base)
}

/// The word that a zero-page pointer at `zp` points to. The high byte comes
/// from the next zero-page cell, wrapping inside the zero page.
pub open spec fn zero_page_word(m: Machine, zp: u8) -> u16 {
    word_of(m.mem[zp as int], m.mem[zp.wrapping_add(1) as int])
}

/// The target of an indirect jump through the pointer in the operand
/// bytes. Where the pointer's low byte is `0xFF`, the target's high byte
/// comes from the start of the pointer's own page, not from the next page:
/// the processor does not carry into the pointer's high byte.
pub open spec fn indirect_target(m: Machine) -> u16 {
    let ptr = operand_word(m);
    if operand_byte(m) == 0xFF {
        word_of(m.mem[ptr as int], m.mem[page_of(ptr) as int])
    } else {
        word_of(m.mem[ptr as int], m.mem[ptr.wrapping_add(1) as int])
    }
}

/// The machine after the operand bytes of `mode` were consumed: the program
/// counter stands behind them, and `addr_abs`, `addr_rel` or `fetched` holds
/// what the mode resolves to.
pub open spec fn resolved(m: Machine, mode: AddressingMode) -> Machine {
    match mode {
        AddressingMode::IMP => Machine { fetched: m.a, ..m },
        AddressingMode::IMM => Machine { addr_abs: m.pc, pc: m.pc.wrapping_add(1), ..m },
        AddressingMode::ZP0 => Machine {
            addr_abs: operand_byte(m) as u16,
            pc: m.pc.wrapping_add(1),
            ..m
        },
        AddressingMode::ZPX => Machine {
            addr_abs: operand_byte(m).wrapping_add(m.x) as u16,
            pc: m.pc.wrapping_add(1),
            ..m
        },
        AddressingMode::ZPY => Machine {
            addr_abs: operand_byte(m).wrapping_add(m.y) as u16,
            pc: m.pc.wrapping_add(1),
            ..m
        },
        AddressingMode::REL => Machine {
            addr_rel: sign_extended(operand_byte(m)),
            pc: m.pc.wrapping_add(1),
            ..m
        },
        AddressingMode::ABS => Machine { addr_abs: operand_word(m), pc: m.pc.wrapping_add(2), ..m },
        AddressingMode::ABX => Machine {
            addr_abs: indexed(operand_word(m), m.x),
            pc: m.pc.wrapping_add(2),
            ..m
        },
        AddressingMode::ABY => Machine {
            addr_abs: indexed(operand_word(m), m.y),
            pc: m.pc.wrapping_add(2),
            ..m
        },
        AddressingMode::IND => Machine { addr_abs: indirect_target(m), pc: m.pc.wrapping_add(2), ..m },
        AddressingMode::IZX => Machine {
            addr_abs: zero_page_word(m, operand_byte(m).wrapping_add(m.x)),
            pc: m.pc.wrapping_add(1),
            ..m
        },
        AddressingMode::IZY => Machine {
            addr_abs: indexed(zero_page_word(m, operand_byte(m)), m.y),
            pc: m.pc.wrapping_add(1),
            ..m
        },
    }
}

/// The extra cycle that `mode` asks for: 1 where an indexed mode leaves the
/// page of its base address, 0 otherwise.
pub open spec fn page_penalty(m: Machine, mode: AddressingMode) -> u8 {
    match mode {
        AddressingMode::ABX => if crosses_page(operand_word(m), m.x) { 1 } else { 0 },
        AddressingMode::ABY => if crosses_page(operand_word(m), m.y) { 1 } else { 0 },
        AddressingMode::IZY => if crosses_page(zero_page_word(m, operand_byte(m)), m.y) { 1 } else { 0 },
        _ => 0,
    }
}

impl<B: Write> CPU<B> {
    /// Reads the byte at the program counter and steps over it.
    fn take_byte(&mut self) -> (b: u8)
        ensures
            b == operand_byte(old(self)@),
            final(self)@ == (Machine { pc: old(self)@.pc.wrapping_add(1), ..old(self)@ }),
    {
        let b: u8 = self.read(self.pgrm_ctr, false);
        self.pgrm_ctr = self.pgrm_ctr.wrapping_add(1);
        b
    }

    /// Reads the little-endian word at the program counter and steps over it.
    fn take_word(&mut self) -> (w: u16)
        ensures
            w == operand_word(old(self)@),
            final(self)@ == (Machine { pc: old(self)@.pc.wrapping_add(2), ..old(self)@ }),
    {
        let low: u8 = self.take_byte();
        let high: u8 = self.take_byte();
        word(low, high)
    }

    /// Reads the word that the zero-page pointer at `zp` points to.
    fn read_zero_page_word(&self, zp: u8) -> (w: u16)
        ensures
            w == zero_page_word(self@, zp),
    {
        let low: u8 = self.read(zp as u16, false);
        let high: u8 = self.read(zp.wrapping_add(1) as u16, false);
        word(low, high)
    }

    /// Sets `addr_abs` to `base` plus `index` and says whether that left the
    /// page of `base`.
    fn index_from(&mut self, base: u16, index: u8) -> (penalty: u8)
        ensures
            final(self)@ == (Machine { addr_abs: indexed(base, index), ..old(self)@ }),
            penalty == if crosses_page(base, index) { 1u8 } else { 0u8 },
    {
        self.addr_abs = base.wrapping_add(index as u16);
        if page(self.addr_abs) != page(base) {
            1
        } else {
            0
        }
    }

    /// Resolves the operand of the instruction in flight: consumes the
    /// operand bytes that `addressing_mode` takes, leaves the effective
    /// address in `addr_abs` (a branch offset in `addr_rel`, the accumulator
    /// in `fetched` for an implied instruction), and returns the mode's
    /// page-cross penalty, 0 or 1.
    pub fn address(&mut self, addressing_mode: AddressingMode) -> (penalty: u8)
        ensures
            final(self)@ == resolved(old(self)@, addressing_mode),
            penalty == page_penalty(old(self)@, addressing_mode),
    {
        match addressing_mode {
            AddressingMode::IMP => {
                self.fetched = self.acc_reg;
                0
            },
            AddressingMode::IMM => {
                self.addr_abs = self.pgrm_ctr;
                self.pgrm_ctr = self.pgrm_ctr.wrapping_add(1);
                0
            },
            AddressingMode::ZP0 => {
                let b: u8 = self.take_byte();
                self.addr_abs = b as u16;
                0
            },
            AddressingMode::ZPX => {
                let b: u8 = self.take_byte();
                self.addr_abs = b.wrapping_add(self.x_reg) as u16;
                0
            },
            AddressingMode::ZPY => {
                let b: u8 = self.take_byte();
                self.addr_abs = b.wrapping_add(self.y_reg) as u16;
                0
            },
            AddressingMode::REL => {
                let b: u8 = self.take_byte();
                self.addr_rel = sign_extend(b);
                0
            },
            AddressingMode::ABS => {
                self.addr_abs = self.take_word();
                0
            },
            AddressingMode::ABX => {
                let base: u16 = self.take_word();
                self.index_from(base, self.x_reg)
            },
            AddressingMode::ABY => {
                let base: u16 = self.take_word();
                self.index_from(base, self.y_reg)
            },
            AddressingMode::IND => {
                let ptr_low: u8 = self.take_byte();
                let ptr_high: u8 = self.take_byte();
                let ptr: u16 = word(ptr_low, ptr_high);
                let low: u8 = self.read(ptr, false);
                let high: u8 = if ptr_low == 0xFF {
                    self.read(page(ptr), false)
                } else {
                    self.read(ptr.wrapping_add(1), false)
                };
                self.addr_abs = word(low, high);
                0
            },
            AddressingMode::IZX => {
                let b: u8 = self.take_byte();
                self.addr_abs = self.read_zero_page_word(b.wrapping_add(self.x_reg));
                0
            },
            AddressingMode::IZY => {
                let b: u8 = self.take_byte();
                let base: u16 = self.read_zero_page_word(b);
                self.index_from(base, self.y_reg)
            },
        }
    }
}

} // verus!
