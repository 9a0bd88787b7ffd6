//! What holds of the machine whatever it runs: facts about ticks, resets,
//! branches, the stack and the arithmetic, each proved from the model that
//! the contracts of the executable functions speak of.
use vstd::prelude::*;
use crate::addressing_mode::{operand_byte, operand_word, resolved, AddressingMode};
use crate::bits::{bit7, lemma_split_word, page_of, sign_extended, word_of};
use crate::bus::Bus;
use crate::cpu::{
    has_flag, instruction_run, lemma_flag_written, reset_state, tick, with_flag, with_operand,
    with_zn, Machine, StatusFlag,
};
use crate::instruction::instruction_for;
use crate::memory::{lemma_cell_range, CpuMemory, FlatMemory};
use crate::op_code::{
    added, carry_in, compared, executed, op_adc, op_sbc, signed_overflow, status_in_register,
    Opcode,
};
use crate::Write;

verus! {

/// The machine `n` ticks after `m`.
pub open spec fn ticks<B: Write>(m: Machine, n: nat) -> Machine
    decreases n,
{
    if n == 0 {
        m
    } else {
        tick::<B>(ticks::<B>(m, (n - 1) as nat))
    }
}

/// The machine after `n` times `PHA`.
pub open spec fn pushes<B: Write>(m: Machine, n: nat) -> Machine
    decreases n,
{
    if n == 0 {
        m
    } else {
        executed::<B>(pushes::<B>(m, (n - 1) as nat), Opcode::PHA)
    }
}

/// Whether the branch `opcode` is taken under the status `p`.
pub open spec fn branch_taken(opcode: Opcode, p: u8) -> bool {
    match opcode {
        Opcode::BCC => !has_flag(p, StatusFlag::C),
        Opcode::BCS => has_flag(p, StatusFlag::C),
        Opcode::BEQ => has_flag(p, StatusFlag::Z),
        Opcode::BNE => !has_flag(p, StatusFlag::Z),
        Opcode::BMI => has_flag(p, StatusFlag::N),
        Opcode::BPL => !has_flag(p, StatusFlag::N),
        Opcode::BVC => !has_flag(p, StatusFlag::V),
        Opcode::BVS => has_flag(p, StatusFlag::V),
        _ => false,
    }
}

/// Whether `opcode` is one of the eight conditional branches.
pub open spec fn is_branch(opcode: Opcode) -> bool {
    matches!(
        opcode,
        Opcode::BCC | Opcode::BCS | Opcode::BEQ | Opcode::BNE | Opcode::BMI | Opcode::BPL
            | Opcode::BVC | Opcode::BVS
    )
}

/// After any tick the unused flag is set.
pub proof fn lemma_unused_flag_after_tick<B: Write>(m: Machine)
    ensures
        has_flag(tick::<B>(m).p, StatusFlag::U),
{
    let next = if m.cycles > 0 {
        Machine { cycles: (m.cycles - 1) as u8, ..m }
    } else {
        instruction_run::<B>(m)
    };
    lemma_flag_written(next.p, StatusFlag::U, true, StatusFlag::U);
}

/// After any number of ticks the 8-bit registers lie in `0..=255` and the
/// program counter in `0..=65535`; after at least one tick the unused flag
/// is set.
pub proof fn lemma_registers_after_ticks<B: Write>(m: Machine, n: nat)
    ensures
        0 <= ticks::<B>(m, n).a <= 255,
        0 <= ticks::<B>(m, n).x <= 255,
        0 <= ticks::<B>(m, n).y <= 255,
        0 <= ticks::<B>(m, n).sp <= 255,
        0 <= ticks::<B>(m, n).p <= 255,
        0 <= ticks::<B>(m, n).pc <= 65535,
        n >= 1 ==> has_flag(ticks::<B>(m, n).p, StatusFlag::U),
{
    if n >= 1 {
        lemma_unused_flag_after_tick::<B>(ticks::<B>(m, (n - 1) as nat));
    }
}

/// While the instruction in flight owes cycles, ticks only pay them off:
/// `n` ticks, where at least `n` cycles are owed, change nothing but the
/// count of cycles and the unused flag.
pub proof fn lemma_ticks_pay_cycles<B: Write>(m: Machine, n: nat)
    requires
        n <= m.cycles,
    ensures
        ticks::<B>(m, n) == (Machine {
            cycles: (m.cycles - n) as u8,
            p: if n == 0 {
                m.p
            } else {
                with_flag(m.p, StatusFlag::U, true)
            },
            ..m
        }),
    decreases n,
{
    if n > 0 {
        lemma_ticks_pay_cycles::<B>(m, (n - 1) as nat);
        let p: u8 = m.p;
        assert((p | 0x20) | 0x20 == p | 0x20) by (bit_vector);
    }
}

/// Reset is determined by the reset vector: with the bytes `low` at
/// `0xFFFC` and `high` at `0xFFFD`, a reset and the seven ticks that drain
/// its cost leave the program counter at `(high << 8) | low`, the stack
/// pointer at `0xFD`, the registers A, X and Y at zero, the flags U and I
/// set, and no cycle owed.
pub proof fn lemma_reset_determinism<B: Write>(m: Machine, low: u8, high: u8)
    requires
        m.mem[0xFFFC] == low,
        m.mem[0xFFFD] == high,
    ensures
        ticks::<B>(reset_state(m), 7).pc == ((high as u16) << 8) | (low as u16),
        ticks::<B>(reset_state(m), 7).sp == 0xFD,
        ticks::<B>(reset_state(m), 7).a == 0,
        ticks::<B>(reset_state(m), 7).x == 0,
        ticks::<B>(reset_state(m), 7).y == 0,
        ticks::<B>(reset_state(m), 7).p & 0x24 == 0x24,
        ticks::<B>(reset_state(m), 7).cycles == 0,
        ticks::<B>(reset_state(m), 7).mem == m.mem,
{
    lemma_ticks_pay_cycles::<B>(reset_state(m), 7);
    assert((0x24u8 | 0x20u8) & 0x24u8 == 0x24u8) by (bit_vector);
}

/// The indirect jump does not carry into the high byte of its pointer:
/// where the pointer's low byte is `0xFF`, the high byte of the target
/// comes from the start of the pointer's own page (`ptr & 0xFF00`), not
/// from `ptr + 1`.
pub proof fn lemma_indirect_jump_wraps(m: Machine)
    requires
        operand_byte(m) == 0xFF,
    ensures
        resolved(m, AddressingMode::IND).addr_abs == word_of(
            m.mem[operand_word(m) as int],
            m.mem[(operand_word(m) & 0xFF00) as int],
        ),
        operand_word(m) & 0xFF00 == operand_word(m) - 0xFF,
{
    let high: u8 = m.mem[m.pc.wrapping_add(1) as int];
    assert((((high as u16) << 8) | 0xFFu16) & 0xFF00 == (((high as u16) << 8) | 0xFFu16) - 0xFF)
        by (bit_vector);
}

/// A tick that runs `JMP` through a pointer whose low byte is `0xFF` leaves
/// the program counter at the target that [`lemma_indirect_jump_wraps`]
/// describes.
pub proof fn lemma_indirect_jump_tick<B: Write>(m: Machine)
    requires
        m.cycles == 0,
        m.mem[m.pc as int] == 0x6C,
        m.mem[m.pc.wrapping_add(1) as int] == 0xFF,
    ensures
        ({
            let ptr: u16 = word_of(0xFF, m.mem[m.pc.wrapping_add(2) as int]);
            tick::<B>(m).pc == word_of(m.mem[ptr as int], m.mem[(ptr & 0xFF00) as int])
        }),
{
}

/// Branch timing. A tick that runs a conditional branch leaves the base
/// cycles of the branch owed where the branch is not taken, one more where
/// it is taken inside the page, and two more where it is taken into another
/// page. The page that counts is that of the program counter behind the
/// two bytes of the branch. Every branch has a base of 2 cycles.
pub proof fn lemma_branch_timing<B: Write>(m: Machine)
    requires
        m.cycles == 0,
        is_branch(instruction_for(m.mem[m.pc as int]).opcode),
    ensures
        ({
            let branch = instruction_for(m.mem[m.pc as int]);
            let taken: bool = branch_taken(branch.opcode, m.p);
            let behind: u16 = m.pc.wrapping_add(2);
            let offset: u8 = m.mem[m.pc.wrapping_add(1) as int];
            let target: u16 = behind.wrapping_add(sign_extended(offset));
            let crossed: bool = page_of(target) != page_of(behind);
            &&& branch.cycles == 2
            &&& !taken ==> tick::<B>(m).cycles == branch.cycles
            &&& taken && !crossed ==> tick::<B>(m).cycles == branch.cycles + 1
            &&& taken && crossed ==> tick::<B>(m).cycles == branch.cycles + 2
            &&& tick::<B>(m).pc == if taken {
                target
            } else {
                behind
            }
        }),
{
    assert(0u8 & 0u8 == 0u8) by (bit_vector);
}

/// `ADC` and `SBC` are one addition. Where two machines agree on the
/// accumulator and the status, and the operand of the one is the operand of
/// the other with every bit inverted, `ADC` on the first and `SBC` on the
/// second give the same accumulator and the same status, so the same N, Z,
/// C and V.
pub proof fn lemma_adc_sbc_duality(m_adc: Machine, m_sbc: Machine)
    requires
        m_adc.a == m_sbc.a,
        m_adc.p == m_sbc.p,
        with_operand(m_sbc).fetched == with_operand(m_adc).fetched ^ 0xFF,
    ensures
        op_adc(m_adc).a == op_sbc(m_sbc).a,
        op_adc(m_adc).p == op_sbc(m_sbc).p,
{
    let operand: u8 = with_operand(m_adc).fetched;
    assert((operand ^ 0xFF) ^ 0xFF == operand) by (bit_vector);
}

/// What an addition computes, as arithmetic: the accumulator becomes the
/// sum of accumulator, operand and carry modulo 256, and the new carry says
/// that the sum passed 255.
pub proof fn lemma_added_sum(m: Machine, operand: u8)
    ensures
        added(m, operand).a == (m.a + operand + carry_in(m.p)) % 256,
        has_flag(added(m, operand).p, StatusFlag::C) == (m.a + operand + carry_in(m.p) > 255),
{
    let sum: u16 = (m.a as u16 + operand as u16 + carry_in(m.p) as u16) as u16;
    let result: u8 = (sum & 0x00FF) as u8;
    assert((sum & 0x00FF) as u8 == sum % 256) by (bit_vector);
    let with_c: u8 = with_flag(m.p, StatusFlag::C, sum > 255);
    let with_z: u8 = with_flag(with_c, StatusFlag::Z, result == 0);
    let with_v: u8 = with_flag(with_z, StatusFlag::V, signed_overflow(m.a, operand, result));
    lemma_flag_written(m.p, StatusFlag::C, sum > 255, StatusFlag::C);
    lemma_flag_written(with_c, StatusFlag::Z, result == 0, StatusFlag::C);
    lemma_flag_written(with_z, StatusFlag::V, signed_overflow(m.a, operand, result), StatusFlag::C);
    lemma_flag_written(with_v, StatusFlag::N, bit7(result), StatusFlag::C);
}

/// The overflow test on bits says what it is meant to say: the two
/// operands have the same sign and the result has the other.
pub proof fn lemma_signed_overflow(a: u8, operand: u8, result: u8)
    ensures
        signed_overflow(a, operand, result) <==> ((a >= 128) == (operand >= 128) && (result
            >= 128) != (a >= 128)),
{
    assert((((a ^ result) & (operand ^ result) & 0x80) != 0) <==> ((a >= 128) == (operand >= 128)
        && (result >= 128) != (a >= 128))) by (bit_vector);
}

/// What the shifts and rotates compute, as arithmetic on an operand and a
/// carry of 0 or 1. Shifting left doubles modulo 256 and pushes out bit 7;
/// shifting right halves and pushes out bit 0; a rotate brings the carry in
/// at the other end.
pub proof fn lemma_shift_arithmetic(operand: u8, carry: u8)
    requires
        carry <= 1,
    ensures
        ((((operand as u16) << 1) & 0x00FF) as u8) == (2 * operand) % 256,
        ((((operand as u16) << 1) & 0xFF00) != 0) == (operand >= 128),
        operand >> 1 == operand / 2,
        (operand & 0x01 != 0) == (operand % 2 == 1),
        (((((operand as u16) << 1) | (carry as u16)) & 0x00FF) as u8) == (2 * operand + carry)
            % 256,
        (((((operand as u16) << 1) | (carry as u16)) & 0xFF00) != 0) == (operand >= 128),
        ((carry << 7) | (operand >> 1)) == 128 * carry + operand / 2,
{
    let wide: u16 = (operand as u16) << 1;
    assert((wide & 0x00FF) as u8 == (2 * operand) % 256 && ((wide & 0xFF00) != 0) == (operand
        >= 128)) by (bit_vector)
        requires
            wide == (operand as u16) << 1,
    ;
    assert(operand >> 1 == operand / 2 && (operand & 0x01 != 0) == (operand % 2 == 1))
        by (bit_vector);
    let rotated: u16 = wide | (carry as u16);
    assert((rotated & 0x00FF) as u8 == (2 * operand + carry) % 256 && ((rotated & 0xFF00) != 0)
        == (operand >= 128) && ((carry << 7) | (operand >> 1)) == 128 * carry + operand / 2)
        by (bit_vector)
        requires
            carry <= 1,
            rotated == ((operand as u16) << 1) | (carry as u16),
    ;
}

/// What a compare tells: C says that the register is at least the operand,
/// Z that the two are equal, and N is bit 7 of their difference modulo 256.
pub proof fn lemma_compared_flags(m: Machine, register: u8)
    ensures
        ({
            let operand: u8 = with_operand(m).fetched;
            let after = compared(m, register);
            &&& has_flag(after.p, StatusFlag::C) == (register >= operand)
            &&& has_flag(after.p, StatusFlag::Z) == (register == operand)
            &&& has_flag(after.p, StatusFlag::N) == bit7(register.wrapping_sub(operand))
            &&& after.a == m.a && after.x == m.x && after.y == m.y
        }),
{
    let f = with_operand(m);
    let difference: u8 = register.wrapping_sub(f.fetched);
    let with_c: u8 = with_flag(f.p, StatusFlag::C, register >= f.fetched);
    let with_z: u8 = with_flag(with_c, StatusFlag::Z, difference == 0);
    lemma_flag_written(f.p, StatusFlag::C, register >= f.fetched, StatusFlag::C);
    lemma_flag_written(with_c, StatusFlag::Z, difference == 0, StatusFlag::C);
    lemma_flag_written(with_c, StatusFlag::Z, difference == 0, StatusFlag::Z);
    lemma_flag_written(with_z, StatusFlag::N, bit7(difference), StatusFlag::C);
    lemma_flag_written(with_z, StatusFlag::N, bit7(difference), StatusFlag::Z);
    lemma_flag_written(with_z, StatusFlag::N, bit7(difference), StatusFlag::N);
}

/// The stack pointer after `n` pushes is `n` below where it started,
/// modulo 256; whatever the memory does with the bytes.
pub proof fn lemma_pushes_move_stack_pointer<B: Write>(m: Machine, n: nat)
    ensures
        pushes::<B>(m, n).sp == (m.sp - n) % 256,
    decreases n,
{
    if n > 0 {
        lemma_pushes_move_stack_pointer::<B>(m, (n - 1) as nat);
    }
}

/// The stack wraps: 257 pushes leave the stack pointer one below where it
/// started, modulo 256.
pub proof fn lemma_stack_wraps<B: Write>(m: Machine)
    ensures
        pushes::<B>(m, 257).sp == m.sp.wrapping_sub(1),
{
    lemma_pushes_move_stack_pointer::<B>(m, 257);
}

/// Whether the stack page of the memory `B` is plain: a write at an
/// address of `0x0100..0x0200` is read back there, changes no other address
/// of that page, and leaves the address space at its size.
pub open spec fn plain_stack<B: Write>() -> bool {
    forall|mem: Seq<u8>, addr: u16, data: u8|
        mem.len() == 0x10000 && 0x0100 <= addr < 0x0200 ==> {
            &&& (#[trigger] B::store(mem, addr, data)).len() == 0x10000
            &&& forall|at: u16|
                0x0100 <= at < 0x0200 ==> #[trigger] B::store(mem, addr, data)[at as int] == if at
                    == addr {
                    data
                } else {
                    mem[at as int]
                }
        }
}

/// The stack page of the flat memory is plain.
pub proof fn lemma_flat_stack_is_plain()
    ensures
        plain_stack::<FlatMemory>(),
{
}

/// The stack page of the mirrored memory map is plain: it lies in the work
/// RAM, below the first mirror.
pub proof fn lemma_mapped_stack_is_plain()
    ensures
        plain_stack::<CpuMemory>(),
{
    assert forall|mem: Seq<u8>, addr: u16, data: u8|
        mem.len() == 0x10000 && 0x0100 <= addr < 0x0200 implies {
        &&& (#[trigger] CpuMemory::store(mem, addr, data)).len() == 0x10000
        &&& forall|at: u16|
            0x0100 <= at < 0x0200 ==> #[trigger] CpuMemory::store(mem, addr, data)[at as int]
                == if at == addr {
                data
            } else {
                mem[at as int]
            }
    } by {
        lemma_cell_range(addr);
        assert forall|at: u16| 0x0100 <= at < 0x0200 implies #[trigger] CpuMemory::store(
            mem,
            addr,
            data,
        )[at as int] == if at == addr {
            data
        } else {
            mem[at as int]
        } by {
            lemma_cell_range(at);
        }
    }
}

/// A bus has the stack page of the memory behind it.
pub proof fn lemma_bus_stack_is_plain<M: Write>()
    requires
        plain_stack::<M>(),
    ensures
        plain_stack::<Bus<M>>(),
{
}

/// The stack gives back what it was given. On a memory with a plain stack
/// page, a byte pushed with `PHA` comes back with the next `PLA`, whatever
/// the accumulator held in between: the accumulator and the stack pointer
/// are as before the push, and Z and N describe the byte.
pub proof fn lemma_stack_round_trip<B: Write>(m: Machine, between: u8)
    requires
        plain_stack::<B>(),
        m.mem.len() == 0x10000,
    ensures
        ({
            let pushed = executed::<B>(m, Opcode::PHA);
            let pulled = executed::<B>(Machine { a: between, ..pushed }, Opcode::PLA);
            &&& pulled.a == m.a
            &&& pulled.sp == m.sp
            &&& pulled.p == with_zn(m.p, m.a)
            &&& pulled.pc == m.pc
        }),
{
}

/// `BRK` and `RTI` are symmetric. On a memory with a plain stack page,
/// `BRK` sets I, takes the program counter from the vector at `0xFFFE`
/// and leaves three bytes on the stack; an `RTI` run on that state brings
/// the stack pointer back, the program counter to one past the byte that
/// `BRK` stepped over (two past the `BRK` itself), and the status to what
/// it was, with I as before the `BRK`.
pub proof fn lemma_brk_rti_symmetry<B: Write>(m: Machine)
    requires
        plain_stack::<B>(),
        m.mem.len() == 0x10000,
    ensures
        ({
            let broken = executed::<B>(m, Opcode::BRK);
            let returned = executed::<B>(broken, Opcode::RTI);
            &&& has_flag(broken.p, StatusFlag::I)
            &&& !has_flag(broken.p, StatusFlag::B)
            &&& broken.sp == m.sp.wrapping_sub(3)
            &&& broken.pc == word_of(broken.mem[0xFFFE], broken.mem[0xFFFF])
            &&& returned.pc == m.pc.wrapping_add(1)
            &&& returned.sp == m.sp
            &&& returned.p == status_in_register(m.p)
            &&& has_flag(returned.p, StatusFlag::I) == has_flag(m.p, StatusFlag::I)
        }),
{
    let ret: u16 = m.pc.wrapping_add(1);
    lemma_split_word(ret);
    let p: u8 = m.p;
    assert(((p | 0x10 | 0x20) & !0x10u8) | 0x20 == (p & !0x10u8) | 0x20) by (bit_vector);
    assert(((p | 0x04) & !0x10u8) & 0x04 != 0) by (bit_vector);
    assert(((p | 0x04) & !0x10u8) & 0x10 == 0) by (bit_vector);
    assert((((p & !0x10u8) | 0x20) & 0x04 != 0) == (p & 0x04 != 0)) by (bit_vector);
}

} // verus!
