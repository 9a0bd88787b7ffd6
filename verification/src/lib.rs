//! A cycle-counting emulator of the MOS 6502 and of the CPU side of an
//! 8-bit console's address space.
//!
//! The processor is generic over whatever it reads from and writes to. The
//! two capabilities are the traits [`Read`] and [`Write`]; the crate brings a
//! flat 64 KiB memory, the console's mirrored memory map and a bus that
//! stands between a processor and its memory.
//!
//! Every executable function carries a contract over a mathematical model of
//! the machine ([`cpu::Machine`]); the module [`laws`] holds the general
//! facts that follow from those contracts.
use vstd::prelude::*;

pub mod addressing_mode;
pub mod bits;
pub mod bus;
pub mod cpu;
pub mod instruction;
pub mod laws;
pub mod memory;
pub mod nes;
pub mod op_code;
pub mod rom_loader;

verus! {

/// The capability to be read at any 16-bit address.
///
/// An implementor fixes, through [`Read::mem`], the byte that each address
/// holds: the sequence's index is the address. A read has no error channel.
pub trait Read {
    /// The byte seen at each address, indexed by the address.
    spec fn mem(&self) -> Seq<u8>;

    /// The address space has 65,536 bytes.
    proof fn address_space(&self)
        ensures
            self.mem().len() == 0x10000,
    ;

    /// Reads the byte at `addr`. `_read_only` marks a debugger's peek, which
    /// a peripheral must answer without side effects; plain memory ignores it.
    fn read(&self, addr: u16, _read_only: bool) -> (data: u8)
        ensures
            data == self.mem()[addr as int],
    ;
}

/// The capability to be written at any 16-bit address.
///
/// [`Write::store`] says what the whole address space looks like after one
/// write; for flat memory that is one byte replaced, for mirrored memory
/// every address of the same cell changes with it.
pub trait Write: Read {
    /// The address space `mem` after `data` was written at `addr`.
    spec fn store(mem: Seq<u8>, addr: u16, data: u8) -> Seq<u8>;

    /// Writes `data` at `addr`.
    fn write(&mut self, addr: u16, data: u8)
        ensures
            final(self).mem() == Self::store(old(self).mem(), addr, data),
    ;
}

} // verus!
