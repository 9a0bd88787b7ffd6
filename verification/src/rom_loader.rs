//! Bringing the program of a cartridge image into the console's memory.
use vstd::prelude::*;
use crate::cpu::Machine;
use crate::memory::{cell, lemma_cell_range};
use crate::nes::Nes;
use crate::{Read, Write};

verus! {

/// The length of the header that a cartridge image starts with.
pub const HEADER_LEN: usize = 16;

/// The size of one bank of program ROM: 16 KiB.
pub const BANK_LEN: usize = 0x4000;

/// How many bytes of a program of `len` bytes are loaded: one bank at most.
pub open spec fn loaded_len(len: int) -> int {
    if len < BANK_LEN {
        len
    } else {
        BANK_LEN as int
    }
}

/// The address space `mem` with the program `prg` loaded: its first bank
/// stands at `0x8000` and again at `0xC000`, and every other byte stays.
pub open spec fn with_program(mem: Seq<u8>, prg: Seq<u8>) -> Seq<u8> {
    Seq::new(
        0x10000,
        |a: int|
            if 0x8000 <= a < 0x8000 + loaded_len(prg.len() as int) {
                prg[a - 0x8000]
            } else if 0xC000 <= a < 0xC000 + loaded_len(prg.len() as int) {
                prg[a - 0xC000]
            } else {
                mem[a]
            },
    )
}

impl Nes {
    /// Loads a cartridge image: skips the 16 bytes of its header and writes
    /// the first bank of what follows at `0x8000` and at `0xC000`. The
    /// processor's registers are not touched.
    pub fn load_rom(&mut self, image: &[u8]) -> (loaded: Result<(), ()>)
        requires
            image.len() >= HEADER_LEN,
        ensures
            loaded is Ok,
            final(self).cpu@ == (Machine {
                mem: with_program(old(self).cpu@.mem, image@.skip(HEADER_LEN as int)),
                ..old(self).cpu@
            }),
    {
        let count: usize = if image.len() - HEADER_LEN < BANK_LEN {
            image.len() - HEADER_LEN
        } else {
            BANK_LEN
        };
        let ghost prg = image@.skip(HEADER_LEN as int);
        proof {
            self.cpu.address_space();
        }
        let mut k: usize = 0;
        while k < count
            invariant
                k <= count <= BANK_LEN,
                count == loaded_len(prg.len() as int),
                prg == image@.skip(HEADER_LEN as int),
                image.len() >= HEADER_LEN,
                self.cpu@ == (Machine { mem: self.cpu@.mem, ..old(self).cpu@ }),
                self.cpu@.mem.len() == 0x10000,
                forall|a: int|
                    0 <= a < 0x10000 ==> self.cpu@.mem[a] == if 0x8000 <= a < 0x8000 + k {
                        prg[a - 0x8000]
                    } else if 0xC000 <= a < 0xC000 + k {
                        prg[a - 0xC000]
                    } else {
                        old(self).cpu@.mem[a]
                    },
            decreases count - k,
        {
            let byte: u8 = image[HEADER_LEN + k];
            let ghost before = self.cpu@.mem;
            self.cpu.write((0x8000 + k) as u16, byte);
            let ghost between = self.cpu@.mem;
            self.cpu.write((0xC000 + k) as u16, byte);
            proof {
                self.cpu.address_space();
                assert forall|a: int| 0 <= a < 0x10000 implies self.cpu@.mem[a] == if 0x8000 <= a
                    < 0x8000 + k + 1 {
                    prg[a - 0x8000]
                } else if 0xC000 <= a < 0xC000 + k + 1 {
                    prg[a - 0xC000]
                } else {
                    old(self).cpu@.mem[a]
                } by {
                    lemma_cell_range(a as u16);
                    assert(between[a] == if cell(a as u16) == cell((0x8000 + k) as u16) {
                        byte
                    } else {
                        before[a]
                    });
                }
            }
            k = k + 1;
        }
        proof {
            assert(self.cpu@.mem =~= with_program(old(self).cpu@.mem, prg));
        }
        Ok(())
    }
}

} // verus!
