//! The bus: the one indirection between a processor and its memory.
use vstd::prelude::*;
use crate::{Read, Write};

verus! {

/// A bus in front of a memory `M`. The processor talks to the bus, the bus
/// passes every access on to the memory, and so sees exactly what the
/// memory sees.
pub struct Bus<M: Write> {
    memory: M,
}

impl<M: Write> Read for Bus<M> {
    /// The bus sees what the memory behind it sees.
    open spec fn mem(&self) -> Seq<u8> {
        self.memory_ref().mem()
    }

    proof fn address_space(&self) {
        self.memory.address_space();
    }

    fn read(&self, addr: u16, _read_only: bool) -> (data: u8) {
        self.memory.read(addr, _read_only)
    }
}

impl<M: Write> Write for Bus<M> {
    open spec fn store(mem: Seq<u8>, addr: u16, data: u8) -> Seq<u8> {
        M::store(mem, addr, data)
    }

    fn write(&mut self, addr: u16, data: u8) {
        self.memory.write(addr, data)
    }
}

impl<M: Write> Bus<M> {
    /// The memory behind the bus.
    pub closed spec fn memory_ref(&self) -> &M {
        &self.memory
    }

    /// A bus in front of `memory`.
    pub fn new(memory: M) -> (bus: Self)
        ensures
            *bus.memory_ref() == memory,
    {
        Bus { memory }
    }

    /// The memory behind the bus.
    pub fn memory(&self) -> (memory: &M)
        ensures
            memory == self.memory_ref(),
    {
        &self.memory
    }

    /// A copy of the whole address space as the bus sees it, taken with
    /// debugger reads.
    pub fn get_ram_addr(&self) -> (ram: Box<[u8; 65536]>)
        ensures
            ram@ == self.mem(),
    {
        let mut ram: [u8; 65536] = [0u8; 65536];
        let mut at: usize = 0;
        while at < 65536
            invariant
                at <= 65536,
                forall|a: int| 0 <= a < at ==> ram@[a] == self.mem()[a],
            decreases 65536 - at,
        {
            ram[at] = self.read(at as u16, true);
            at = at + 1;
        }
        proof {
            self.address_space();
            assert(ram@ =~= self.mem());
        }
        Box::new(ram)
    }
}

} // verus!
