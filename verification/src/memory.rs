//! Memories: a flat 64 KiB one, and the console's memory map with its
//! mirrored regions.
use vstd::prelude::*;
use crate::{Read, Write};

verus! {

/// 64 KiB of memory without mirroring: every address is a cell of its own.
pub struct FlatMemory {
    ram: [u8; 65536],
}

impl Read for FlatMemory {
    closed spec fn mem(&self) -> Seq<u8> {
        self.ram@
    }

    proof fn address_space(&self) {
    }

    fn read(&self, addr: u16, _read_only: bool) -> (data: u8) {
        self.ram[addr as usize]
    }
}

impl Write for FlatMemory {
    /// One byte changes.
    open spec fn store(mem: Seq<u8>, addr: u16, data: u8) -> Seq<u8> {
        mem.update(addr as int, data)
    }

    fn write(&mut self, addr: u16, data: u8) {
        self.ram[addr as usize] = data;
    }
}

/// The bytes of the short program that a default [`FlatMemory`] starts
/// with: load the byte at `0x60`, add the byte at `0x61`, store the sum at
/// `0x62`.
pub open spec fn flat_demo() -> Seq<u8> {
    seq![0xA5u8, 0x60u8, 0x65u8, 0x61u8, 0x85u8, 0x62u8]
}

impl FlatMemory {
    /// A memory of zeros.
    pub fn new() -> (memory: Self)
        ensures
            memory.mem() == Seq::new(0x10000, |a: int| 0u8),
    {
        let memory = FlatMemory { ram: [0u8; 65536] };
        assert(memory.mem() =~= Seq::new(0x10000, |a: int| 0u8));
        memory
    }
}

impl Default for FlatMemory {
    /// A memory of zeros but for the program [`flat_demo`] at address 0.
    fn default() -> (memory: Self)
        ensures
            memory.mem() == Seq::new(
                0x10000,
                |a: int| if a < 6 { flat_demo()[a] } else { 0u8 },
            ),
    {
        let mut ram: [u8; 65536] = [0u8; 65536];
        ram[0] = 0xA5;
        ram[1] = 0x60;
        ram[2] = 0x65;
        ram[3] = 0x61;
        ram[4] = 0x85;
        ram[5] = 0x62;
        let memory = FlatMemory { ram };
        assert(memory.mem() =~= Seq::new(
            0x10000,
            |a: int| if a < 6 { flat_demo()[a] } else { 0u8 },
        ));
        memory
    }
}

/// The cell behind an address of the console: the address itself, but for
/// the two mirrored windows. All of `0x0000..0x2000` falls onto the 2 KiB of
/// work RAM, all of `0x2000..0x4000` onto the eight registers at `0x2000`.
pub open spec fn cell(addr: u16) -> u16 {
    if addr < 0x2000 {
        addr & 0x07FF
    } else if addr < 0x4000 {
        0x2000 | (addr & 0x0007)
    } else {
        addr
    }
}

/// The bytes that a new [`CpuMemory`] holds at the start of its work RAM.
pub open spec fn power_on_ram() -> Seq<u8> {
    seq![44u8, 33u8, 44u8, 66u8, 100u8, 64u8]
}

/// The program that a default [`CpuMemory`] holds at `0x8000`: it
/// multiplies 10 by 3 by repeated addition and stores the product.
pub open spec fn cartridge_demo() -> Seq<u8> {
    seq![
        0xA2u8, 0x0Au8, 0x8Eu8, 0x00u8, 0x00u8, 0xA2u8, 0x03u8, 0x8Eu8,
        0x01u8, 0x00u8, 0xACu8, 0x00u8, 0x00u8, 0xA9u8, 0x00u8, 0x18u8,
        0x6Du8, 0x01u8, 0x00u8, 0x88u8, 0xD0u8, 0xFAu8, 0x8Du8, 0x02u8,
        0x00u8, 0xEAu8, 0xEAu8, 0xEAu8,
    ]
}

/// The CPU side of the console's address space.
///
/// | addresses         | region                    |
/// |-------------------|---------------------------|
/// | `0x0000..=0x07FF` | work RAM                  |
/// | `0x0800..=0x1FFF` | mirrors of the work RAM   |
/// | `0x2000..=0x2007` | PPU registers             |
/// | `0x2008..=0x3FFF` | mirrors of the registers  |
/// | `0x4000..=0x4017` | APU and I/O registers     |
/// | `0x4018..=0x401F` | APU and I/O test window   |
/// | `0x4020..=0xFFFF` | cartridge                 |
///
/// Every region can be read and written; a mirror has no storage of its own.
pub struct CpuMemory {
    main_ram: [u8; 2048],
    ppu_registers: [u8; 8],
    apu_io_registers: [u8; 24],
    apu_io_expansion: [u8; 8],
    cartridge_space: [u8; 49120],
}

/// The mirroring masks keep an address inside the mirrored region.
pub proof fn lemma_cell_range(addr: u16)
    ensures
        (addr & 0x07FF) < 0x0800,
        (addr & 0x0007) < 0x0008,
        (0x2000 | (addr & 0x0007)) == 0x2000 + (addr & 0x0007),
        addr < 0x0800 ==> (addr & 0x07FF) == addr,
        0x2000 <= addr < 0x2008 ==> (addr & 0x0007) == addr - 0x2000,
{
    assert((addr & 0x07FF) < 0x0800) by (bit_vector);
    assert((addr & 0x0007) < 0x0008) by (bit_vector);
    assert((0x2000 | (addr & 0x0007)) == 0x2000 + (addr & 0x0007)) by (bit_vector);
    assert(addr < 0x0800 ==> (addr & 0x07FF) == addr) by (bit_vector);
    assert(0x2000 <= addr < 0x2008 ==> (addr & 0x0007) == addr - 0x2000) by (bit_vector);
}

impl CpuMemory {
    /// The byte stored in the cell `c`, where `c` is the result of [`cell`].
    pub closed spec fn stored(&self, c: u16) -> u8 {
        if c < 0x0800 {
            self.main_ram@[c as int]
        } else if 0x2000 <= c < 0x2008 {
            self.ppu_registers@[c - 0x2000]
        } else if 0x4000 <= c < 0x4018 {
            self.apu_io_registers@[c - 0x4000]
        } else if 0x4018 <= c < 0x4020 {
            self.apu_io_expansion@[c - 0x4018]
        } else if 0x4020 <= c {
            self.cartridge_space@[c - 0x4020]
        } else {
            0
        }
    }
}

/// The byte at `addr` in a new [`CpuMemory`]: [`power_on_ram`] at the start
/// of the work RAM, and so in each of its mirrors, and zero everywhere else.
pub open spec fn power_on(addr: u16) -> u8 {
    if cell(addr) < 6 {
        power_on_ram()[cell(addr) as int]
    } else {
        0
    }
}

/// The byte at `addr` in a default [`CpuMemory`]: [`cartridge_demo`] at
/// `0x8000`, the reset vector at `0xFFFC` pointing there, and zero
/// everywhere else.
pub open spec fn demo_image(addr: u16) -> u8 {
    if 0x8000 <= addr < 0x801C {
        cartridge_demo()[addr - 0x8000]
    } else if addr == 0xFFFD {
        0x80
    } else {
        0
    }
}

/// The bytes of `bytes` as a region of exactly `N` bytes; `None` where
/// `bytes` has another length.
pub fn region_from<const N: usize>(bytes: &[u8]) -> (region: Option<[u8; N]>)
    ensures
        region is Some <==> bytes.len() == N,
        region matches Some(r) ==> r@ == bytes@,
{
    if bytes.len() != N {
        return None;
    }
    let mut region: [u8; N] = [0u8; N];
    let mut i: usize = 0;
    while i < N
        invariant
            i <= N,
            bytes.len() == N,
            forall|j: int| 0 <= j < i ==> region@[j] == bytes@[j],
        decreases N - i,
    {
        region[i] = bytes[i];
        i = i + 1;
    }
    assert(region@ =~= bytes@);
    Some(region)
}

/// The byte that each address shows where the five regions with storage
/// hold the given bytes.
pub open spec fn mapped(
    main_ram: Seq<u8>,
    ppu_registers: Seq<u8>,
    apu_io_registers: Seq<u8>,
    apu_io_expansion: Seq<u8>,
    cartridge_space: Seq<u8>,
) -> Seq<u8> {
    Seq::new(
        0x10000,
        |a: int|
            if a < 0x2000 {
                main_ram[(a as u16 & 0x07FF) as int]
            } else if a < 0x4000 {
                ppu_registers[(a as u16 & 0x0007) as int]
            } else if a < 0x4018 {
                apu_io_registers[a - 0x4000]
            } else if a < 0x4020 {
                apu_io_expansion[a - 0x4018]
            } else {
                cartridge_space[a - 0x4020]
            },
    )
}

impl CpuMemory {
    /// A memory map over the given contents of its five regions with
    /// storage.
    pub fn from_regions(
        main_ram: [u8; 2048],
        ppu_registers: [u8; 8],
        apu_io_registers: [u8; 24],
        apu_io_expansion: [u8; 8],
        cartridge_space: [u8; 49120],
    ) -> (memory: Self)
        ensures
            memory.mem() == mapped(
                main_ram@,
                ppu_registers@,
                apu_io_registers@,
                apu_io_expansion@,
                cartridge_space@,
            ),
    {
        let memory = CpuMemory {
            main_ram,
            ppu_registers,
            apu_io_registers,
            apu_io_expansion,
            cartridge_space,
        };
        proof {
            assert forall|a: int| 0 <= a < 0x10000 implies memory.mem()[a] == mapped(
                main_ram@,
                ppu_registers@,
                apu_io_registers@,
                apu_io_expansion@,
                cartridge_space@,
            )[a] by {
                lemma_cell_range(a as u16);
            }
            assert(memory.mem() =~= mapped(
                main_ram@,
                ppu_registers@,
                apu_io_registers@,
                apu_io_expansion@,
                cartridge_space@,
            ));
        }
        memory
    }

    /// A memory as it is at power-on: see [`power_on`].
    pub fn new() -> (memory: Self)
        ensures
            memory.mem() == Seq::new(0x10000, |a: int| power_on(a as u16)),
    {
        let mut main_ram: [u8; 2048] = [0u8; 2048];
        main_ram[0] = 44;
        main_ram[1] = 33;
        main_ram[2] = 44;
        main_ram[3] = 66;
        main_ram[4] = 100;
        main_ram[5] = 64;
        let memory = CpuMemory {
            main_ram,
            ppu_registers: [0u8; 8],
            apu_io_registers: [0u8; 24],
            apu_io_expansion: [0u8; 8],
            cartridge_space: [0u8; 49120],
        };
        proof {
            assert forall|a: int| 0 <= a < 0x10000 implies memory.mem()[a] == power_on(
                a as u16,
            ) by {
                lemma_cell_range(a as u16);
            }
            assert(memory.mem() =~= Seq::new(0x10000, |a: int| power_on(a as u16)));
        }
        memory
    }

    /// The work RAM: the window `0x0000..0x0800`.
    pub fn main_ram(&self) -> (window: &[u8; 2048])
        ensures
            window@ == self.mem().subrange(0x0000, 0x0800),
    {
        proof {
            assert forall|i: int| 0 <= i < 0x0800 implies self.main_ram@[i] == self.mem()[i] by {
                lemma_cell_range(i as u16);
            }
            assert(self.main_ram@ =~= self.mem().subrange(0x0000, 0x0800));
        }
        &self.main_ram
    }

    /// What the mirrors of the work RAM show: the window `0x0800..0x2000`.
    pub fn main_ram_mirror(&self) -> (window: [u8; 6144])
        ensures
            window@ == self.mem().subrange(0x0800, 0x2000),
    {
        let mut window: [u8; 6144] = [0u8; 6144];
        let mut i: usize = 0;
        while i < 6144
            invariant
                i <= 6144,
                forall|j: int| 0 <= j < i ==> window@[j] == self.mem()[0x0800 + j],
            decreases 6144 - i,
        {
            window[i] = self.read((0x0800 + i) as u16, true);
            i = i + 1;
        }
        assert(window@ =~= self.mem().subrange(0x0800, 0x2000));
        window
    }

    /// The PPU registers: the window `0x2000..0x2008`.
    pub fn ppu_registers(&self) -> (window: &[u8; 8])
        ensures
            window@ == self.mem().subrange(0x2000, 0x2008),
    {
        proof {
            assert forall|i: int| 0 <= i < 8 implies self.ppu_registers@[i] == self.mem()[0x2000
                + i] by {
                lemma_cell_range((0x2000 + i) as u16);
            }
            assert(self.ppu_registers@ =~= self.mem().subrange(0x2000, 0x2008));
        }
        &self.ppu_registers
    }

    /// What the mirrors of the PPU registers show: the window
    /// `0x2008..0x4000`.
    pub fn ppu_mirrors(&self) -> (window: [u8; 8184])
        ensures
            window@ == self.mem().subrange(0x2008, 0x4000),
    {
        let mut window: [u8; 8184] = [0u8; 8184];
        let mut i: usize = 0;
        while i < 8184
            invariant
                i <= 8184,
                forall|j: int| 0 <= j < i ==> window@[j] == self.mem()[0x2008 + j],
            decreases 8184 - i,
        {
            window[i] = self.read((0x2008 + i) as u16, true);
            i = i + 1;
        }
        assert(window@ =~= self.mem().subrange(0x2008, 0x4000));
        window
    }

    /// The APU and I/O registers: the window `0x4000..0x4018`.
    pub fn apu_io_registers(&self) -> (window: &[u8; 24])
        ensures
            window@ == self.mem().subrange(0x4000, 0x4018),
    {
        assert(self.apu_io_registers@ =~= self.mem().subrange(0x4000, 0x4018));
        &self.apu_io_registers
    }

    /// The APU and I/O test window: `0x4018..0x4020`.
    pub fn apu_io_expansion(&self) -> (window: &[u8; 8])
        ensures
            window@ == self.mem().subrange(0x4018, 0x4020),
    {
        assert(self.apu_io_expansion@ =~= self.mem().subrange(0x4018, 0x4020));
        &self.apu_io_expansion
    }

    /// The cartridge: the window `0x4020..0x10000`.
    pub fn cartridge_space(&self) -> (window: &[u8; 49120])
        ensures
            window@ == self.mem().subrange(0x4020, 0x10000),
    {
        assert(self.cartridge_space@ =~= self.mem().subrange(0x4020, 0x10000));
        &self.cartridge_space
    }
}

impl Default for CpuMemory {
    /// A memory with a short program in the cartridge: see [`demo_image`].
    fn default() -> (memory: Self)
        ensures
            memory.mem() == Seq::new(0x10000, |a: int| demo_image(a as u16)),
    {
        let mut memory = CpuMemory {
            main_ram: [0u8; 2048],
            ppu_registers: [0u8; 8],
            apu_io_registers: [0u8; 24],
            apu_io_expansion: [0u8; 8],
            cartridge_space: [0u8; 49120],
        };
        proof {
            assert forall|a: int| 0 <= a < 0x10000 implies memory.mem()[a] == 0u8 by {
                lemma_cell_range(a as u16);
            }
        }
        let program: [u8; 28] = [
            0xA2, 0x0A, 0x8E, 0x00, 0x00, 0xA2, 0x03, 0x8E, 0x01, 0x00, 0xAC, 0x00, 0x00, 0xA9,
            0x00, 0x18, 0x6D, 0x01, 0x00, 0x88, 0xD0, 0xFA, 0x8D, 0x02, 0x00, 0xEA, 0xEA, 0xEA,
        ];
        assert(program@ =~= cartridge_demo());
        let mut i: usize = 0;
        while i < 28
            invariant
                i <= 28,
                program@ == cartridge_demo(),
                memory.mem().len() == 0x10000,
                forall|a: int|
                    0 <= a < 0x10000 ==> memory.mem()[a] == if 0x8000 <= a < 0x8000 + i {
                        cartridge_demo()[a - 0x8000]
                    } else {
                        0u8
                    },
            decreases 28 - i,
        {
            memory.write((0x8000 + i) as u16, program[i]);
            proof {
                assert forall|a: int| 0 <= a < 0x10000 implies memory.mem()[a] == if 0x8000 <= a
                    < 0x8000 + i + 1 {
                    cartridge_demo()[a - 0x8000]
                } else {
                    0u8
                } by {
                    lemma_cell_range(a as u16);
                }
            }
            i = i + 1;
        }
        memory.write(0xFFFD, 0x80);
        proof {
            assert forall|a: int| 0 <= a < 0x10000 implies memory.mem()[a] == demo_image(
                a as u16,
            ) by {
                lemma_cell_range(a as u16);
            }
            assert(memory.mem() =~= Seq::new(0x10000, |a: int| demo_image(a as u16)));
        }
        memory
    }
}

/// Mirroring: every address of the work-RAM window shows what its
/// reduction to `0x0000..0x0800` shows, and every address of the PPU window
/// what its reduction to `0x2000..0x2008` shows.
pub proof fn lemma_mirroring(memory: CpuMemory, addr: u16)
    ensures
        addr < 0x2000 ==> memory.mem()[addr as int] == memory.mem()[(addr & 0x07FF) as int],
        0x2000 <= addr < 0x4000 ==> memory.mem()[addr as int] == memory.mem()[(0x2000 | (addr
            & 0x0007)) as int],
{
    lemma_cell_range(addr);
    lemma_cell_range(addr & 0x07FF);
    lemma_cell_range(0x2000 | (addr & 0x0007));
    assert((addr & 0x07FF) & 0x07FF == addr & 0x07FF) by (bit_vector);
    assert((0x2000 | (addr & 0x0007)) & 0x0007 == addr & 0x0007) by (bit_vector);
}

impl Read for CpuMemory {
    /// An address shows the byte stored in its cell.
    closed spec fn mem(&self) -> Seq<u8> {
        Seq::new(0x10000, |a: int| self.stored(cell(a as u16)))
    }

    proof fn address_space(&self) {
    }

    fn read(&self, addr: u16, _read_only: bool) -> (data: u8) {
        proof {
            lemma_cell_range(addr);
        }
        if addr < 0x2000 {
            self.main_ram[(addr & 0x07FF) as usize]
        } else if addr < 0x4000 {
            self.ppu_registers[(addr & 0x0007) as usize]
        } else if addr < 0x4018 {
            self.apu_io_registers[(addr - 0x4000) as usize]
        } else if addr < 0x4020 {
            self.apu_io_expansion[(addr - 0x4018) as usize]
        } else {
            self.cartridge_space[(addr - 0x4020) as usize]
        }
    }
}

impl Write for CpuMemory {
    /// Every address of the written cell changes, and no other.
    open spec fn store(mem: Seq<u8>, addr: u16, data: u8) -> Seq<u8> {
        Seq::new(0x10000, |a: int| if cell(a as u16) == cell(addr) { data } else { mem[a] })
    }

    fn write(&mut self, addr: u16, data: u8) {
        proof {
            lemma_cell_range(addr);
        }
        if addr < 0x2000 {
            self.main_ram[(addr & 0x07FF) as usize] = data;
        } else if addr < 0x4000 {
            self.ppu_registers[(addr & 0x0007) as usize] = data;
        } else if addr < 0x4018 {
            self.apu_io_registers[(addr - 0x4000) as usize] = data;
        } else if addr < 0x4020 {
            self.apu_io_expansion[(addr - 0x4018) as usize] = data;
        } else {
            self.cartridge_space[(addr - 0x4020) as usize] = data;
        }
        proof {
            assert forall|a: int| 0 <= a < 0x10000 implies self.mem()[a] == Self::store(
                old(self).mem(),
                addr,
                data,
            )[a] by {
                lemma_cell_range(a as u16);
            }
            assert(self.mem() =~= Self::store(old(self).mem(), addr, data));
        }
    }
}

} // verus!
