//! The console: a processor on a bus in front of the mirrored memory map.
use vstd::prelude::*;
use crate::bus::Bus;
use crate::cpu::{debug_info_of, flags_of, CpuDebugInfo, FlagData, CPU};
use crate::memory::CpuMemory;
use crate::Read;

verus! {

/// The console. The processor owns the bus and the bus owns the memory, so
/// the one field holds the whole machine.
pub struct Nes {
    pub cpu: CPU<Bus<CpuMemory>>,
}

impl Nes {
    /// A copy of the work RAM, `0x0000..0x0800`.
    pub fn get_main_ram(&self) -> (window: [u8; 2048])
        ensures
            window@ == self.cpu@.mem.subrange(0x0000, 0x0800),
    {
        *self.cpu.bus.memory().main_ram()
    }

    /// A copy of what the mirrors of the work RAM show, `0x0800..0x2000`.
    pub fn get_main_ram_mirror(&self) -> (window: [u8; 6144])
        ensures
            window@ == self.cpu@.mem.subrange(0x0800, 0x2000),
    {
        self.cpu.bus.memory().main_ram_mirror()
    }

    /// A copy of the PPU registers, `0x2000..0x2008`.
    pub fn get_ppu_registers(&self) -> (window: [u8; 8])
        ensures
            window@ == self.cpu@.mem.subrange(0x2000, 0x2008),
    {
        *self.cpu.bus.memory().ppu_registers()
    }

    /// A copy of what the mirrors of the PPU registers show,
    /// `0x2008..0x4000`.
    pub fn get_ppu_mirrors(&self) -> (window: [u8; 8184])
        ensures
            window@ == self.cpu@.mem.subrange(0x2008, 0x4000),
    {
        self.cpu.bus.memory().ppu_mirrors()
    }

    /// A copy of the APU and I/O registers, `0x4000..0x4018`.
    pub fn get_apu_io_registers(&self) -> (window: [u8; 24])
        ensures
            window@ == self.cpu@.mem.subrange(0x4000, 0x4018),
    {
        *self.cpu.bus.memory().apu_io_registers()
    }

    /// A copy of the APU and I/O test window, `0x4018..0x4020`.
    pub fn get_apu_io_expansion(&self) -> (window: [u8; 8])
        ensures
            window@ == self.cpu@.mem.subrange(0x4018, 0x4020),
    {
        *self.cpu.bus.memory().apu_io_expansion()
    }

    /// A copy of the cartridge, `0x4020..0x10000`.
    pub fn get_cartridge_space(&self) -> (window: [u8; 49120])
        ensures
            window@ == self.cpu@.mem.subrange(0x4020, 0x10000),
    {
        *self.cpu.bus.memory().cartridge_space()
    }

    /// The eight flags of the processor, each as 0 or 1.
    pub fn get_cpu_flags(&self) -> (flags: FlagData)
        ensures
            flags == flags_of(self.cpu.status),
    {
        self.cpu.get_flag_data()
    }

    /// The registers and the bookkeeping of the processor.
    pub fn get_cpu_debug_info(&self) -> (info: CpuDebugInfo)
        ensures
            info == debug_info_of(self.cpu@),
    {
        self.cpu.get_cpu_debug_info()
    }
}

} // verus!
