use vstd::prelude::*;

use crate::cpu::{Cpu, CpuBus, CpuTick};

verus! {

/// Size of the console's working memory, in bytes.
pub const WRAM_SIZE: usize = 0x0800;

/// The cartridge hardware that serves the upper part of the address space.
#[derive(Clone, Copy, Debug, PartialEq, Eq, Structural)]
pub enum Mapper {
    /// No cartridge: reads give 0 and writes are dropped.
    Empty,
}

impl Mapper {
    pub fn read(&mut self, _addr: u16) -> (r: u8)
        ensures
            r == 0,
            *final(self) == *old(self),
    {
        match self {
            Mapper::Empty => 0,
        }
    }

    pub fn write(&mut self, _addr: u16, _value: u8)
        ensures
            *final(self) == *old(self),
    {
        match self {
            Mapper::Empty => {},
        }
    }
}

/// The whole machine that the CPU drives: its registers, working memory,
/// cartridge and the count of elapsed CPU cycles.
#[derive(Debug)]
pub struct Nes {
    pub cpu: Cpu,
    pub wram: Vec<u8>,
    pub cpu_cycles: u128,
    pub mapper: Mapper,
}

impl Nes {
    /// Working memory has its full size.
    pub open spec fn wf(&self) -> bool {
        self.wram@.len() == WRAM_SIZE
    }

    /// Everything but the cycle count agrees with `other`.
    pub open spec fn same_but_clock(&self, other: &Nes) -> bool {
        &&& self.cpu == other.cpu
        &&& self.wram@ == other.wram@
        &&& self.mapper == other.mapper
    }

    /// Power-on state: registers and memory zeroed, no cartridge.
    pub fn new() -> (r: Nes)
        ensures
            r.wf(),
            r.cpu@ == Cpu::zeroed(),
            r.wram@ == Seq::new(WRAM_SIZE as nat, |i: int| 0u8),
            r.cpu_cycles == 0,
            r.mapper == Mapper::Empty,
    {
        let wram = vec![0u8; WRAM_SIZE];
        proof {
            assert(wram@ =~= Seq::new(WRAM_SIZE as nat, |i: int| 0u8));
        }
        Nes { cpu: Cpu::new(), wram, cpu_cycles: 0, mapper: Mapper::Empty }
    }
}

/// The console's address-space router: working memory at the bottom, the
/// cartridge above it, and nothing (reads of 0) elsewhere.
pub struct Bus {}

/// A clock that counts each cycle in the machine's cycle count.
pub struct Clock {}

impl CpuBus for Bus {
    fn read(nes: &mut Nes, addr: u16) -> (r: u8) {
        if addr <= 0x07FF {
            nes.wram[addr as usize]
        } else if addr <= 0x1FFF {
            nes.mapper.read(addr - 0x0800)
        } else {
            0
        }
    }

    fn write(nes: &mut Nes, addr: u16, value: u8) {
        if addr <= 0x07FF {
            nes.wram.set(addr as usize, value);
        } else if addr <= 0x1FFF {
            nes.mapper.write(addr - 0x0800, value);
        }
    }
}

impl CpuTick for Clock {
    fn tick(nes: &mut Nes) {
        nes.cpu_cycles = nes.cpu_cycles + 1;
    }

    fn tick_n(nes: &mut Nes, n: u128) {
        nes.cpu_cycles = nes.cpu_cycles + n;
    }
}

} // verus!
