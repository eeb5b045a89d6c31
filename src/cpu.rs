use vstd::prelude::*;

use crate::addressing_mode::{get_operand, operand_of};
use crate::bus::{add16, read};
use crate::executor::{applied, effect_of, Effect};
use crate::instruction::{decode, opcode_table};
use crate::nes::Nes;
use crate::status::Status;
use crate::Emu;

verus! {

/// The CPU registers.
#[derive(Clone, Copy, Debug, PartialEq, Eq, Structural)]
pub struct Cpu {
    pub a: u8,
    pub x: u8,
    pub y: u8,
    pub s: u8,
    pub p: Status,
    pub pc: u16,
}

/// The registers as plain values, with the status register as its byte.
pub struct CpuState {
    pub a: u8,
    pub x: u8,
    pub y: u8,
    pub s: u8,
    pub p: u8,
    pub pc: u16,
}

impl View for Cpu {
    type V = CpuState;

    open spec fn view(&self) -> CpuState {
        CpuState { a: self.a, x: self.x, y: self.y, s: self.s, p: self.p@, pc: self.pc }
    }
}

impl Cpu {
    pub open spec fn zeroed() -> CpuState {
        CpuState { a: 0, x: 0, y: 0, s: 0, p: 0, pc: 0 }
    }

    pub fn new() -> (r: Cpu)
        ensures
            r@ == Cpu::zeroed(),
    {
        Cpu { a: 0, x: 0, y: 0, s: 0, p: Status::empty(), pc: 0 }
    }
}

impl Default for Cpu {
    fn default() -> (r: Cpu)
        ensures
            r@ == Cpu::zeroed(),
    {
        Cpu::new()
    }
}

/// Access to the storage behind the address space, without any clock tick.
///
/// `peek` and `poke` say what a read yields and what a write leaves in the
/// working memory; a read changes nothing. Unless an implementation says
/// otherwise, the address space is the working memory itself and reads
/// beyond it give 0.
pub trait CpuBus {
    open spec fn peek(mem: Seq<u8>, addr: u16) -> u8 {
        if (addr as int) < mem.len() {
            mem[addr as int]
        } else {
            0
        }
    }

    open spec fn poke(mem: Seq<u8>, addr: u16, value: u8) -> Seq<u8> {
        if (addr as int) < mem.len() {
            mem.update(addr as int, value)
        } else {
            mem
        }
    }

    fn read(nes: &mut Nes, addr: u16) -> (r: u8)
        requires
            old(nes).wf(),
        ensures
            r == Self::peek(old(nes).wram@, addr),
            final(nes).same_but_clock(old(nes)),
            final(nes).cpu_cycles == old(nes).cpu_cycles,
    ;

    fn write(nes: &mut Nes, addr: u16, value: u8)
        requires
            old(nes).wf(),
        ensures
            final(nes).wf(),
            final(nes).wram@ == Self::poke(old(nes).wram@, addr, value),
            final(nes).cpu == old(nes).cpu,
            final(nes).mapper == old(nes).mapper,
            final(nes).cpu_cycles == old(nes).cpu_cycles,
    ;
}

/// The clock: told of every CPU cycle.
pub trait CpuTick {
    fn tick(nes: &mut Nes)
        requires
            old(nes).cpu_cycles < u128::MAX,
        ensures
            final(nes).same_but_clock(old(nes)),
            final(nes).cpu_cycles == old(nes).cpu_cycles + 1,
    ;

    fn tick_n(nes: &mut Nes, n: u128)
        requires
            old(nes).cpu_cycles + n <= u128::MAX,
        ensures
            final(nes).same_but_clock(old(nes)),
            final(nes).cpu_cycles == old(nes).cpu_cycles + n,
    ;
}

/// A bound on the cycles of one instruction step: one opcode fetch, at
/// most four for the operand and at most six for the execution.
pub const MAX_STEP_CYCLES: u128 = 11;

/// What one fetch-decode-execute step does from registers `c` and memory
/// `mem`: the opcode at the program counter selects the instruction, its
/// addressing mode resolves the operand from the bytes that follow, and the
/// instruction is carried out. The cycles count the opcode fetch too.
pub open spec fn step_of<B: CpuBus>(c: CpuState, mem: Seq<u8>) -> Effect {
    let ins = opcode_table(B::peek(mem, c.pc));
    let res = operand_of::<B>(ins.1, CpuState { pc: add16(c.pc, 1), ..c }, mem);
    let e = effect_of::<B>(ins, res.operand, CpuState { pc: res.pc, ..c }, mem);
    Effect { ticks: 1 + res.ticks + e.ticks, ..e }
}

impl Emu {
    /// Advances the machine by one instruction.
    pub fn cpu_step<B: CpuBus, T: CpuTick>(nes: &mut Nes)
        requires
            old(nes).wf(),
            old(nes).cpu_cycles + MAX_STEP_CYCLES <= u128::MAX,
        ensures
            applied(final(nes), old(nes), step_of::<B>(old(nes).cpu@, old(nes).wram@)),
    {
        let opcode = read::<B, T>(nes, nes.cpu.pc);
        nes.cpu.pc = nes.cpu.pc.wrapping_add(1);
        let instruction = decode(opcode);
        let operand = get_operand::<B, T>(nes, instruction.1);
        Self::execute::<B, T>(nes, instruction, operand);
    }
}

} // verus!
