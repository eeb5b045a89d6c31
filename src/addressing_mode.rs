use vstd::prelude::*;

use crate::bus::{add16, add8, pointer_high_addr, read, read_on_indirect, read_word, word};
use crate::cpu::{CpuBus, CpuState, CpuTick};
use crate::instruction::AddressingMode;
use crate::nes::Nes;

verus! {

/// Whether adding `a` to `b` moves out of the 256-byte page of `b`.
pub open spec fn crosses_page(a: u16, b: u16) -> bool {
    add16(a, b) & 0xFF00 != b & 0xFF00
}

/// What resolving an addressing mode yields: the operand, the program
/// counter after the operand bytes, and the cycles spent.
pub struct Resolved {
    pub operand: u16,
    pub pc: u16,
    pub ticks: nat,
}

/// One extra cycle for an indexed absolute access: always for a
/// write-shaped instruction, only on a page crossing for a read-shaped one.
pub open spec fn index_penalty(oops: bool, index: u8, base: u16) -> nat {
    if !oops || crosses_page(index as u16, base) {
        1
    } else {
        0
    }
}

/// The word stored at `p`, read with the same-page rule for its high byte.
pub open spec fn pointer_at<B: CpuBus>(mem: Seq<u8>, p: u16) -> u16 {
    word(B::peek(mem, p), B::peek(mem, pointer_high_addr(p)))
}

/// The little-endian word in the two instruction bytes at `pc`.
pub open spec fn inline_word<B: CpuBus>(mem: Seq<u8>, pc: u16) -> u16 {
    word(B::peek(mem, pc), B::peek(mem, add16(pc, 1)))
}

/// How `mode` resolves with registers `c` and memory `mem`, the program
/// counter standing on the first operand byte.
pub open spec fn operand_of<B: CpuBus>(mode: AddressingMode, c: CpuState, mem: Seq<u8>) -> Resolved {
    let b = B::peek(mem, c.pc);
    match mode {
        AddressingMode::Implicit => Resolved { operand: 0, pc: c.pc, ticks: 0 },
        AddressingMode::Accumulator => Resolved { operand: c.a as u16, pc: c.pc, ticks: 0 },
        AddressingMode::Immediate => Resolved { operand: c.pc, pc: add16(c.pc, 1), ticks: 0 },
        AddressingMode::ZeroPage => Resolved { operand: b as u16, pc: add16(c.pc, 1), ticks: 1 },
        AddressingMode::ZeroPageX => Resolved {
            operand: add8(b, c.x) as u16,
            pc: add16(c.pc, 1),
            ticks: 1,
        },
        AddressingMode::ZeroPageY => Resolved {
            operand: add8(b, c.y) as u16,
            pc: add16(c.pc, 1),
            ticks: 1,
        },
        AddressingMode::Absolute => Resolved {
            operand: inline_word::<B>(mem, c.pc),
            pc: add16(c.pc, 2),
            ticks: 2,
        },
        AddressingMode::AbsoluteX { oops } => {
            let base = inline_word::<B>(mem, c.pc);
            Resolved {
                operand: add16(base, c.x as u16),
                pc: add16(c.pc, 2),
                ticks: 2 + index_penalty(oops, c.x, base),
            }
        },
        AddressingMode::AbsoluteY { oops } => {
            let base = inline_word::<B>(mem, c.pc);
            Resolved {
                operand: add16(base, c.y as u16),
                pc: add16(c.pc, 2),
                ticks: 2 + index_penalty(oops, c.y, base),
            }
        },
        AddressingMode::Relative => Resolved { operand: b as u16, pc: add16(c.pc, 1), ticks: 1 },
        AddressingMode::Indirect => Resolved {
            operand: pointer_at::<B>(mem, inline_word::<B>(mem, c.pc)),
            pc: add16(c.pc, 2),
            ticks: 4,
        },
        AddressingMode::IndexedIndirect => Resolved {
            operand: pointer_at::<B>(mem, add8(b, c.x) as u16),
            pc: add16(c.pc, 1),
            ticks: 4,
        },
        AddressingMode::IndirectIndexed => {
            let base = pointer_at::<B>(mem, b as u16);
            Resolved {
                operand: add16(base, c.y as u16),
                pc: add16(c.pc, 1),
                ticks: 3 + if crosses_page(c.y as u16, base) {
                    1nat
                } else {
                    0nat
                },
            }
        },
    }
}

/// Whether adding `a` to `b` moves out of the page of `b`.
pub fn page_crossed(a: u16, b: u16) -> (r: bool)
    ensures
        r == crosses_page(a, b),
{
    a.wrapping_add(b) & 0xFF00 != (b & 0xFF00)
}

/// Consumes the operand bytes of `mode` from the instruction stream and
/// returns the operand, charging the cycles that the mode costs.
#[verifier::spinoff_prover]
pub fn get_operand<B: CpuBus, T: CpuTick>(nes: &mut Nes, mode: AddressingMode) -> (r: u16)
    requires
        old(nes).wf(),
        old(nes).cpu_cycles + 4 <= u128::MAX,
    ensures
        ({
            let res = operand_of::<B>(mode, old(nes).cpu@, old(nes).wram@);
            &&& r == res.operand
            &&& final(nes).cpu == (crate::cpu::Cpu { pc: res.pc, ..old(nes).cpu })
            &&& final(nes).wram@ == old(nes).wram@
            &&& final(nes).cpu_cycles == old(nes).cpu_cycles + res.ticks
            &&& final(nes).mapper == old(nes).mapper
            &&& final(nes).wf()
        }),
{
    match mode {
        AddressingMode::Implicit => 0u16,
        AddressingMode::Accumulator => nes.cpu.a as u16,
        AddressingMode::Immediate => {
            let pc = nes.cpu.pc;
            nes.cpu.pc = pc.wrapping_add(1);
            pc
        },
        AddressingMode::ZeroPage => {
            let v = read::<B, T>(nes, nes.cpu.pc);
            nes.cpu.pc = nes.cpu.pc.wrapping_add(1);
            v as u16
        },
        AddressingMode::ZeroPageX => {
            let v = read::<B, T>(nes, nes.cpu.pc);
            nes.cpu.pc = nes.cpu.pc.wrapping_add(1);
            v.wrapping_add(nes.cpu.x) as u16
        },
        AddressingMode::ZeroPageY => {
            let v = read::<B, T>(nes, nes.cpu.pc);
            nes.cpu.pc = nes.cpu.pc.wrapping_add(1);
            v.wrapping_add(nes.cpu.y) as u16
        },
        AddressingMode::Absolute => {
            let v = read_word::<B, T>(nes, nes.cpu.pc);
            nes.cpu.pc = nes.cpu.pc.wrapping_add(2);
            v
        },
        AddressingMode::AbsoluteX { oops } => {
            let v = read_word::<B, T>(nes, nes.cpu.pc);
            nes.cpu.pc = nes.cpu.pc.wrapping_add(2);
            if !oops || page_crossed(nes.cpu.x as u16, v) {
                T::tick(nes);
            }
            v.wrapping_add(nes.cpu.x as u16)
        },
        AddressingMode::AbsoluteY { oops } => {
            let v = read_word::<B, T>(nes, nes.cpu.pc);
            nes.cpu.pc = nes.cpu.pc.wrapping_add(2);
            if !oops || page_crossed(nes.cpu.y as u16, v) {
                T::tick(nes);
            }
            v.wrapping_add(nes.cpu.y as u16)
        },
        AddressingMode::Relative => {
            let v = read::<B, T>(nes, nes.cpu.pc);
            nes.cpu.pc = nes.cpu.pc.wrapping_add(1);
            v as u16
        },
        AddressingMode::Indirect => {
            let m = read_word::<B, T>(nes, nes.cpu.pc);
            let v = read_on_indirect::<B, T>(nes, m);
            nes.cpu.pc = nes.cpu.pc.wrapping_add(2);
            v
        },
        AddressingMode::IndexedIndirect => {
            let m = read::<B, T>(nes, nes.cpu.pc);
            let v = read_on_indirect::<B, T>(nes, m.wrapping_add(nes.cpu.x) as u16);
            nes.cpu.pc = nes.cpu.pc.wrapping_add(1);
            T::tick(nes);
            v
        },
        AddressingMode::IndirectIndexed => {
            let m = read::<B, T>(nes, nes.cpu.pc);
            let n = read_on_indirect::<B, T>(nes, m as u16);
            nes.cpu.pc = nes.cpu.pc.wrapping_add(1);
            if page_crossed(nes.cpu.y as u16, n) {
                T::tick(nes);
            }
            n.wrapping_add(nes.cpu.y as u16)
        },
    }
}

} // verus!
