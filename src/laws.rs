use vstd::prelude::*;

use crate::addressing_mode::{crosses_page, inline_word, operand_of};
use crate::bus::{add16, hi_byte, lo_byte, stack_addr, sub16, sub8, word};
use crate::cpu::{step_of, CpuBus, CpuState};
use crate::executor::{branch_taken, branch_target, effect_of, irq_vector};
use crate::instruction::{opcode_table, AddressingMode, Instruction, Mnemonic};
use crate::nes::{Bus, WRAM_SIZE};
use crate::status::{has_flag, with_flag, with_zn, Status};

verus! {

/// Zero-page indexed addressing never leaves the zero page: the operand is
/// the base byte plus the index register, modulo 256.
pub proof fn zero_page_index_wraps<B: CpuBus>(c: CpuState, mem: Seq<u8>)
    ensures
        operand_of::<B>(AddressingMode::ZeroPageX, c, mem).operand == (B::peek(mem, c.pc) + c.x)
            % 256,
        operand_of::<B>(AddressingMode::ZeroPageY, c, mem).operand == (B::peek(mem, c.pc) + c.y)
            % 256,
        operand_of::<B>(AddressingMode::ZeroPageX, c, mem).operand < 0x100,
        operand_of::<B>(AddressingMode::ZeroPageY, c, mem).operand < 0x100,
{
}

proof fn lemma_page_of_sum(index: u16, base: u16)
    ensures
        crosses_page(index, base) == (add16(base, index) / 256 != base / 256),
        add16(index, base) == add16(base, index),
{
    assert(((if index + base > 0xFFFF { (index + base - 0x1_0000) as u16 } else { (index
        + base) as u16 }) & 0xFF00 != base & 0xFF00) == ((if base + index > 0xFFFF { (base
        + index - 0x1_0000) as u16 } else { (base + index) as u16 }) / 256 != base / 256))
        by (bit_vector);
}

/// Indexed absolute addressing costs the two operand fetches plus one
/// cycle: always for a write-shaped instruction, and for a read-shaped one
/// only when the indexed address lies on another page than the base.
pub proof fn absolute_index_cycles<B: CpuBus>(oops: bool, c: CpuState, mem: Seq<u8>)
    ensures
        ({
            let base = inline_word::<B>(mem, c.pc);
            let rx = operand_of::<B>(AddressingMode::AbsoluteX { oops }, c, mem);
            let ry = operand_of::<B>(AddressingMode::AbsoluteY { oops }, c, mem);
            &&& rx.operand == add16(base, c.x as u16)
            &&& ry.operand == add16(base, c.y as u16)
            &&& rx.ticks == if !oops || rx.operand / 256 != base / 256 {
                3nat
            } else {
                2nat
            }
            &&& ry.ticks == if !oops || ry.operand / 256 != base / 256 {
                3nat
            } else {
                2nat
            }
        }),
{
    let base = inline_word::<B>(mem, c.pc);
    lemma_page_of_sum(c.x as u16, base);
    lemma_page_of_sum(c.y as u16, base);
}

/// A pointer read through indirect addressing takes its high byte from the
/// next address, except when its low byte sits at the end of a page: then
/// the high byte comes from the start of that same page.
pub proof fn indirect_high_byte_stays_on_page<B: CpuBus>(c: CpuState, mem: Seq<u8>)
    ensures
        ({
            let ptr = inline_word::<B>(mem, c.pc);
            let operand = operand_of::<B>(AddressingMode::Indirect, c, mem).operand;
            &&& ptr % 256 == 0xFF ==> operand == word(B::peek(mem, ptr), B::peek(mem, (ptr - 0xFF) as u16))
            &&& ptr % 256 != 0xFF ==> operand == word(B::peek(mem, ptr), B::peek(mem, (ptr + 1) as u16))
        }),
{
    let p = inline_word::<B>(mem, c.pc);
    assert(p % 256 == 0xFF ==> (p & 0xFF00) | ((if p + 1 > 0xFFFF { (p + 1 - 0x1_0000) as u16 }
        else { (p + 1) as u16 }) & 0x00FF) == p - 0xFF) by (bit_vector);
    assert(p % 256 != 0xFF ==> (p & 0xFF00) | ((if p + 1 > 0xFFFF { (p + 1 - 0x1_0000) as u16 }
        else { (p + 1) as u16 }) & 0x00FF) == p + 1) by (bit_vector);
}

proof fn lemma_compare_bits(p: u8, v: u8, on: bool)
    by (bit_vector)
    ensures
        has_flag(with_flag(with_zn(p, v), Status::C, on), Status::C) == on,
        has_flag(with_flag(with_zn(p, v), Status::C, on), Status::Z) == (v == 0),
        has_flag(with_flag(with_zn(p, v), Status::C, on), Status::N) == (v >= 0x80),
        with_flag(with_zn(p, v), Status::C, on) & 0x7C == p & 0x7C,
{
}

/// Comparing register value `r` with the operand `m` (CMP, CPX, CPY) sets
/// Carry exactly when `r >= m`, Zero exactly when they are equal, Negative
/// from bit 7 of `r - m`, and changes no other flag, no register and no
/// memory. In particular equal values set Carry and Zero and clear Negative.
pub proof fn compare_sets_flags<B: CpuBus>(
    ins: Instruction,
    operand: u16,
    c: CpuState,
    mem: Seq<u8>,
)
    requires
        ins.0 == Mnemonic::CMP || ins.0 == Mnemonic::CPX || ins.0 == Mnemonic::CPY,
    ensures
        ({
            let r = if ins.0 == Mnemonic::CMP {
                c.a
            } else if ins.0 == Mnemonic::CPX {
                c.x
            } else {
                c.y
            };
            let m = B::peek(mem, operand);
            let e = effect_of::<B>(ins, operand, c, mem);
            &&& has_flag(e.cpu.p, Status::C) == (r >= m)
            &&& has_flag(e.cpu.p, Status::Z) == (r == m)
            &&& has_flag(e.cpu.p, Status::N) == (sub8(r, m) >= 0x80)
            &&& e.cpu.p & 0x7C == c.p & 0x7C
            &&& r == m ==> has_flag(e.cpu.p, Status::C) && has_flag(e.cpu.p, Status::Z)
                && !has_flag(e.cpu.p, Status::N)
            &&& e.cpu == CpuState { p: e.cpu.p, ..c }
            &&& e.mem == mem
            &&& e.ticks == 1
        }),
{
    let r = if ins.0 == Mnemonic::CMP {
        c.a
    } else if ins.0 == Mnemonic::CPX {
        c.x
    } else {
        c.y
    };
    let m = B::peek(mem, operand);
    lemma_compare_bits(c.p, sub8(r, m), r >= m);
}

/// PHP followed by PLP gives back every live flag of the status and never
/// makes the break pattern a live flag, on any bus whose stack slot reads
/// back what was written to it; the stack pointer returns to where it was.
pub proof fn push_pull_status_restores_flags<B: CpuBus>(
    c: CpuState,
    mem: Seq<u8>,
    push_operand: u16,
    pull_operand: u16,
)
    requires
        B::peek(B::poke(mem, stack_addr(c.s), c.p | Status::INSTRUCTION_B), stack_addr(c.s)) == c.p
            | Status::INSTRUCTION_B,
    ensures
        ({
            let pushed = effect_of::<B>((Mnemonic::PHP, AddressingMode::Implicit), push_operand, c, mem);
            let pulled = effect_of::<B>(
                (Mnemonic::PLP, AddressingMode::Implicit),
                pull_operand,
                pushed.cpu,
                pushed.mem,
            );
            &&& pulled.cpu.p == c.p & !Status::INSTRUCTION_B
            &&& pulled.cpu.p & Status::INSTRUCTION_B == 0
            &&& pulled.cpu == CpuState { p: pulled.cpu.p, ..c }
            &&& pushed.ticks + pulled.ticks == 5
        }),
{
    let p = c.p;
    assert((p | 0x30u8) & !0x30u8 == p & !0x30u8) by (bit_vector);
    assert((p & !0x30u8) & 0x30u8 == 0) by (bit_vector);
}

/// Pushing the status with PHP and pulling it straight back with PLP gives
/// back every live flag, and never makes the break pattern a live flag.
pub proof fn status_push_pull_round_trip(c: CpuState, mem: Seq<u8>)
    requires
        mem.len() == WRAM_SIZE,
        Bus::peek(mem, c.pc) == 0x08,
        Bus::peek(step_of::<Bus>(c, mem).mem, step_of::<Bus>(c, mem).cpu.pc) == 0x28,
    ensures
        ({
            let after = step_of::<Bus>(step_of::<Bus>(c, mem).cpu, step_of::<Bus>(c, mem).mem);
            &&& after.cpu.p == c.p & !Status::INSTRUCTION_B
            &&& after.cpu.p & Status::INSTRUCTION_B == 0
            &&& after.cpu.s == c.s
        }),
{
    let p = c.p;
    assert((p | 0x30u8) & !0x30u8 == p & !0x30u8) by (bit_vector);
    assert((p & !0x30u8) & 0x30u8 == 0) by (bit_vector);
}

/// BRK takes seven cycles from its opcode fetch on any bus: it writes the
/// address after its opcode to the stack, high byte first, then the status
/// with the break pattern, moves the stack pointer down by three, and
/// continues at the interrupt vector read after those writes. The live
/// flags and the other registers stay as they were.
pub proof fn break_pushes_then_vectors<B: CpuBus>(c: CpuState, mem: Seq<u8>)
    requires
        B::peek(mem, c.pc) == 0x00,
    ensures
        ({
            let e = step_of::<B>(c, mem);
            let ret = add16(c.pc, 1);
            let stacked = B::poke(
                B::poke(B::poke(mem, stack_addr(c.s), hi_byte(ret)), stack_addr(sub8(c.s, 1)), lo_byte(ret)),
                stack_addr(sub8(c.s, 2)),
                c.p | Status::INSTRUCTION_B,
            );
            &&& e.ticks == 7
            &&& e.mem == stacked
            &&& e.cpu == CpuState {
                s: sub8(c.s, 3),
                pc: word(B::peek(stacked, 0xFFFE), B::peek(stacked, 0xFFFF)),
                ..c
            }
        }),
{
}

/// BRK takes seven cycles from its opcode fetch: it pushes the address
/// after its opcode, high byte first, then the status with the break
/// pattern, and continues at the interrupt vector. The live flags stay as
/// they were.
pub proof fn break_pushes_and_vectors(c: CpuState, mem: Seq<u8>)
    requires
        mem.len() == WRAM_SIZE,
        Bus::peek(mem, c.pc) == 0x00,
    ensures
        ({
            let e = step_of::<Bus>(c, mem);
            let ret = add16(c.pc, 1);
            &&& e.ticks == 7
            &&& e.cpu.s == sub8(c.s, 3)
            &&& Bus::peek(e.mem, stack_addr(c.s)) == hi_byte(ret)
            &&& Bus::peek(e.mem, stack_addr(sub8(c.s, 1))) == lo_byte(ret)
            &&& Bus::peek(e.mem, stack_addr(sub8(c.s, 2))) == c.p | Status::INSTRUCTION_B
            &&& e.cpu.pc == irq_vector::<Bus>(e.mem)
            &&& e.cpu.p == c.p
        }),
{
}

/// A branch that is not taken costs the opcode and operand fetches alone
/// (two cycles). A taken one moves from the next instruction by the operand
/// byte read as a signed displacement (-128 to 127), costs one more cycle,
/// and one more again when its target lies on another page than the next
/// instruction.
pub proof fn branch_cycles<B: CpuBus>(c: CpuState, mem: Seq<u8>)
    requires
        opcode_table(B::peek(mem, c.pc)).1 == AddressingMode::Relative,
    ensures
        ({
            let op = opcode_table(B::peek(mem, c.pc)).0;
            let next = add16(c.pc, 2);
            let d = B::peek(mem, add16(c.pc, 1));
            let target = if d < 0x80 {
                add16(next, d as u16)
            } else {
                sub16(next, (0x100 - d) as u16)
            };
            let e = step_of::<B>(c, mem);
            &&& !branch_taken(op, c.p) ==> e.ticks == 2 && e.cpu.pc == next
            &&& branch_taken(op, c.p) ==> e.cpu.pc == target
            &&& branch_taken(op, c.p) && target / 256 == next / 256 ==> e.ticks == 3
            &&& branch_taken(op, c.p) && target / 256 != next / 256 ==> e.ticks == 4
        }),
{
    let d = B::peek(mem, add16(c.pc, 1));
    let next = add16(c.pc, 2);
    let ins = opcode_table(B::peek(mem, c.pc));
    let res = operand_of::<B>(ins.1, CpuState { pc: add16(c.pc, 1), ..c }, mem);
    assert(res.operand == d as u16 && res.pc == next && res.ticks == 1);
    lemma_signed_target(next, d);
    let t = branch_target(next, d as u16);
    assert((t & 0xFF00 != next & 0xFF00) == (t / 256 != next / 256)) by (bit_vector);
}

proof fn lemma_signed_target(next: u16, d: u8)
    ensures
        branch_target(next, d as u16) == if d < 0x80 {
            add16(next, d as u16)
        } else {
            sub16(next, (0x100 - d) as u16)
        },
{
    assert(lo_byte(d as u16) == d);
}

} // verus!
