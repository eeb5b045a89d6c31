use vstd::prelude::*;

use crate::cpu::{CpuBus, CpuTick};
use crate::nes::Nes;

verus! {

/// `v + 1`, wrapping at 8 bits.
pub open spec fn inc8(v: u8) -> u8 {
    if v == 0xFF {
        0
    } else {
        (v + 1) as u8
    }
}

/// `v - 1`, wrapping at 8 bits.
pub open spec fn dec8(v: u8) -> u8 {
    if v == 0 {
        0xFF
    } else {
        (v - 1) as u8
    }
}

/// `a + b`, wrapping at 8 bits.
pub open spec fn add8(a: u8, b: u8) -> u8 {
    if a + b > 0xFF {
        (a + b - 0x100) as u8
    } else {
        (a + b) as u8
    }
}

/// `a - b`, wrapping at 8 bits.
pub open spec fn sub8(a: u8, b: u8) -> u8 {
    if a < b {
        (a - b + 0x100) as u8
    } else {
        (a - b) as u8
    }
}

/// `a + b`, wrapping at 16 bits.
pub open spec fn add16(a: u16, b: u16) -> u16 {
    if a + b > 0xFFFF {
        (a + b - 0x1_0000) as u16
    } else {
        (a + b) as u16
    }
}

/// `a - b`, wrapping at 16 bits.
pub open spec fn sub16(a: u16, b: u16) -> u16 {
    if a < b {
        (a - b + 0x1_0000) as u16
    } else {
        (a - b) as u16
    }
}

/// The 16-bit value whose bytes are `lo` and `hi`.
pub open spec fn word(lo: u8, hi: u8) -> u16 {
    (hi as int * 256 + lo as int) as u16
}

/// The high byte of `v`.
pub open spec fn hi_byte(v: u16) -> u8 {
    (v / 256) as u8
}

/// The low byte of `v`.
pub open spec fn lo_byte(v: u16) -> u8 {
    (v % 256) as u8
}

/// The address from which the high byte of a pointer stored at `p` is read:
/// the byte after `p`, wrapped within the page of `p`.
pub open spec fn pointer_high_addr(p: u16) -> u16 {
    (p & 0xFF00) | (add16(p, 1) & 0x00FF)
}

/// The address of the stack slot that stack pointer `s` designates.
pub open spec fn stack_addr(s: u8) -> u16 {
    s as u16
}

/// The cycle count of `after` is that of `before` plus `n`, and the rest of
/// the machine besides the registers and memory is kept.
pub open spec fn clocked(after: &Nes, before: &Nes, n: nat) -> bool {
    &&& after.cpu_cycles == before.cpu_cycles + n
    &&& after.mapper == before.mapper
    &&& after.wf()
}

proof fn lemma_word_bits(lo: u8, hi: u8)
    ensures
        (lo as u16 | (hi as u16) << 8) == word(lo, hi),
{
    assert((lo as u16 | (hi as u16) << 8) == (hi as int * 256 + lo as int) as u16) by (bit_vector);
}

/// Reads one byte and ticks once.
pub fn read<B: CpuBus, T: CpuTick>(nes: &mut Nes, addr: u16) -> (r: u8)
    requires
        old(nes).wf(),
        old(nes).cpu_cycles < u128::MAX,
    ensures
        r == B::peek(old(nes).wram@, addr),
        final(nes).same_but_clock(old(nes)),
        clocked(final(nes), old(nes), 1),
{
    let v = B::read(nes, addr);
    T::tick(nes);
    v
}

/// Writes one byte and ticks once.
pub fn write<B: CpuBus, T: CpuTick>(nes: &mut Nes, addr: u16, value: u8)
    requires
        old(nes).wf(),
        old(nes).cpu_cycles < u128::MAX,
    ensures
        final(nes).wram@ == B::poke(old(nes).wram@, addr, value),
        final(nes).cpu == old(nes).cpu,
        clocked(final(nes), old(nes), 1),
{
    B::write(nes, addr, value);
    T::tick(nes);
}

/// Reads the little-endian word at `addr` and `addr + 1`.
pub fn read_word<B: CpuBus, T: CpuTick>(nes: &mut Nes, addr: u16) -> (r: u16)
    requires
        old(nes).wf(),
        old(nes).cpu_cycles + 2 <= u128::MAX,
    ensures
        r == word(
            B::peek(old(nes).wram@, addr),
            B::peek(old(nes).wram@, add16(addr, 1)),
        ),
        final(nes).same_but_clock(old(nes)),
        clocked(final(nes), old(nes), 2),
{
    let lo = read::<B, T>(nes, addr);
    let hi = read::<B, T>(nes, addr.wrapping_add(1));
    proof {
        lemma_word_bits(lo, hi);
    }
    lo as u16 | (hi as u16) << 8
}

/// Reads a pointer stored at `addr` the way the hardware does: the high
/// byte comes from the same page as the low byte, even when the pointer
/// straddles a page.
pub fn read_on_indirect<B: CpuBus, T: CpuTick>(nes: &mut Nes, addr: u16) -> (r: u16)
    requires
        old(nes).wf(),
        old(nes).cpu_cycles + 2 <= u128::MAX,
    ensures
        r == word(B::peek(old(nes).wram@, addr), B::peek(old(nes).wram@, pointer_high_addr(addr))),
        final(nes).same_but_clock(old(nes)),
        clocked(final(nes), old(nes), 2),
{
    let lo = read::<B, T>(nes, addr);
    let hi = read::<B, T>(nes, (addr & 0xFF00) | (addr.wrapping_add(1) & 0x00FF));
    proof {
        lemma_word_bits(lo, hi);
    }
    lo as u16 | (hi as u16) << 8
}

/// Writes `v` to the stack slot and moves the stack pointer down.
pub fn push_stack<B: CpuBus, T: CpuTick>(nes: &mut Nes, v: u8)
    requires
        old(nes).wf(),
        old(nes).cpu_cycles < u128::MAX,
    ensures
        final(nes).wram@ == B::poke(old(nes).wram@, stack_addr(old(nes).cpu.s), v),
        final(nes).cpu == (crate::cpu::Cpu { s: dec8(old(nes).cpu.s), ..old(nes).cpu }),
        clocked(final(nes), old(nes), 1),
{
    let s = nes.cpu.s;
    write::<B, T>(nes, s as u16, v);
    nes.cpu.s = s.wrapping_sub(1);
}

/// Moves the stack pointer up and reads the stack slot.
pub fn pull_stack<B: CpuBus, T: CpuTick>(nes: &mut Nes) -> (r: u8)
    requires
        old(nes).wf(),
        old(nes).cpu_cycles < u128::MAX,
    ensures
        r == B::peek(old(nes).wram@, stack_addr(inc8(old(nes).cpu.s))),
        final(nes).wram@ == old(nes).wram@,
        final(nes).cpu == (crate::cpu::Cpu { s: inc8(old(nes).cpu.s), ..old(nes).cpu }),
        clocked(final(nes), old(nes), 1),
{
    nes.cpu.s = nes.cpu.s.wrapping_add(1);
    let s = nes.cpu.s;
    read::<B, T>(nes, s as u16)
}

/// Pushes a word, high byte first.
pub fn push_stack_word<B: CpuBus, T: CpuTick>(nes: &mut Nes, v: u16)
    requires
        old(nes).wf(),
        old(nes).cpu_cycles + 2 <= u128::MAX,
    ensures
        final(nes).wram@ == B::poke(
            B::poke(old(nes).wram@, stack_addr(old(nes).cpu.s), hi_byte(v)),
            stack_addr(dec8(old(nes).cpu.s)),
            lo_byte(v),
        ),
        final(nes).cpu == (crate::cpu::Cpu { s: dec8(dec8(old(nes).cpu.s)), ..old(nes).cpu }),
        clocked(final(nes), old(nes), 2),
{
    push_stack::<B, T>(nes, (v >> 8) as u8);
    push_stack::<B, T>(nes, (v & 0xFF) as u8);
    proof {
        assert((v >> 8) as u8 == (v / 256) as u8) by (bit_vector);
        assert((v & 0xFF) as u8 == (v % 256) as u8) by (bit_vector);
    }
}

/// Pulls a word, low byte first.
pub fn pull_stack_word<B: CpuBus, T: CpuTick>(nes: &mut Nes) -> (r: u16)
    requires
        old(nes).wf(),
        old(nes).cpu_cycles + 2 <= u128::MAX,
    ensures
        r == word(
            B::peek(old(nes).wram@, stack_addr(inc8(old(nes).cpu.s))),
            B::peek(old(nes).wram@, stack_addr(inc8(inc8(old(nes).cpu.s)))),
        ),
        final(nes).wram@ == old(nes).wram@,
        final(nes).cpu == (crate::cpu::Cpu { s: inc8(inc8(old(nes).cpu.s)), ..old(nes).cpu }),
        clocked(final(nes), old(nes), 2),
{
    let lo = pull_stack::<B, T>(nes);
    let hi = pull_stack::<B, T>(nes);
    proof {
        lemma_word_bits(lo, hi);
    }
    lo as u16 | (hi as u16) << 8
}

} // verus!
