use vstd::prelude::*;

use crate::bus::{
    add16, add8, clocked, dec8, hi_byte, inc8, lo_byte, pull_stack, pull_stack_word, push_stack,
    push_stack_word, read, read_word, stack_addr, sub16, sub8, word,
};
use crate::cpu::{CpuBus, CpuState, CpuTick};
use crate::instruction::{AddressingMode, Instruction, Mnemonic};
use crate::nes::Nes;
use crate::status::{has_flag, with_flag, with_zn, Status};
use crate::Emu;

verus! {

/// What executing an instruction leaves: registers, memory and the cycles
/// spent beyond those of the opcode and operand fetches.
pub struct Effect {
    pub cpu: CpuState,
    pub mem: Seq<u8>,
    pub ticks: nat,
}

/// The machine `after` shows effect `e` taken on `before`.
pub open spec fn applied(after: &Nes, before: &Nes, e: Effect) -> bool {
    &&& after.cpu@ == e.cpu
    &&& after.wram@ == e.mem
    &&& clocked(after, before, e.ticks)
}

/// The carry flag of `p` as a number.
pub open spec fn carry_bit(p: u8) -> u8 {
    if has_flag(p, Status::C) {
        1
    } else {
        0
    }
}

/// `a + m + c` truncated to 8 bits.
pub open spec fn sum_result(a: u8, m: u8, c: u8) -> u8 {
    ((a + m + c) % 256) as u8
}

/// The status after `a + m + c`: Carry when the sum needs a ninth bit,
/// Overflow when two operands of one sign give a result of the other.
pub open spec fn sum_flags(p: u8, a: u8, m: u8, c: u8) -> u8 {
    let r = sum_result(a, m, c);
    with_zn(
        with_flag(
            with_flag(p, Status::C, a + m + c > 0xFF),
            Status::V,
            (a < 0x80) == (m < 0x80) && (r < 0x80) != (a < 0x80),
        ),
        r,
    )
}

/// `a - m - (1 - c)` truncated to 8 bits: subtraction with the carry as an
/// inverted borrow.
pub open spec fn diff_result(a: u8, m: u8, c: u8) -> u8 {
    ((a + 0xFF - m + c) % 256) as u8
}

/// The status after `a - m - (1 - c)`: Carry when no borrow was needed,
/// Overflow when operands of different signs give a result whose sign
/// differs from `a`.
pub open spec fn diff_flags(p: u8, a: u8, m: u8, c: u8) -> u8 {
    let r = diff_result(a, m, c);
    with_zn(
        with_flag(
            with_flag(p, Status::C, a + c > m),
            Status::V,
            (a < 0x80) != (m < 0x80) && (r < 0x80) != (a < 0x80),
        ),
        r,
    )
}

/// The status after comparing register value `r` with `m`.
pub open spec fn compare_flags(p: u8, r: u8, m: u8) -> u8 {
    with_flag(with_zn(p, sub8(r, m)), Status::C, r >= m)
}

/// The result and carry out of a shift or rotate of `v` with carry in `c`.
pub open spec fn shifted(op: Mnemonic, v: u8, c: bool) -> (u8, bool) {
    match op {
        Mnemonic::ASL => (((v * 2) % 256) as u8, v >= 0x80),
        Mnemonic::LSR => ((v / 2) as u8, v % 2 == 1),
        Mnemonic::ROL => ((((v * 2) % 256) + if c { 1int } else { 0int }) as u8, v >= 0x80),
        _ => (((v / 2) + if c { 0x80int } else { 0int }) as u8, v % 2 == 1),
    }
}

/// The status byte restored from the stack: the break pattern is dropped.
pub open spec fn pulled_status(v: u8) -> u8 {
    v & !Status::INSTRUCTION_B
}

/// Whether the branch `op` is taken under status `p`.
pub open spec fn branch_taken(op: Mnemonic, p: u8) -> bool {
    match op {
        Mnemonic::BCC => !has_flag(p, Status::C),
        Mnemonic::BCS => has_flag(p, Status::C),
        Mnemonic::BEQ => has_flag(p, Status::Z),
        Mnemonic::BMI => has_flag(p, Status::N),
        Mnemonic::BNE => !has_flag(p, Status::Z),
        Mnemonic::BPL => !has_flag(p, Status::N),
        Mnemonic::BVC => !has_flag(p, Status::V),
        _ => has_flag(p, Status::V),
    }
}

/// The displacement byte in the low half of `operand`, sign-extended to 16
/// bits: bytes from 0x80 up stand for -128 to -1.
pub open spec fn displacement(operand: u16) -> u16 {
    let d = lo_byte(operand);
    if d < 0x80 {
        d as u16
    } else {
        (d + 0xFF00) as u16
    }
}

/// Where a taken branch goes from `pc`, the address of the instruction
/// after the branch.
pub open spec fn branch_target(pc: u16, operand: u16) -> u16 {
    add16(pc, displacement(operand))
}

/// Whether `target` lies on another 256-byte page than `pc`.
pub open spec fn other_page(target: u16, pc: u16) -> bool {
    target & 0xFF00 != pc & 0xFF00
}

/// The program counter of an interrupt routine, read from the vector at
/// 0xFFFE.
pub open spec fn irq_vector<B: CpuBus>(mem: Seq<u8>) -> u16 {
    word(B::peek(mem, 0xFFFE), B::peek(mem, 0xFFFF))
}

/// Memory `mem` after the word `v` is pushed with stack pointer `s`.
pub open spec fn pushed_word<B: CpuBus>(mem: Seq<u8>, s: u8, v: u16) -> Seq<u8> {
    B::poke(B::poke(mem, stack_addr(s), hi_byte(v)), stack_addr(dec8(s)), lo_byte(v))
}

/// The word that two pulls read with stack pointer `s`.
pub open spec fn pulled_word<B: CpuBus>(mem: Seq<u8>, s: u8) -> u16 {
    word(B::peek(mem, stack_addr(inc8(s))), B::peek(mem, stack_addr(inc8(inc8(s)))))
}

/// Registers `c` with the accumulator and Zero/Negative set from `v`.
pub open spec fn load_a(c: CpuState, v: u8) -> CpuState {
    CpuState { a: v, p: with_zn(c.p, v), ..c }
}

pub open spec fn load_x(c: CpuState, v: u8) -> CpuState {
    CpuState { x: v, p: with_zn(c.p, v), ..c }
}

pub open spec fn load_y(c: CpuState, v: u8) -> CpuState {
    CpuState { y: v, p: with_zn(c.p, v), ..c }
}

/// Registers `c` with the status byte replaced by `p`.
pub open spec fn with_p(c: CpuState, p: u8) -> CpuState {
    CpuState { p, ..c }
}

/// What instruction `ins` does with operand `operand`, registers `c` and
/// memory `mem`.
pub open spec fn effect_of<B: CpuBus>(
    ins: Instruction,
    operand: u16,
    c: CpuState,
    mem: Seq<u8>,
) -> Effect {
    let m = B::peek(mem, operand);
    let same = Effect { cpu: c, mem, ticks: 1 };
    match ins.0 {
        Mnemonic::LDA => Effect { cpu: load_a(c, m), ..same },
        Mnemonic::LDX => Effect { cpu: load_x(c, m), ..same },
        Mnemonic::LDY => Effect { cpu: load_y(c, m), ..same },
        Mnemonic::STA => Effect { mem: B::poke(mem, operand, c.a), ..same },
        Mnemonic::STX => Effect { mem: B::poke(mem, operand, c.x), ..same },
        Mnemonic::STY => Effect { mem: B::poke(mem, operand, c.y), ..same },
        Mnemonic::TAX => Effect { cpu: load_x(c, c.a), ..same },
        Mnemonic::TAY => Effect { cpu: load_y(c, c.a), ..same },
        Mnemonic::TXA => Effect { cpu: load_a(c, c.x), ..same },
        Mnemonic::TYA => Effect { cpu: load_a(c, c.y), ..same },
        Mnemonic::TSX => Effect { cpu: load_x(c, c.s), ..same },
        Mnemonic::TXS => Effect { cpu: CpuState { s: c.x, ..c }, ..same },
        Mnemonic::PHA => Effect {
            cpu: CpuState { s: dec8(c.s), ..c },
            mem: B::poke(mem, stack_addr(c.s), c.a),
            ticks: 2,
        },
        Mnemonic::PHP => Effect {
            cpu: CpuState { s: dec8(c.s), ..c },
            mem: B::poke(mem, stack_addr(c.s), c.p | Status::INSTRUCTION_B),
            ticks: 2,
        },
        Mnemonic::PLA => Effect {
            cpu: load_a(CpuState { s: inc8(c.s), ..c }, B::peek(mem, stack_addr(inc8(c.s)))),
            mem,
            ticks: 2,
        },
        Mnemonic::PLP => Effect {
            cpu: CpuState {
                s: inc8(c.s),
                p: pulled_status(B::peek(mem, stack_addr(inc8(c.s)))),
                ..c
            },
            mem,
            ticks: 3,
        },
        Mnemonic::AND => Effect { cpu: load_a(c, c.a & m), ..same },
        Mnemonic::EOR => Effect { cpu: load_a(c, c.a ^ m), ..same },
        Mnemonic::ORA => Effect { cpu: load_a(c, c.a | m), ..same },
        Mnemonic::BIT => Effect {
            cpu: with_p(c, with_flag(with_zn(c.p, c.a & m), Status::V, (c.a & m) & 0x40 == 0x40)),
            ..same
        },
        Mnemonic::ADC => Effect {
            cpu: CpuState {
                a: sum_result(c.a, m, carry_bit(c.p)),
                p: sum_flags(c.p, c.a, m, carry_bit(c.p)),
                ..c
            },
            ..same
        },
        Mnemonic::SBC => Effect {
            cpu: CpuState {
                a: diff_result(c.a, m, carry_bit(c.p)),
                p: diff_flags(c.p, c.a, m, carry_bit(c.p)),
                ..c
            },
            ..same
        },
        Mnemonic::CMP => Effect { cpu: with_p(c, compare_flags(c.p, c.a, m)), ..same },
        Mnemonic::CPX => Effect { cpu: with_p(c, compare_flags(c.p, c.x, m)), ..same },
        Mnemonic::CPY => Effect { cpu: with_p(c, compare_flags(c.p, c.y, m)), ..same },
        Mnemonic::INC => Effect {
            cpu: with_p(c, with_zn(c.p, add8(m, 1))),
            mem: B::poke(mem, operand, add8(m, 1)),
            ticks: 3,
        },
        Mnemonic::DEC => Effect {
            cpu: with_p(c, with_zn(c.p, sub8(m, 1))),
            mem: B::poke(mem, operand, sub8(m, 1)),
            ticks: 3,
        },
        Mnemonic::INX => Effect { cpu: load_x(c, add8(c.x, 1)), ..same },
        Mnemonic::INY => Effect { cpu: load_y(c, add8(c.y, 1)), ..same },
        Mnemonic::DEX => Effect { cpu: load_x(c, sub8(c.x, 1)), ..same },
        Mnemonic::DEY => Effect { cpu: load_y(c, sub8(c.y, 1)), ..same },
        Mnemonic::ASL | Mnemonic::LSR | Mnemonic::ROL | Mnemonic::ROR => {
            if ins.1 == AddressingMode::Accumulator {
                let (r, out) = shifted(ins.0, c.a, has_flag(c.p, Status::C));
                Effect { cpu: load_a(with_p(c, with_flag(c.p, Status::C, out)), r), ..same }
            } else {
                let (r, out) = shifted(ins.0, m, has_flag(c.p, Status::C));
                Effect {
                    cpu: with_p(c, with_zn(with_flag(c.p, Status::C, out), r)),
                    mem: B::poke(mem, operand, r),
                    ticks: 3,
                }
            }
        },
        Mnemonic::JMP => Effect { cpu: CpuState { pc: operand, ..c }, mem, ticks: 0 },
        Mnemonic::JSR => Effect {
            cpu: CpuState { s: dec8(dec8(c.s)), pc: operand, ..c },
            mem: pushed_word::<B>(mem, c.s, sub16(c.pc, 1)),
            ticks: 3,
        },
        Mnemonic::RTS => Effect {
            cpu: CpuState { s: inc8(inc8(c.s)), pc: add16(pulled_word::<B>(mem, c.s), 1), ..c },
            mem,
            ticks: 5,
        },
        Mnemonic::RTI => Effect {
            cpu: CpuState {
                s: inc8(inc8(inc8(c.s))),
                p: pulled_status(B::peek(mem, stack_addr(inc8(c.s)))),
                pc: pulled_word::<B>(mem, inc8(c.s)),
                ..c
            },
            mem,
            ticks: 5,
        },
        Mnemonic::BCC | Mnemonic::BCS | Mnemonic::BEQ | Mnemonic::BMI | Mnemonic::BNE
        | Mnemonic::BPL | Mnemonic::BVC | Mnemonic::BVS => {
            if branch_taken(ins.0, c.p) {
                let target = branch_target(c.pc, operand);
                Effect {
                    cpu: CpuState { pc: target, ..c },
                    mem,
                    ticks: if other_page(target, c.pc) {
                        2
                    } else {
                        1
                    },
                }
            } else {
                Effect { ticks: 0, ..same }
            }
        },
        Mnemonic::CLC => Effect { cpu: with_p(c, with_flag(c.p, Status::C, false)), ..same },
        Mnemonic::CLD => Effect { cpu: with_p(c, with_flag(c.p, Status::D, false)), ..same },
        Mnemonic::CLI => Effect { cpu: with_p(c, with_flag(c.p, Status::I, false)), ..same },
        Mnemonic::CLV => Effect { cpu: with_p(c, with_flag(c.p, Status::V, false)), ..same },
        Mnemonic::SEC => Effect { cpu: with_p(c, with_flag(c.p, Status::C, true)), ..same },
        Mnemonic::SED => Effect { cpu: with_p(c, with_flag(c.p, Status::D, true)), ..same },
        Mnemonic::SEI => Effect { cpu: with_p(c, with_flag(c.p, Status::I, true)), ..same },
        Mnemonic::BRK => {
            let mem2 = pushed_word::<B>(mem, c.s, c.pc);
            let mem3 = B::poke(mem2, stack_addr(dec8(dec8(c.s))), c.p | Status::INSTRUCTION_B);
            Effect {
                cpu: CpuState { s: dec8(dec8(dec8(c.s))), pc: irq_vector::<B>(mem3), ..c },
                mem: mem3,
                ticks: 6,
            }
        },
        Mnemonic::NOP => same,
    }
}

/// Bit 6 carry of the ripple chain for `a + m` giving `r`: recovered from
/// the three top bits.
pub open spec fn chain_c6(a: u8, m: u8, r: u8) -> u8 {
    ((a >> 7) & 1) ^ ((m >> 7) & 1) ^ ((r >> 7) & 1)
}

/// Carry out of bit 7 for `a + m` giving `r`.
pub open spec fn chain_c7(a: u8, m: u8, r: u8) -> u8 {
    let a7 = (a >> 7) & 1;
    let m7 = (m >> 7) & 1;
    let c6 = chain_c6(a, m, r);
    (a7 & m7) | (a7 & c6) | (m7 & c6)
}

proof fn lemma_carry_chain(a: u8, m: u8, c: u8)
    by (bit_vector)
    requires
        c <= 1,
    ensures
        add8(add8(a, m), c) == ((a + m + c) % 256) as u8,
        (chain_c7(a, m, add8(add8(a, m), c)) == 1) == (a + m + c > 0xFF),
        ((chain_c6(a, m, add8(add8(a, m), c)) ^ chain_c7(a, m, add8(add8(a, m), c))) == 1) == ((a
            < 0x80) == (m < 0x80) && (add8(add8(a, m), c) < 0x80) != (a < 0x80)),
{
}

/// Adds `m` and the carry `c` to `a`, deriving carry out and overflow from
/// the carries into and out of bit 7.
fn add_with_carry(a: u8, m: u8, c: u8) -> (r: (u8, bool, bool))
    requires
        c <= 1,
    ensures
        r.0 == sum_result(a, m, c),
        r.1 == (a + m + c > 0xFF),
        r.2 == ((a < 0x80) == (m < 0x80) && (r.0 < 0x80) != (a < 0x80)),
{
    let r = a.wrapping_add(m).wrapping_add(c);
    let a7 = a >> 7 & 1;
    let m7 = m >> 7 & 1;
    let c6 = a7 ^ m7 ^ (r >> 7 & 1);
    let c7 = (a7 & m7) | (a7 & c6) | (m7 & c6);
    proof {
        lemma_carry_chain(a, m, c);
    }
    (r, c7 == 1, c6 ^ c7 == 1)
}

/// Shifts or rotates `v` by one bit, with carry in `c`.
fn shift(op: Mnemonic, v: u8, c: bool) -> (r: (u8, bool))
    ensures
        r == shifted(op, v, c),
{
    match op {
        Mnemonic::ASL => {
            proof {
                assert((v << 1u8) == ((v * 2) % 256) as u8) by (bit_vector);
                assert((v & 0x80 == 0x80) == (v >= 0x80)) by (bit_vector);
            }
            (v << 1u8, v & 0x80 == 0x80)
        },
        Mnemonic::LSR => {
            proof {
                assert((v >> 1u8) == (v / 2) as u8) by (bit_vector);
                assert((v & 1 == 1) == (v % 2 == 1)) by (bit_vector);
            }
            (v >> 1u8, v & 1 == 1)
        },
        Mnemonic::ROL => {
            let cb: u8 = if c { 1 } else { 0 };
            proof {
                assert(cb <= 1 ==> ((v << 1u8) | cb) == (((v * 2) % 256) + cb) as u8)
                    by (bit_vector);
                assert((v & 0x80 == 0x80) == (v >= 0x80)) by (bit_vector);
            }
            ((v << 1u8) | cb, v & 0x80 == 0x80)
        },
        _ => {
            let cb: u8 = if c { 0x80 } else { 0 };
            proof {
                assert((cb == 0 || cb == 0x80) ==> ((v >> 1u8) | cb) == ((v / 2) + cb) as u8)
                    by (bit_vector);
                assert((v & 1 == 1) == (v % 2 == 1)) by (bit_vector);
            }
            ((v >> 1u8) | cb, v & 1 == 1)
        },
    }
}

/// Whether the branch `op` is taken under status `p`.
fn branch_condition(op: Mnemonic, p: &Status) -> (r: bool)
    ensures
        r == branch_taken(op, p@),
{
    match op {
        Mnemonic::BCC => !p.contains(Status::C),
        Mnemonic::BCS => p.contains(Status::C),
        Mnemonic::BEQ => p.contains(Status::Z),
        Mnemonic::BMI => p.contains(Status::N),
        Mnemonic::BNE => !p.contains(Status::Z),
        Mnemonic::BPL => !p.contains(Status::N),
        Mnemonic::BVC => !p.contains(Status::V),
        _ => p.contains(Status::V),
    }
}

/// Takes a branch by the signed displacement in the low byte of `operand`:
/// one cycle, and one more when the target lies on another page than the
/// next instruction.
pub fn branch<B: CpuBus, T: CpuTick>(nes: &mut Nes, operand: u16)
    requires
        old(nes).wf(),
        old(nes).cpu_cycles + 2 <= u128::MAX,
    ensures
        final(nes).cpu == (crate::cpu::Cpu {
            pc: branch_target(old(nes).cpu.pc, operand),
            ..old(nes).cpu
        }),
        final(nes).wram@ == old(nes).wram@,
        clocked(
            final(nes),
            old(nes),
            if other_page(branch_target(old(nes).cpu.pc, operand), old(nes).cpu.pc) {
                2
            } else {
                1
            },
        ),
{
    let d = (operand % 256) as u8;
    let offset: u16 = if d < 0x80 {
        d as u16
    } else {
        d as u16 + 0xFF00
    };
    let pc = nes.cpu.pc;
    let target = pc.wrapping_add(offset);
    T::tick(nes);
    if target & 0xFF00 != pc & 0xFF00 {
        T::tick(nes);
    }
    nes.cpu.pc = target;
}

pub open spec fn is_load_store(op: Mnemonic) -> bool {
    matches!(op, Mnemonic::LDA | Mnemonic::LDX | Mnemonic::LDY | Mnemonic::STA | Mnemonic::STX | Mnemonic::STY)
}

pub open spec fn is_transfer(op: Mnemonic) -> bool {
    matches!(op, Mnemonic::TAX | Mnemonic::TAY | Mnemonic::TXA | Mnemonic::TYA | Mnemonic::TSX | Mnemonic::TXS)
}

pub open spec fn is_stack(op: Mnemonic) -> bool {
    matches!(op, Mnemonic::PHA | Mnemonic::PHP | Mnemonic::PLA | Mnemonic::PLP)
}

pub open spec fn is_alu(op: Mnemonic) -> bool {
    matches!(op, Mnemonic::AND | Mnemonic::EOR | Mnemonic::ORA | Mnemonic::BIT | Mnemonic::ADC
        | Mnemonic::SBC | Mnemonic::CMP | Mnemonic::CPX | Mnemonic::CPY)
}

pub open spec fn is_step(op: Mnemonic) -> bool {
    matches!(op, Mnemonic::INC | Mnemonic::INX | Mnemonic::INY | Mnemonic::DEC | Mnemonic::DEX
        | Mnemonic::DEY)
}

pub open spec fn is_shift(op: Mnemonic) -> bool {
    matches!(op, Mnemonic::ASL | Mnemonic::LSR | Mnemonic::ROL | Mnemonic::ROR)
}

pub open spec fn is_control(op: Mnemonic) -> bool {
    matches!(op, Mnemonic::JMP | Mnemonic::JSR | Mnemonic::RTS | Mnemonic::RTI | Mnemonic::BRK)
}

pub open spec fn is_branch(op: Mnemonic) -> bool {
    matches!(op, Mnemonic::BCC | Mnemonic::BCS | Mnemonic::BEQ | Mnemonic::BMI | Mnemonic::BNE
        | Mnemonic::BPL | Mnemonic::BVC | Mnemonic::BVS)
}

fn execute_load_store<B: CpuBus, T: CpuTick>(nes: &mut Nes, ins: Instruction, operand: u16)
    requires
        old(nes).wf(),
        old(nes).cpu_cycles + 6 <= u128::MAX,
        is_load_store(ins.0),
    ensures
        applied(final(nes), old(nes), effect_of::<B>(ins, operand, old(nes).cpu@, old(nes).wram@)),
{
    match ins.0 {
        Mnemonic::LDA => {
            let v = read::<B, T>(nes, operand);
            nes.cpu.a = v;
            nes.cpu.p.set_zn(v);
        },
        Mnemonic::LDX => {
            let v = read::<B, T>(nes, operand);
            nes.cpu.x = v;
            nes.cpu.p.set_zn(v);
        },
        Mnemonic::LDY => {
            let v = read::<B, T>(nes, operand);
            nes.cpu.y = v;
            nes.cpu.p.set_zn(v);
        },
        Mnemonic::STA => {
            let v = nes.cpu.a;
            crate::bus::write::<B, T>(nes, operand, v);
        },
        Mnemonic::STX => {
            let v = nes.cpu.x;
            crate::bus::write::<B, T>(nes, operand, v);
        },
        _ => {
            let v = nes.cpu.y;
            crate::bus::write::<B, T>(nes, operand, v);
        },
    }
}

fn execute_transfer<B: CpuBus, T: CpuTick>(nes: &mut Nes, ins: Instruction, operand: u16)
    requires
        old(nes).wf(),
        old(nes).cpu_cycles + 6 <= u128::MAX,
        is_transfer(ins.0),
    ensures
        applied(final(nes), old(nes), effect_of::<B>(ins, operand, old(nes).cpu@, old(nes).wram@)),
{
    match ins.0 {
        Mnemonic::TAX => {
            nes.cpu.x = nes.cpu.a;
            nes.cpu.p.set_zn(nes.cpu.a);
        },
        Mnemonic::TAY => {
            nes.cpu.y = nes.cpu.a;
            nes.cpu.p.set_zn(nes.cpu.a);
        },
        Mnemonic::TXA => {
            nes.cpu.a = nes.cpu.x;
            nes.cpu.p.set_zn(nes.cpu.x);
        },
        Mnemonic::TYA => {
            nes.cpu.a = nes.cpu.y;
            nes.cpu.p.set_zn(nes.cpu.y);
        },
        Mnemonic::TSX => {
            nes.cpu.x = nes.cpu.s;
            nes.cpu.p.set_zn(nes.cpu.s);
        },
        _ => {
            nes.cpu.s = nes.cpu.x;
        },
    }
    T::tick(nes);
}

fn execute_stack<B: CpuBus, T: CpuTick>(nes: &mut Nes, ins: Instruction, operand: u16)
    requires
        old(nes).wf(),
        old(nes).cpu_cycles + 6 <= u128::MAX,
        is_stack(ins.0),
    ensures
        applied(final(nes), old(nes), effect_of::<B>(ins, operand, old(nes).cpu@, old(nes).wram@)),
{
    match ins.0 {
        Mnemonic::PHA => {
            let v = nes.cpu.a;
            push_stack::<B, T>(nes, v);
            T::tick(nes);
        },
        Mnemonic::PHP => {
            let v = nes.cpu.p.bits() | Status::INSTRUCTION_B;
            push_stack::<B, T>(nes, v);
            T::tick(nes);
        },
        Mnemonic::PLA => {
            let v = pull_stack::<B, T>(nes);
            nes.cpu.a = v;
            nes.cpu.p.set_zn(v);
            T::tick(nes);
        },
        _ => {
            let v = pull_stack::<B, T>(nes);
            nes.cpu.p = Status::from_bits(v & !Status::INSTRUCTION_B);
            T::tick_n(nes, 2);
        },
    }
}

fn execute_alu<B: CpuBus, T: CpuTick>(nes: &mut Nes, ins: Instruction, operand: u16)
    requires
        old(nes).wf(),
        old(nes).cpu_cycles + 6 <= u128::MAX,
        is_alu(ins.0),
    ensures
        applied(final(nes), old(nes), effect_of::<B>(ins, operand, old(nes).cpu@, old(nes).wram@)),
{
    let m = read::<B, T>(nes, operand);
    match ins.0 {
        Mnemonic::AND => {
            nes.cpu.a = nes.cpu.a & m;
            nes.cpu.p.set_zn(nes.cpu.a);
        },
        Mnemonic::EOR => {
            nes.cpu.a = nes.cpu.a ^ m;
            nes.cpu.p.set_zn(nes.cpu.a);
        },
        Mnemonic::ORA => {
            nes.cpu.a = nes.cpu.a | m;
            nes.cpu.p.set_zn(nes.cpu.a);
        },
        Mnemonic::BIT => {
            let b = nes.cpu.a & m;
            nes.cpu.p.set_zn(b);
            nes.cpu.p.set(Status::V, b & 0x40 == 0x40);
        },
        Mnemonic::ADC | Mnemonic::SBC => {
            let c: u8 = if nes.cpu.p.contains(Status::C) { 1 } else { 0 };
            let operand_bits = if ins.0 == Mnemonic::ADC { m } else { !m };
            proof {
                assert(!m == (0xFF - m) as u8) by (bit_vector);
            }
            let (r, carry, overflow) = add_with_carry(nes.cpu.a, operand_bits, c);
            nes.cpu.p.set(Status::C, carry);
            nes.cpu.p.set(Status::V, overflow);
            nes.cpu.a = r;
            nes.cpu.p.set_zn(r);
        },
        _ => {
            let reg = match ins.0 {
                Mnemonic::CMP => nes.cpu.a,
                Mnemonic::CPX => nes.cpu.x,
                _ => nes.cpu.y,
            };
            let r: i16 = reg as i16 - m as i16;
            proof {
                assert((r as u8) == sub8(reg, m)) by (bit_vector)
                    requires
                        r == reg as i16 - m as i16,
                ;
            }
            nes.cpu.p.set_zn(r as u8);
            nes.cpu.p.set(Status::C, r >= 0);
        },
    }
}

fn execute_step<B: CpuBus, T: CpuTick>(nes: &mut Nes, ins: Instruction, operand: u16)
    requires
        old(nes).wf(),
        old(nes).cpu_cycles + 6 <= u128::MAX,
        is_step(ins.0),
    ensures
        applied(final(nes), old(nes), effect_of::<B>(ins, operand, old(nes).cpu@, old(nes).wram@)),
{
    match ins.0 {
        Mnemonic::INC => {
            let r = read::<B, T>(nes, operand).wrapping_add(1);
            crate::bus::write::<B, T>(nes, operand, r);
            nes.cpu.p.set_zn(r);
        },
        Mnemonic::DEC => {
            let r = read::<B, T>(nes, operand).wrapping_sub(1);
            crate::bus::write::<B, T>(nes, operand, r);
            nes.cpu.p.set_zn(r);
        },
        Mnemonic::INX => {
            nes.cpu.x = nes.cpu.x.wrapping_add(1);
            nes.cpu.p.set_zn(nes.cpu.x);
        },
        Mnemonic::INY => {
            nes.cpu.y = nes.cpu.y.wrapping_add(1);
            nes.cpu.p.set_zn(nes.cpu.y);
        },
        Mnemonic::DEX => {
            nes.cpu.x = nes.cpu.x.wrapping_sub(1);
            nes.cpu.p.set_zn(nes.cpu.x);
        },
        _ => {
            nes.cpu.y = nes.cpu.y.wrapping_sub(1);
            nes.cpu.p.set_zn(nes.cpu.y);
        },
    }
    T::tick(nes);
}

fn execute_shift<B: CpuBus, T: CpuTick>(nes: &mut Nes, ins: Instruction, operand: u16)
    requires
        old(nes).wf(),
        old(nes).cpu_cycles + 6 <= u128::MAX,
        is_shift(ins.0),
    ensures
        applied(final(nes), old(nes), effect_of::<B>(ins, operand, old(nes).cpu@, old(nes).wram@)),
{
    let c = nes.cpu.p.contains(Status::C);
    if ins.1 == AddressingMode::Accumulator {
        let (r, out) = shift(ins.0, nes.cpu.a, c);
        nes.cpu.p.set(Status::C, out);
        nes.cpu.a = r;
        nes.cpu.p.set_zn(r);
    } else {
        let m = read::<B, T>(nes, operand);
        let (r, out) = shift(ins.0, m, c);
        nes.cpu.p.set(Status::C, out);
        nes.cpu.p.set_zn(r);
        crate::bus::write::<B, T>(nes, operand, r);
    }
    T::tick(nes);
}

fn execute_control<B: CpuBus, T: CpuTick>(nes: &mut Nes, ins: Instruction, operand: u16)
    requires
        old(nes).wf(),
        old(nes).cpu_cycles + 6 <= u128::MAX,
        is_control(ins.0),
    ensures
        applied(final(nes), old(nes), effect_of::<B>(ins, operand, old(nes).cpu@, old(nes).wram@)),
{
    match ins.0 {
        Mnemonic::JMP => {
            nes.cpu.pc = operand;
        },
        Mnemonic::JSR => {
            let rtn = nes.cpu.pc.wrapping_sub(1);
            push_stack_word::<B, T>(nes, rtn);
            nes.cpu.pc = operand;
            T::tick(nes);
        },
        Mnemonic::RTS => {
            let rtn = pull_stack_word::<B, T>(nes);
            nes.cpu.pc = rtn.wrapping_add(1);
            T::tick_n(nes, 3);
        },
        Mnemonic::RTI => {
            let v = pull_stack::<B, T>(nes);
            nes.cpu.p = Status::from_bits(v & !Status::INSTRUCTION_B);
            nes.cpu.pc = pull_stack_word::<B, T>(nes);
            T::tick_n(nes, 2);
        },
        _ => {
            let pc = nes.cpu.pc;
            push_stack_word::<B, T>(nes, pc);
            let p = nes.cpu.p.bits() | Status::INSTRUCTION_B;
            push_stack::<B, T>(nes, p);
            nes.cpu.pc = read_word::<B, T>(nes, 0xFFFE);
            T::tick(nes);
        },
    }
}

fn execute_flag<B: CpuBus, T: CpuTick>(nes: &mut Nes, ins: Instruction, operand: u16)
    requires
        old(nes).wf(),
        old(nes).cpu_cycles + 6 <= u128::MAX,
        !is_load_store(ins.0) && !is_transfer(ins.0) && !is_stack(ins.0) && !is_alu(ins.0)
            && !is_step(ins.0) && !is_shift(ins.0) && !is_control(ins.0) && !is_branch(ins.0),
    ensures
        applied(final(nes), old(nes), effect_of::<B>(ins, operand, old(nes).cpu@, old(nes).wram@)),
{
    match ins.0 {
        Mnemonic::CLC => nes.cpu.p.remove(Status::C),
        Mnemonic::CLD => nes.cpu.p.remove(Status::D),
        Mnemonic::CLI => nes.cpu.p.remove(Status::I),
        Mnemonic::CLV => nes.cpu.p.remove(Status::V),
        Mnemonic::SEC => nes.cpu.p.insert(Status::C),
        Mnemonic::SED => nes.cpu.p.insert(Status::D),
        Mnemonic::SEI => nes.cpu.p.insert(Status::I),
        _ => {},
    }
    T::tick(nes);
}

impl Emu {
    /// Carries out `instruction` on its resolved operand, through the bus
    /// and with the cycles that the hardware spends beyond the bus accesses.
    pub fn execute<B: CpuBus, T: CpuTick>(nes: &mut Nes, instruction: Instruction, operand: u16)
        requires
            old(nes).wf(),
            old(nes).cpu_cycles + 6 <= u128::MAX,
        ensures
            applied(
                final(nes),
                old(nes),
                effect_of::<B>(instruction, operand, old(nes).cpu@, old(nes).wram@),
            ),
    {
        match instruction.0 {
            Mnemonic::LDA | Mnemonic::LDX | Mnemonic::LDY | Mnemonic::STA | Mnemonic::STX
            | Mnemonic::STY => execute_load_store::<B, T>(nes, instruction, operand),
            Mnemonic::TAX | Mnemonic::TAY | Mnemonic::TXA | Mnemonic::TYA | Mnemonic::TSX
            | Mnemonic::TXS => execute_transfer::<B, T>(nes, instruction, operand),
            Mnemonic::PHA | Mnemonic::PHP | Mnemonic::PLA | Mnemonic::PLP => execute_stack::<B, T>(
                nes,
                instruction,
                operand,
            ),
            Mnemonic::AND | Mnemonic::EOR | Mnemonic::ORA | Mnemonic::BIT | Mnemonic::ADC
            | Mnemonic::SBC | Mnemonic::CMP | Mnemonic::CPX | Mnemonic::CPY => execute_alu::<B, T>(
                nes,
                instruction,
                operand,
            ),
            Mnemonic::INC | Mnemonic::INX | Mnemonic::INY | Mnemonic::DEC | Mnemonic::DEX
            | Mnemonic::DEY => execute_step::<B, T>(nes, instruction, operand),
            Mnemonic::ASL | Mnemonic::LSR | Mnemonic::ROL | Mnemonic::ROR => execute_shift::<B, T>(
                nes,
                instruction,
                operand,
            ),
            Mnemonic::JMP | Mnemonic::JSR | Mnemonic::RTS | Mnemonic::RTI | Mnemonic::BRK => {
                execute_control::<B, T>(nes, instruction, operand)
            },
            Mnemonic::BCC | Mnemonic::BCS | Mnemonic::BEQ | Mnemonic::BMI | Mnemonic::BNE
            | Mnemonic::BPL | Mnemonic::BVC | Mnemonic::BVS => {
                if branch_condition(instruction.0, &nes.cpu.p) {
                    branch::<B, T>(nes, operand);
                }
            },
            _ => execute_flag::<B, T>(nes, instruction, operand),
        }
    }
}

} // verus!
