//! The Thumb instruction set: decoding of the nineteen formats and their
//! execution over the register file and the bus.
use vstd::prelude::*;

use crate::bus::{Bus, hword_at, word_at};
use crate::cpu::{
    Cpu, Exception, add_flags, add_value, asr_spec, bit, block_loaded, block_addr, block_stored,
    cond_holds, exception_entered, lsl_spec, lsr_spec, nz, nzc, nzcv, regs_in, regs_now,
    reloaded_pc, ror_spec, rotated_load, sbc_subtrahend, sext16, sext8, sub_flags, sub_overflow,
    sub_value, word_span, add_wrap, sub_wrap, count_regs, pc_written,
};
use crate::reg::{OperationState, StatusRegister, LR_INDEX, PC_INDEX, SP_INDEX};

verus! {

/// The bits of `instr` from bit `lo` up, under `mask`.
pub open spec fn field(instr: u16, lo: u16, mask: u16) -> u32 {
    ((instr >> lo) & mask) as u32
}

/// The low register (0..7) named by the three bits of `instr` from `pos`.
pub open spec fn lo_reg(instr: u16, pos: u16) -> int {
    field(instr, pos, 7) as int
}

/// The three-bit register index of `instr` at bit `pos`.
pub fn r_index(instr: u16, pos: u16) -> (r: usize)
    requires
        pos < 14,
    ensures
        r == lo_reg(instr, pos),
        r < 8,
{
    let f = (instr >> pos) & 7;
    proof {
        assert((instr >> pos) & 7u16 <= 7) by (bit_vector);
    }
    f as usize
}

fn bits_of(instr: u16, lo: u16, mask: u16) -> (r: u32)
    requires
        lo < 16,
    ensures
        r == field(instr, lo, mask),
        r <= mask,
{
    proof {
        assert((instr >> lo) & mask <= mask) by (bit_vector);
    }
    ((instr >> lo) & mask) as u32
}

/// The shift that a move-shifted-register instruction performs: an offset
/// of 0 means 32 for the right shifts.
pub open spec fn thumb1_shift(v: u32, op: u32, imm: u32, c: bool) -> (u32, bool) {
    if op == 0 {
        lsl_spec(v, imm, c)
    } else if op == 1 {
        lsr_spec(v, if imm == 0 { 32 } else { imm }, c)
    } else {
        asr_spec(v, if imm == 0 { 32 } else { imm }, c)
    }
}

/// Format 1, move shifted register: `Rd = Rs shifted by #imm`, flags set.
pub open spec fn thumb1_done(a: Cpu, b: Cpu, instr: u16) -> bool {
    let res = thumb1_shift(
        a.reg.r@[lo_reg(instr, 3)],
        field(instr, 11, 3),
        field(instr, 6, 0x1f),
        a.reg.cpsr.carry,
    );
    regs_now(a, b, a.reg.r@.update(lo_reg(instr, 0), res.0), nzc(a.reg.cpsr, res.0, res.1))
}

/// Format 2, add or subtract a register or a 3-bit immediate.
pub open spec fn thumb2_done(a: Cpu, b: Cpu, instr: u16) -> bool {
    let x = a.reg.r@[lo_reg(instr, 3)];
    let n = lo_reg(instr, 6);
    let y = if bit(instr as u32, 10) { n as u32 } else { a.reg.r@[n] };
    let sub = bit(instr as u32, 9);
    let v = if sub { sub_value(x, y) } else { add_value(x, y, false) };
    let s = if sub { sub_flags(a.reg.cpsr, x, y) } else { add_flags(a.reg.cpsr, x, y, false) };
    regs_now(a, b, a.reg.r@.update(lo_reg(instr, 0), v), s)
}

/// Format 3, move, compare, add or subtract an 8-bit immediate.
pub open spec fn thumb3_done(a: Cpu, b: Cpu, instr: u16) -> bool {
    let d = lo_reg(instr, 8);
    let x = a.reg.r@[d];
    let imm = field(instr, 0, 0xff);
    let op = field(instr, 11, 3);
    let s = a.reg.cpsr;
    if op == 0 {
        regs_now(a, b, a.reg.r@.update(d, imm), nz(s, imm))
    } else if op == 1 {
        regs_now(a, b, a.reg.r@, sub_flags(s, x, imm))
    } else if op == 2 {
        regs_now(a, b, a.reg.r@.update(d, add_value(x, imm, false)), add_flags(s, x, imm, false))
    } else {
        regs_now(a, b, a.reg.r@.update(d, sub_value(x, imm)), sub_flags(s, x, imm))
    }
}

/// The value (if any) that an ALU operation writes to `Rd`, and the status
/// word after it, for operands `x` (`Rd`) and `v` (`Rs`).
pub open spec fn thumb4_result(s: StatusRegister, op: u32, x: u32, v: u32) -> (Option<u32>, StatusRegister) {
    let off = v & 0xff;
    if op == 0 {
        (Some(x & v), nz(s, x & v))
    } else if op == 1 {
        (Some(x ^ v), nz(s, x ^ v))
    } else if op == 2 {
        let r = lsl_spec(x, off, s.carry);
        (Some(r.0), nzc(s, r.0, r.1))
    } else if op == 3 {
        let r = lsr_spec(x, off, s.carry);
        (Some(r.0), nzc(s, r.0, r.1))
    } else if op == 4 {
        let r = asr_spec(x, off, s.carry);
        (Some(r.0), nzc(s, r.0, r.1))
    } else if op == 5 {
        (Some(add_value(x, v, s.carry)), add_flags(s, x, v, s.carry))
    } else if op == 6 {
        let y = sbc_subtrahend(v, s.carry);
        let r = sub_value(x, y);
        (Some(r), nzcv(s, r, x >= y, sub_overflow(x, v, r)))
    } else if op == 7 {
        let r = ror_spec(x, off, s.carry);
        (Some(r.0), nzc(s, r.0, r.1))
    } else if op == 8 {
        (None, nz(s, x & v))
    } else if op == 9 {
        (Some(sub_value(0, v)), sub_flags(s, 0, v))
    } else if op == 10 {
        (None, sub_flags(s, x, v))
    } else if op == 11 {
        (None, add_flags(s, x, v, false))
    } else if op == 12 {
        (Some(x | v), nz(s, x | v))
    } else if op == 13 {
        let r = ((x as int * v as int) % word_span()) as u32;
        (Some(r), nz(s, r))
    } else if op == 14 {
        (Some(x & !v), nz(s, x & !v))
    } else {
        (Some(!v), nz(s, !v))
    }
}

/// Format 4, ALU operations between two low registers.
pub open spec fn thumb4_done(a: Cpu, b: Cpu, instr: u16) -> bool {
    let d = lo_reg(instr, 0);
    let res = thumb4_result(
        a.reg.cpsr,
        field(instr, 6, 0xf),
        a.reg.r@[d],
        a.reg.r@[lo_reg(instr, 3)],
    );
    regs_now(
        a,
        b,
        match res.0 {
            Some(v) => a.reg.r@.update(d, v),
            None => a.reg.r@,
        },
        res.1,
    )
}

/// Format 5, operations on any registers, or branch and exchange.
pub open spec fn thumb5_done(a: Cpu, b: Cpu, instr: u16) -> bool {
    let s = lo_reg(instr, 3) + if bit(instr as u32, 6) { 8int } else { 0int };
    let d = lo_reg(instr, 0) + if bit(instr as u32, 7) { 8int } else { 0int };
    let v = a.reg.r@[s];
    let x = a.reg.r@[d];
    let op = field(instr, 8, 3);
    if op == 3 {
        let st = if v & 1 == 1 { OperationState::Thumb } else { OperationState::Arm };
        pc_written(
                a,
                b,
            a.reg.r@.update(15, reloaded_pc(v, st)),
            StatusRegister { state: st, ..a.reg.cpsr },
        )
    } else if op == 1 {
        regs_now(a, b, a.reg.r@, sub_flags(a.reg.cpsr, x, v))
    } else {
        let r = if op == 0 { add_value(x, v, false) } else { v };
        if d == 15 {
            pc_written(
                a,
                b,
                a.reg.r@.update(15, reloaded_pc(r, a.reg.cpsr.state)),
                a.reg.cpsr,
            )
        } else {
            regs_now(a, b, a.reg.r@.update(d, r), a.reg.cpsr)
        }
    }
}

/// Format 6, load relative to the program counter, whose bit 1 reads as
/// zero here.
pub open spec fn thumb6_done<B: Bus>(a: Cpu, b: Cpu, bus: B, instr: u16) -> bool {
    let addr = add_value(a.reg.r@[15] & !2u32, (4 * field(instr, 0, 0xff)) as u32, false);
    regs_now(
        a,
        b,
        a.reg.r@.update(lo_reg(instr, 8), rotated_load(word_at(&bus, addr), addr)),
        a.reg.cpsr,
    )
}

/// The effect of a single load or store of register `d` at `addr`: `op` 0
/// STR, 1 STRB, 2 LDR, 3 LDRB, 4 STRH, 5 LDSB, 6 LDRH, 7 LDSH.
pub open spec fn transfer_done<B: Bus>(a: Cpu, b: Cpu, bus0: B, bus1: B, op: int, d: int, addr: u32) -> bool {
    let v = a.reg.r@[d];
    if op == 0 {
        regs_now(a, b, a.reg.r@, a.reg.cpsr) && bus0.word_stored(bus1, addr, v)
    } else if op == 1 {
        regs_now(a, b, a.reg.r@, a.reg.cpsr) && bus0.byte_stored(bus1, addr, v as u8)
    } else if op == 4 {
        regs_now(a, b, a.reg.r@, a.reg.cpsr) && bus0.hword_stored(bus1, addr, v as u16)
    } else {
        let loaded = if op == 2 {
            rotated_load(word_at(&bus0, addr), addr)
        } else if op == 3 {
            bus0.byte_at(addr) as u32
        } else if op == 5 {
            sext8(bus0.byte_at(addr))
        } else if op == 6 {
            hword_at(&bus0, addr) as u32
        } else {
            sext16(hword_at(&bus0, addr))
        };
        regs_now(a, b, a.reg.r@.update(d, loaded), a.reg.cpsr) && bus1 == bus0
    }
}

/// Formats 7 and 8, loads and stores with a register offset.
pub open spec fn thumb7_thumb8_done<B: Bus>(a: Cpu, b: Cpu, bus0: B, bus1: B, instr: u16) -> bool {
    let addr = add_value(a.reg.r@[lo_reg(instr, 3)], a.reg.r@[lo_reg(instr, 6)], false);
    let op = field(instr, 10, 3) as int + if bit(instr as u32, 9) { 4int } else { 0int };
    transfer_done(a, b, bus0, bus1, op, lo_reg(instr, 0), addr)
}

/// Format 9, loads and stores with a 5-bit immediate offset, scaled by four
/// for words.
pub open spec fn thumb9_done<B: Bus>(a: Cpu, b: Cpu, bus0: B, bus1: B, instr: u16) -> bool {
    let base = a.reg.r@[lo_reg(instr, 3)];
    let imm = field(instr, 6, 0x1f);
    let op = field(instr, 11, 3);
    let (kind, addr) = if op == 0 {
        (0int, add_value(base, (4 * imm) as u32, false))
    } else if op == 1 {
        (2int, add_value(base, (4 * imm) as u32, false))
    } else if op == 2 {
        (1int, add_value(base, imm, false))
    } else {
        (3int, add_value(base, imm, false))
    };
    transfer_done(a, b, bus0, bus1, kind, lo_reg(instr, 0), addr)
}

/// Format 10, half-word loads and stores with an immediate offset.
pub open spec fn thumb10_done<B: Bus>(a: Cpu, b: Cpu, bus0: B, bus1: B, instr: u16) -> bool {
    let addr = add_value(a.reg.r@[lo_reg(instr, 3)], (2 * field(instr, 6, 0x1f)) as u32, false);
    transfer_done(
        a,
        b,
        bus0,
        bus1,
        if bit(instr as u32, 11) { 6int } else { 4int },
        lo_reg(instr, 0),
        addr,
    )
}

/// Format 11, word loads and stores relative to the stack pointer.
pub open spec fn thumb11_done<B: Bus>(a: Cpu, b: Cpu, bus0: B, bus1: B, instr: u16) -> bool {
    let addr = add_value(a.reg.r@[13], (4 * field(instr, 0, 0xff)) as u32, false);
    transfer_done(
        a,
        b,
        bus0,
        bus1,
        if bit(instr as u32, 11) { 2int } else { 0int },
        lo_reg(instr, 8),
        addr,
    )
}

/// Format 12, `Rd = PC or SP + #imm`, where the program counter's bit 1
/// reads as zero; the flags stay.
pub open spec fn thumb12_done(a: Cpu, b: Cpu, instr: u16) -> bool {
    let base = if bit(instr as u32, 11) { a.reg.r@[13] } else { a.reg.r@[15] & !2u32 };
    regs_now(
        a,
        b,
        a.reg.r@.update(lo_reg(instr, 8), add_value(base, field(instr, 0, 0xff), false)),
        a.reg.cpsr,
    )
}

/// Format 13, add a signed offset of 7 bits times four to the stack pointer.
pub open spec fn thumb13_done(a: Cpu, b: Cpu, instr: u16) -> bool {
    let off = (4 * field(instr, 0, 0x7f)) as u32;
    let sp = a.reg.r@[13];
    regs_now(
        a,
        b,
        a.reg.r@.update(
            13,
            if bit(instr as u32, 7) { sub_value(sp, off) } else { add_value(sp, off, false) },
        ),
        a.reg.cpsr,
    )
}

/// Whether `b` and `bus1` follow from `a` and `bus0` by loading the registers
/// of `mask` from the block at `start` and writing `base` to register `rb`
/// first.
pub open spec fn block_load_done<B: Bus>(a: Cpu, b: Cpu, bus0: B, bus1: B, mask: u32, start: u32, rb: int, base: u32) -> bool {
    let r = block_loaded(a.reg.r@.update(rb, base), bus0, mask, 16, start);
    &&& bus1 == bus0
    &&& if bit(mask, 15) {
        pc_written(
                a,
                b,
            r.update(15, reloaded_pc(r[15], a.reg.cpsr.state)),
            a.reg.cpsr,
        )
    } else {
        regs_now(a, b, r, a.reg.cpsr)
    }
}

/// Whether `bus1` follows from `bus0` by storing the registers of `mask` of
/// `a` in the block at `start`, and `b` from `a` by writing `base` to `rb`.
pub open spec fn block_store_done<B: Bus>(a: Cpu, b: Cpu, bus0: B, bus1: B, mask: u32, start: u32, rb: int, base: u32) -> bool {
    &&& regs_now(a, b, a.reg.r@.update(rb, base), a.reg.cpsr)
    &&& exists|states: Seq<B>|
        #[trigger] block_stored(states, a.reg.r@, regs_in(mask, 16), start) && states[0] == bus0
            && states.last() == bus1
}

/// Format 14, push registers (and the link register) or pop registers (and
/// the program counter).
pub open spec fn thumb14_done<B: Bus>(a: Cpu, b: Cpu, bus0: B, bus1: B, instr: u16) -> bool {
    let list = field(instr, 0, 0xff);
    let extra = bit(instr as u32, 8);
    let sp = a.reg.r@[13];
    if bit(instr as u32, 11) {
        let mask = list | if extra { 0x8000u32 } else { 0u32 };
        block_load_done(a, b, bus0, bus1, mask, sp, 13, block_addr(sp, count_regs(mask, 16)))
    } else {
        let mask = list | if extra { 0x4000u32 } else { 0u32 };
        let start = sub_value(sp, (4 * count_regs(mask, 16)) as u32);
        block_store_done(a, b, bus0, bus1, mask, start, 13, start)
    }
}

/// Format 15, load or store multiple registers from the base `Rb`, which is
/// then advanced past the block.
pub open spec fn thumb15_done<B: Bus>(a: Cpu, b: Cpu, bus0: B, bus1: B, instr: u16) -> bool {
    let mask = field(instr, 0, 0xff);
    let rb = lo_reg(instr, 8);
    let base = a.reg.r@[rb];
    let end = block_addr(base, count_regs(mask, 16));
    if bit(instr as u32, 11) {
        block_load_done(a, b, bus0, bus1, mask, base, rb, end)
    } else {
        block_store_done(a, b, bus0, bus1, mask, base, rb, end)
    }
}

/// The target of a conditional branch: the program counter plus twice the
/// signed 8-bit offset.
pub open spec fn thumb16_target(pc: u32, instr: u16) -> u32 {
    add_value(pc, sext8(field(instr, 0, 0xff) as u8) << 1u32, false)
}

/// A branch to `target`, or nothing where `taken` is false.
pub open spec fn branch_done(a: Cpu, b: Cpu, taken: bool, target: u32) -> bool {
    if taken {
        pc_written(
                a,
                b,
            a.reg.r@.update(15, reloaded_pc(target, a.reg.cpsr.state)),
            a.reg.cpsr,
        )
    } else {
        regs_now(a, b, a.reg.r@, a.reg.cpsr)
    }
}

/// Format 16, conditional branch.
pub open spec fn thumb16_done(a: Cpu, b: Cpu, instr: u16) -> bool {
    branch_done(
        a,
        b,
        cond_holds(a.reg.cpsr, field(instr, 8, 0xf)),
        thumb16_target(a.reg.r@[15], instr),
    )
}

/// An 11-bit field sign-extended to 32 bits.
pub open spec fn sext11(x: u32) -> u32 {
    if x >= 0x400 {
        x | 0xFFFF_F800u32
    } else {
        x
    }
}

/// Format 18, unconditional branch by twice a signed 11-bit offset.
pub open spec fn thumb18_done(a: Cpu, b: Cpu, instr: u16) -> bool {
    branch_done(
        a,
        b,
        true,
        add_value(a.reg.r@[15], sext11(field(instr, 0, 0x7ff)) << 1u32, false),
    )
}

/// Format 19, long branch with link. The first half puts the program
/// counter plus the high part of the offset in the link register; the second
/// branches to the link register plus the low part, leaving the address of
/// the next instruction, with bit 0 set, in the link register.
pub open spec fn thumb19_done(a: Cpu, b: Cpu, instr: u16) -> bool {
    let imm = field(instr, 0, 0x7ff);
    let pc = a.reg.r@[15];
    if !bit(instr as u32, 11) {
        regs_now(
            a,
            b,
            a.reg.r@.update(14, add_value(pc, sext11(imm) << 12u32, false)),
            a.reg.cpsr,
        )
    } else {
        let target = add_value(a.reg.r@[14], imm << 1u32, false);
        pc_written(
                a,
                b,
            a.reg.r@.update(14, sub_value(pc, 2) | 1).update(
                15,
                reloaded_pc(target, a.reg.cpsr.state),
            ),
            a.reg.cpsr,
        )
    }
}


/// Which format `instr` falls in, tested in this order; 17 is the software
/// interrupt and 0 an undefined instruction.
pub open spec fn thumb_format(instr: u16) -> int {
    if instr >> 8u16 == 0xb0 {
        13
    } else if instr >> 8u16 == 0xdf {
        17
    } else if instr >> 10u16 == 0x10 {
        4
    } else if instr >> 10u16 == 0x11 {
        5
    } else if instr >> 11u16 == 0x03 {
        2
    } else if instr >> 11u16 == 0x09 {
        6
    } else if instr >> 11u16 == 0x1c {
        18
    } else if instr >> 12u16 == 0x5 {
        7
    } else if instr >> 12u16 == 0x8 {
        10
    } else if instr >> 12u16 == 0x9 {
        11
    } else if instr >> 12u16 == 0xa {
        12
    } else if instr >> 12u16 == 0xb {
        14
    } else if instr >> 12u16 == 0xc {
        15
    } else if instr >> 12u16 == 0xd {
        16
    } else if instr >> 12u16 == 0xf {
        19
    } else if instr >> 13u16 == 0 {
        1
    } else if instr >> 13u16 == 1 {
        3
    } else if instr >> 13u16 == 3 {
        9
    } else {
        0
    }
}

/// Whether `b` and `bus1` follow from `a` and `bus0` by executing the Thumb
/// instruction `instr`.
pub open spec fn thumb_executed<B: Bus>(a: Cpu, b: Cpu, bus0: B, bus1: B, instr: u16) -> bool {
    let f = thumb_format(instr);
    if f == 6 {
        thumb6_done(a, b, bus0, instr) && bus1 == bus0
    } else if f == 7 {
        thumb7_thumb8_done(a, b, bus0, bus1, instr)
    } else if f == 9 {
        thumb9_done(a, b, bus0, bus1, instr)
    } else if f == 10 {
        thumb10_done(a, b, bus0, bus1, instr)
    } else if f == 11 {
        thumb11_done(a, b, bus0, bus1, instr)
    } else if f == 14 {
        thumb14_done(a, b, bus0, bus1, instr)
    } else if f == 15 {
        thumb15_done(a, b, bus0, bus1, instr)
    } else {
        &&& bus1 == bus0
        &&& if f == 1 {
            thumb1_done(a, b, instr)
        } else if f == 2 {
            thumb2_done(a, b, instr)
        } else if f == 3 {
            thumb3_done(a, b, instr)
        } else if f == 4 {
            thumb4_done(a, b, instr)
        } else if f == 5 {
            thumb5_done(a, b, instr)
        } else if f == 12 {
            thumb12_done(a, b, instr)
        } else if f == 13 {
            thumb13_done(a, b, instr)
        } else if f == 16 {
            thumb16_done(a, b, instr)
        } else if f == 18 {
            thumb18_done(a, b, instr)
        } else if f == 19 {
            thumb19_done(a, b, instr)
        } else if f == 17 {
            exception_entered(a, b, Exception::SoftwareInterrupt)
        } else {
            exception_entered(a, b, Exception::UndefinedInstr)
        }
    }
}

fn instr_bit(instr: u16, k: u32) -> (r: bool)
    requires
        k < 16,
    ensures
        r == bit(instr as u32, k),
{
    ((instr as u32) >> k) & 1 == 1
}

/// The number of registers that the list `mask` holds.
pub fn count_list(mask: u32) -> (r: u32)
    ensures
        r == count_regs(mask, 16),
        r <= 16,
{
    let mut n: u32 = 0;
    let mut i: u32 = 0;
    while i < 16
        invariant
            0 <= i <= 16,
            n == count_regs(mask, i as nat),
            n <= i,
        decreases 16 - i,
    {
        if (mask >> i) & 1 == 1 {
            n = n + 1;
        }
        i = i + 1;
    }
    n
}

impl Cpu {
    /// Executes the Thumb instruction `instr`.
    pub fn execute_thumb<B: Bus>(&mut self, bus: &mut B, instr: u16)
        requires
            old(bus).wf(),
            old(self).reg.cpsr.state == OperationState::Thumb,
        ensures
            final(bus).wf(),
            thumb_executed(*old(self), *final(self), *old(bus), *final(bus), instr),
    {
        let h8 = instr >> 8u16;
        let h10 = instr >> 10u16;
        let h11 = instr >> 11u16;
        let h12 = instr >> 12u16;
        let h13 = instr >> 13u16;
        if h8 == 0xb0 {
            self.execute_thumb13(instr);
        } else if h8 == 0xdf {
            self.enter_exception(Exception::SoftwareInterrupt);
        } else if h10 == 0x10 {
            self.execute_thumb4(instr);
        } else if h10 == 0x11 {
            self.execute_thumb5(instr);
        } else if h11 == 0x03 {
            self.execute_thumb2(instr);
        } else if h11 == 0x09 {
            self.execute_thumb6(bus, instr);
        } else if h11 == 0x1c {
            self.execute_thumb18(instr);
        } else if h12 == 0x5 {
            self.execute_thumb7_thumb8(bus, instr);
        } else if h12 == 0x8 {
            self.execute_thumb10(bus, instr);
        } else if h12 == 0x9 {
            self.execute_thumb11(bus, instr);
        } else if h12 == 0xa {
            self.execute_thumb12(instr);
        } else if h12 == 0xb {
            self.execute_thumb14(bus, instr);
        } else if h12 == 0xc {
            self.execute_thumb15(bus, instr);
        } else if h12 == 0xd {
            self.execute_thumb16(instr);
        } else if h12 == 0xf {
            self.execute_thumb19(instr);
        } else if h13 == 0 {
            proof {
                assert(h11 != 3 ==> field(instr, 11, 3) != 3) by (bit_vector)
                    requires h13 == instr >> 13u16, h11 == instr >> 11u16, h13 == 0;
            }
            self.execute_thumb1(instr);
        } else if h13 == 1 {
            self.execute_thumb3(instr);
        } else if h13 == 3 {
            self.execute_thumb9(bus, instr);
        } else {
            self.enter_exception(Exception::UndefinedInstr);
        }
    }

    /// Format 1: move shifted register.
    pub fn execute_thumb1(&mut self, instr: u16)
        requires
            field(instr, 11, 3) != 3,
        ensures
            thumb1_done(*old(self), *final(self), instr),
    {
        let value = self.reg.r[r_index(instr, 3)];
        let offset = bits_of(instr, 6, 0x1f);
        let d = r_index(instr, 0);
        let op = bits_of(instr, 11, 3);
        let r = if op == 0 {
            self.execute_lsl(value, offset)
        } else if op == 1 {
            self.execute_lsr(value, if offset == 0 { 32 } else { offset })
        } else {
            self.execute_asr(value, if offset == 0 { 32 } else { offset })
        };
        self.reg.r[d] = r;
    }

    /// Format 2: add or subtract.
    pub fn execute_thumb2(&mut self, instr: u16)
        ensures
            thumb2_done(*old(self), *final(self), instr),
    {
        let a = self.reg.r[r_index(instr, 3)];
        let n = r_index(instr, 6);
        let b = if instr_bit(instr, 10) { n as u32 } else { self.reg.r[n] };
        let r = if instr_bit(instr, 9) {
            self.execute_sub_cmp(true, a, b)
        } else {
            self.execute_add_cmn(true, a, b)
        };
        self.reg.r[r_index(instr, 0)] = r;
    }

    /// Format 3: move, compare, add or subtract immediate.
    pub fn execute_thumb3(&mut self, instr: u16)
        ensures
            thumb3_done(*old(self), *final(self), instr),
    {
        let value = bits_of(instr, 0, 0xff);
        let d = r_index(instr, 8);
        let op = bits_of(instr, 11, 3);
        let x = self.reg.r[d];
        if op == 0 {
            let r = self.execute_mov(true, value);
            self.reg.r[d] = r;
        } else if op == 1 {
            self.execute_sub_cmp(true, x, value);
        } else if op == 2 {
            let r = self.execute_add_cmn(true, x, value);
            self.reg.r[d] = r;
        } else {
            let r = self.execute_sub_cmp(true, x, value);
            self.reg.r[d] = r;
        }
    }

    /// Format 4: ALU operations.
    #[verifier::rlimit(60)]
    pub fn execute_thumb4(&mut self, instr: u16)
        ensures
            thumb4_done(*old(self), *final(self), instr),
    {
        let d = r_index(instr, 0);
        let value = self.reg.r[r_index(instr, 3)];
        let x = self.reg.r[d];
        let offset = value & 0xff;
        let op = bits_of(instr, 6, 0xf);
        if op == 0 {
            let r = self.execute_and_tst(x, value);
            self.reg.r[d] = r;
        } else if op == 1 {
            let r = self.execute_eor(x, value);
            self.reg.r[d] = r;
        } else if op == 2 {
            let r = self.execute_lsl(x, offset);
            self.reg.r[d] = r;
        } else if op == 3 {
            let r = self.execute_lsr(x, offset);
            self.reg.r[d] = r;
        } else if op == 4 {
            let r = self.execute_asr(x, offset);
            self.reg.r[d] = r;
        } else if op == 5 {
            let r = self.execute_adc(true, x, value);
            self.reg.r[d] = r;
        } else if op == 6 {
            let r = self.execute_sbc(true, x, value);
            self.reg.r[d] = r;
        } else if op == 7 {
            let r = self.execute_ror(x, offset);
            self.reg.r[d] = r;
        } else if op == 8 {
            self.execute_and_tst(x, value);
        } else if op == 9 {
            let r = self.execute_sub_cmp(true, 0, value);
            self.reg.r[d] = r;
        } else if op == 10 {
            self.execute_sub_cmp(true, x, value);
        } else if op == 11 {
            self.execute_add_cmn(true, x, value);
        } else if op == 12 {
            let r = self.execute_orr(x, value);
            self.reg.r[d] = r;
        } else if op == 13 {
            let r = self.execute_mul(x, value);
            self.reg.r[d] = r;
        } else if op == 14 {
            let r = self.execute_bic(x, value);
            self.reg.r[d] = r;
        } else {
            let r = self.execute_mvn(value);
            self.reg.r[d] = r;
        }
    }

    /// Format 5: hi register operations or branch and exchange.
    pub fn execute_thumb5(&mut self, instr: u16)
        ensures
            thumb5_done(*old(self), *final(self), instr),
    {
        let s = r_index(instr, 3) + if instr_bit(instr, 6) { 8 } else { 0 };
        let value = self.reg.r[s];
        let op = bits_of(instr, 8, 3);
        if op == 3 {
            self.execute_bx(value);
        } else {
            let d = r_index(instr, 0) + if instr_bit(instr, 7) { 8 } else { 0 };
            self.execute_hi_op(op, d, value);
        }
    }

    /// ADD (op 0), CMP (op 1) or MOV (op 2) of `value` into register `d`;
    /// only CMP sets flags, and a write of the program counter reloads the
    /// pipeline.
    fn execute_hi_op(&mut self, op: u32, d: usize, value: u32)
        requires
            op < 3,
            d < 16,
        ensures
            ({
                let x = old(self).reg.r@[d as int];
                if op == 1 {
                    regs_now(*old(self), *final(self), old(self).reg.r@, sub_flags(old(self).reg.cpsr, x, value))
                } else {
                    let r = if op == 0 { add_value(x, value, false) } else { value };
                    if d == 15 {
                        pc_written(
                *old(self),
                *final(self),
                            old(self).reg.r@.update(15, reloaded_pc(r, old(self).reg.cpsr.state)),
                            old(self).reg.cpsr,
                        )
                    } else {
                        regs_now(*old(self), *final(self), old(self).reg.r@.update(d as int, r), old(self).reg.cpsr)
                    }
                }
            }),
    {
        let x = self.reg.r[d];
        if op == 1 {
            self.execute_sub_cmp(true, x, value);
            return ;
        }
        let r = if op == 0 { add_wrap(x, value) } else { value };
        if d == PC_INDEX {
            self.execute_branch(r);
        } else {
            self.reg.r[d] = r;
        }
    }

    /// Format 6: load relative to the program counter.
    pub fn execute_thumb6<B: Bus>(&mut self, bus: &B, instr: u16)
        requires
            bus.wf(),
        ensures
            thumb6_done(*old(self), *final(self), *bus, instr),
    {
        let offset = bits_of(instr, 0, 0xff);
        let addr = add_wrap(self.reg.r[PC_INDEX] & !2u32, offset * 4);
        self.reg.r[r_index(instr, 8)] = Cpu::execute_ldr(bus, addr);
    }

    fn transfer<B: Bus>(&mut self, bus: &mut B, op: u32, d: usize, addr: u32)
        requires
            old(bus).wf(),
            op < 8,
            d < 16,
        ensures
            final(bus).wf(),
            transfer_done(*old(self), *final(self), *old(bus), *final(bus), op as int, d as int, addr),
    {
        let v = self.reg.r[d];
        if op == 0 {
            Cpu::execute_str(bus, addr, v);
        } else if op == 1 {
            Cpu::execute_strb(bus, addr, v as u8);
        } else if op == 4 {
            Cpu::execute_strh(bus, addr, v as u16);
        } else if op == 2 {
            self.reg.r[d] = Cpu::execute_ldr(bus, addr);
        } else if op == 3 {
            self.reg.r[d] = Cpu::execute_ldrb_ldsb(bus, addr, false);
        } else if op == 5 {
            self.reg.r[d] = Cpu::execute_ldrb_ldsb(bus, addr, true);
        } else if op == 6 {
            self.reg.r[d] = Cpu::execute_ldrh_ldsh(bus, addr, false);
        } else {
            self.reg.r[d] = Cpu::execute_ldrh_ldsh(bus, addr, true);
        }
    }

    /// Formats 7 and 8: load or store with a register offset.
    pub fn execute_thumb7_thumb8<B: Bus>(&mut self, bus: &mut B, instr: u16)
        requires
            old(bus).wf(),
        ensures
            final(bus).wf(),
            thumb7_thumb8_done(*old(self), *final(self), *old(bus), *final(bus), instr),
    {
        let base = self.reg.r[r_index(instr, 3)];
        let offset = self.reg.r[r_index(instr, 6)];
        let addr = add_wrap(base, offset);
        let op = bits_of(instr, 10, 3) + if instr_bit(instr, 9) { 4 } else { 0 };
        self.transfer(bus, op, r_index(instr, 0), addr);
    }

    /// Format 9: load or store with an immediate offset.
    pub fn execute_thumb9<B: Bus>(&mut self, bus: &mut B, instr: u16)
        requires
            old(bus).wf(),
        ensures
            final(bus).wf(),
            thumb9_done(*old(self), *final(self), *old(bus), *final(bus), instr),
    {
        let base = self.reg.r[r_index(instr, 3)];
        let offset = bits_of(instr, 6, 0x1f);
        let op = bits_of(instr, 11, 3);
        let d = r_index(instr, 0);
        if op == 0 {
            self.transfer(bus, 0, d, add_wrap(base, offset * 4));
        } else if op == 1 {
            self.transfer(bus, 2, d, add_wrap(base, offset * 4));
        } else if op == 2 {
            self.transfer(bus, 1, d, add_wrap(base, offset));
        } else {
            self.transfer(bus, 3, d, add_wrap(base, offset));
        }
    }

    /// Format 10: load or store half-word.
    pub fn execute_thumb10<B: Bus>(&mut self, bus: &mut B, instr: u16)
        requires
            old(bus).wf(),
        ensures
            final(bus).wf(),
            thumb10_done(*old(self), *final(self), *old(bus), *final(bus), instr),
    {
        let base = self.reg.r[r_index(instr, 3)];
        let offset = bits_of(instr, 6, 0x1f);
        let addr = add_wrap(base, offset * 2);
        let op = if instr_bit(instr, 11) { 6 } else { 4 };
        self.transfer(bus, op, r_index(instr, 0), addr);
    }

    /// Format 11: load or store relative to the stack pointer.
    pub fn execute_thumb11<B: Bus>(&mut self, bus: &mut B, instr: u16)
        requires
            old(bus).wf(),
        ensures
            final(bus).wf(),
            thumb11_done(*old(self), *final(self), *old(bus), *final(bus), instr),
    {
        let offset = bits_of(instr, 0, 0xff);
        let addr = add_wrap(self.reg.r[SP_INDEX], offset * 4);
        let op = if instr_bit(instr, 11) { 2 } else { 0 };
        self.transfer(bus, op, r_index(instr, 8), addr);
    }

    /// Format 12: get relative address.
    pub fn execute_thumb12(&mut self, instr: u16)
        ensures
            thumb12_done(*old(self), *final(self), instr),
    {
        let offset = bits_of(instr, 0, 0xff);
        let base = if instr_bit(instr, 11) { self.reg.r[SP_INDEX] } else { self.reg.r[PC_INDEX] & !2u32 };
        let r = self.execute_add_cmn(false, base, offset);
        self.reg.r[r_index(instr, 8)] = r;
    }

    /// Format 13: add offset to the stack pointer.
    #[verifier::rlimit(60)]
    pub fn execute_thumb13(&mut self, instr: u16)
        ensures
            thumb13_done(*old(self), *final(self), instr),
    {
        let offset = bits_of(instr, 0, 0x7f) * 4;
        assert(offset == (4 * field(instr, 0, 0x7f)) as u32);
        let sp = self.reg.r[SP_INDEX];
        let r = if instr_bit(instr, 7) {
            self.execute_sub_cmp(false, sp, offset)
        } else {
            self.execute_add_cmn(false, sp, offset)
        };
        self.reg.r[SP_INDEX] = r;
    }

    /// Format 14: push or pop registers.
    pub fn execute_thumb14<B: Bus>(&mut self, bus: &mut B, instr: u16)
        requires
            old(bus).wf(),
        ensures
            final(bus).wf(),
            thumb14_done(*old(self), *final(self), *old(bus), *final(bus), instr),
    {
        let list = bits_of(instr, 0, 0xff);
        let extra = instr_bit(instr, 8);
        let sp = self.reg.r[SP_INDEX];
        if instr_bit(instr, 11) {
            let mask = list | if extra { 0x8000u32 } else { 0u32 };
            let n = count_list(mask);
            self.reg.r[SP_INDEX] = add_wrap(sp, 4 * n);
            self.load_multiple(bus, mask, sp);
        } else {
            let mask = list | if extra { 0x4000u32 } else { 0u32 };
            let n = count_list(mask);
            let start = sub_wrap(sp, 4 * n);
            self.store_multiple(bus, mask, start);
            self.reg.r[SP_INDEX] = start;
        }
    }

    /// Format 15: load or store multiple, advancing the base register.
    pub fn execute_thumb15<B: Bus>(&mut self, bus: &mut B, instr: u16)
        requires
            old(bus).wf(),
        ensures
            final(bus).wf(),
            thumb15_done(*old(self), *final(self), *old(bus), *final(bus), instr),
    {
        let mask = bits_of(instr, 0, 0xff);
        let rb = r_index(instr, 8);
        let base = self.reg.r[rb];
        let n = count_list(mask);
        let end = add_wrap(base, 4 * n);
        if instr_bit(instr, 11) {
            self.reg.r[rb] = end;
            self.load_multiple(bus, mask, base);
        } else {
            self.store_multiple(bus, mask, base);
            self.reg.r[rb] = end;
        }
    }

    /// Format 16: conditional branch.
    pub fn execute_thumb16(&mut self, instr: u16)
        ensures
            thumb16_done(*old(self), *final(self), instr),
    {
        if self.meets_condition(bits_of(instr, 8, 0xf)) {
            let b = bits_of(instr, 0, 0xff) as u8;
            let sx: u32 = if b >= 0x80 { (b as u32) | 0xFFFF_FF00u32 } else { b as u32 };
            let target = add_wrap(self.reg.r[PC_INDEX], sx << 1u32);
            self.execute_branch(target);
        }
    }

    /// Format 18: unconditional branch.
    pub fn execute_thumb18(&mut self, instr: u16)
        ensures
            thumb18_done(*old(self), *final(self), instr),
    {
        let imm = bits_of(instr, 0, 0x7ff);
        let sx = if imm >= 0x400 { imm | 0xFFFF_F800u32 } else { imm };
        let target = add_wrap(self.reg.r[PC_INDEX], sx << 1u32);
        self.execute_branch(target);
    }

    /// Format 19: long branch with link.
    pub fn execute_thumb19(&mut self, instr: u16)
        ensures
            thumb19_done(*old(self), *final(self), instr),
    {
        let imm = bits_of(instr, 0, 0x7ff);
        let pc = self.reg.r[PC_INDEX];
        if !instr_bit(instr, 11) {
            let sx = if imm >= 0x400 { imm | 0xFFFF_F800u32 } else { imm };
            self.reg.r[LR_INDEX] = add_wrap(pc, sx << 12u32);
        } else {
            let target = add_wrap(self.reg.r[LR_INDEX], imm << 1u32);
            self.reg.r[LR_INDEX] = sub_wrap(pc, 2) | 1;
            self.execute_branch(target);
        }
    }
}

} // verus!
