//! The ARM instruction set, and the processor's fetch-execute step and
//! reset.
use vstd::prelude::*;

use crate::bus::{Bus, hword_at, read_hword, read_word, word_at};
use crate::cpu::{
    Cpu, Exception, add_flags, rotated_load, sext8, sext16, regs_after_switch, banks_after_switch, fiq_bank_after_switch, spsr_after_switch,
    block_addr, count_regs, add_value, add_wrap, asr_spec, bit, cond_holds, exception_entered,
    exception_returned, lsl_spec, lsr_spec, nz, nzc, nzcv, pc_written, regs_now, reloaded_pc,
    ror_spec, sbc_subtrahend, sub_flags, sub_overflow, sub_value, sub_wrap, word_span,
};
use crate::reg::{
    OperationMode, OperationState, StatusRegister, bit_set, instr_size_of, mode_changed, mode_of_bits,
    psr_bits, LR_INDEX, PC_INDEX, SP_INDEX,
};
use crate::thumb::thumb_executed;

verus! {

/// A 24-bit field sign-extended to 32 bits.
pub open spec fn sext24(x: u32) -> u32 {
    if x >= 0x80_0000 {
        x | 0xFF00_0000u32
    } else {
        x
    }
}

/// Rotate right extended: shift right by one, the carry flag entering bit 31.
pub open spec fn rrx_spec(v: u32, c: bool) -> (u32, bool) {
    ((v >> 1u32) | if c { 0x8000_0000u32 } else { 0u32 }, v & 1 == 1)
}

/// A shift of `v` of type `ty` (0 LSL, 1 LSR, 2 ASR, 3 ROR) by the amount
/// `n` held in a register.
pub open spec fn shift_by_reg(ty: u32, v: u32, n: u32, c: bool) -> (u32, bool) {
    if ty == 0 {
        lsl_spec(v, n, c)
    } else if ty == 1 {
        lsr_spec(v, n, c)
    } else if ty == 2 {
        asr_spec(v, n, c)
    } else {
        ror_spec(v, n, c)
    }
}

/// A shift of `v` of type `ty` by an immediate amount `n` (0..31): an
/// amount of 0 means 32 for LSR and ASR, and RRX for ROR.
pub open spec fn shift_by_imm(ty: u32, v: u32, n: u32, c: bool) -> (u32, bool) {
    if ty == 0 {
        lsl_spec(v, n, c)
    } else if ty == 1 {
        lsr_spec(v, if n == 0 { 32 } else { n }, c)
    } else if ty == 2 {
        asr_spec(v, if n == 0 { 32 } else { n }, c)
    } else if n == 0 {
        rrx_spec(v, c)
    } else {
        ror_spec(v, n, c)
    }
}

/// Register `i` read as an operand; the program counter reads 4 further on
/// where a register specifies the shift amount.
pub open spec fn operand_reg(r: Seq<u32>, i: int, reg_shift: bool) -> u32 {
    if i == 15 && reg_shift {
        add_value(r[15], 4, false)
    } else {
        r[i]
    }
}

/// The second operand of a data-processing instruction and the shifter's
/// carry out.
pub open spec fn operand2(r: Seq<u32>, c: bool, instr: u32) -> (u32, bool) {
    if bit(instr, 25) {
        let imm = instr & 0xff;
        let rot = ((instr >> 8u32) & 0xf) * 2;
        if rot == 0 {
            (imm, c)
        } else {
            ror_spec(imm, rot as u32, c)
        }
    } else {
        let rs = bit(instr, 4);
        let v = operand_reg(r, (instr & 0xf) as int, rs);
        let ty = (instr >> 5u32) & 3;
        if rs {
            shift_by_reg(ty, v, r[((instr >> 8u32) & 0xf) as int] & 0xff, c)
        } else {
            shift_by_imm(ty, v, (instr >> 7u32) & 0x1f, c)
        }
    }
}

/// The value (if any) that data-processing operation `op` writes, and the
/// status word its flags give, for operands `a` and `b` and shifter carry
/// `shc`.
pub open spec fn dp_result(s: StatusRegister, op: u32, a: u32, b: u32, shc: bool) -> (Option<u32>, StatusRegister) {
    if op == 0 {
        (Some(a & b), nzc(s, a & b, shc))
    } else if op == 1 {
        (Some(a ^ b), nzc(s, a ^ b, shc))
    } else if op == 2 {
        (Some(sub_value(a, b)), sub_flags(s, a, b))
    } else if op == 3 {
        (Some(sub_value(b, a)), sub_flags(s, b, a))
    } else if op == 4 {
        (Some(add_value(a, b, false)), add_flags(s, a, b, false))
    } else if op == 5 {
        (Some(add_value(a, b, s.carry)), add_flags(s, a, b, s.carry))
    } else if op == 6 {
        let y = sbc_subtrahend(b, s.carry);
        let r = sub_value(a, y);
        (Some(r), nzcv(s, r, a >= y, sub_overflow(a, b, r)))
    } else if op == 7 {
        let y = sbc_subtrahend(a, s.carry);
        let r = sub_value(b, y);
        (Some(r), nzcv(s, r, b >= y, sub_overflow(b, a, r)))
    } else if op == 8 {
        (None, nzc(s, a & b, shc))
    } else if op == 9 {
        (None, nzc(s, a ^ b, shc))
    } else if op == 10 {
        (None, sub_flags(s, a, b))
    } else if op == 11 {
        (None, add_flags(s, a, b, false))
    } else if op == 12 {
        (Some(a | b), nzc(s, a | b, shc))
    } else if op == 13 {
        (Some(b), nzc(s, b, shc))
    } else if op == 14 {
        (Some(a & !b), nzc(s, a & !b, shc))
    } else {
        (Some(!b), nzc(s, !b, shc))
    }
}

/// What a data-processing instruction computes from the processor `a`: the
/// value it writes (if any) and the status word its flags give.
pub open spec fn arm_dp_res(a: Cpu, instr: u32) -> (Option<u32>, StatusRegister) {
    let r = a.reg.r@;
    let op2 = operand2(r, a.reg.cpsr.carry, instr);
    let x = operand_reg(r, ((instr >> 16u32) & 0xf) as int, !bit(instr, 25) && bit(instr, 4));
    dp_result(a.reg.cpsr, (instr >> 21u32) & 0xf, x, op2.0, op2.1)
}

/// Whether `b` follows from `a` by writing result `res` to register `d`,
/// with the flags where `sflag`; a write of the program counter with the
/// flags returns from an exception.
pub open spec fn dp_applied(a: Cpu, b: Cpu, res: (Option<u32>, StatusRegister), sflag: bool, d: int) -> bool {
    let r = a.reg.r@;
    match res.0 {
        None => regs_now(a, b, r, if sflag { res.1 } else { a.reg.cpsr }),
        Some(v) => if d != 15 {
            regs_now(a, b, r.update(d, v), if sflag { res.1 } else { a.reg.cpsr })
        } else if sflag {
            exception_returned(a, b, v)
        } else {
            pc_written(a, b, r.update(15, reloaded_pc(v, a.reg.cpsr.state)), a.reg.cpsr)
        },
    }
}

/// A data-processing instruction.
pub open spec fn arm_dp_done(a: Cpu, b: Cpu, instr: u32) -> bool {
    dp_applied(a, b, arm_dp_res(a, instr), bit(instr, 20), ((instr >> 12u32) & 0xf) as int)
}

/// The address computation of a load or store: the offset `off` is added
/// to or (U clear) taken from the base register; pre-indexing (P) uses the
/// moved address, post-indexing the base; the base is written back when
/// post-indexing or when W is set.
pub open spec fn indexed(r: Seq<u32>, instr: u32, off: u32) -> (u32, u32, bool) {
    let base = r[((instr >> 16u32) & 0xf) as int];
    let moved = if bit(instr, 23) { add_value(base, off, false) } else { sub_value(base, off) };
    (if bit(instr, 24) { moved } else { base }, moved, !bit(instr, 24) || bit(instr, 21))
}

/// The registers after a load of `v` into `d`, with the base written back
/// first where `wb`.
pub open spec fn load_done(a: Cpu, b: Cpu, instr: u32, moved: u32, wb: bool, v: u32) -> bool {
    let n = ((instr >> 16u32) & 0xf) as int;
    let d = ((instr >> 12u32) & 0xf) as int;
    let r1 = if wb { a.reg.r@.update(n, moved) } else { a.reg.r@ };
    if d == 15 {
        pc_written(a, b, r1.update(15, reloaded_pc(v, a.reg.cpsr.state)), a.reg.cpsr)
    } else {
        regs_now(a, b, r1.update(d, v), a.reg.cpsr)
    }
}

/// The value a store of register `d` writes: the program counter reads 4
/// further on.
pub open spec fn store_value(r: Seq<u32>, instr: u32) -> u32 {
    let d = ((instr >> 12u32) & 0xf) as int;
    if d == 15 {
        add_value(r[15], 4, false)
    } else {
        r[d]
    }
}

/// A single data transfer: LDR, LDRB, STR or STRB.
pub open spec fn arm_sdt_done<B: Bus>(a: Cpu, b: Cpu, bus0: B, bus1: B, instr: u32) -> bool {
    let r = a.reg.r@;
    let off = if bit(instr, 25) {
        shift_by_imm((instr >> 5u32) & 3, r[(instr & 0xf) as int], (instr >> 7u32) & 0x1f, a.reg.cpsr.carry).0
    } else {
        instr & 0xfff
    };
    let (addr, moved, wb) = indexed(r, instr, off);
    let n = ((instr >> 16u32) & 0xf) as int;
    if bit(instr, 20) {
        let v = if bit(instr, 22) { bus0.byte_at(addr) as u32 } else { rotated_load(word_at(&bus0, addr), addr) };
        bus1 == bus0 && load_done(a, b, instr, moved, wb, v)
    } else {
        let v = store_value(r, instr);
        &&& if bit(instr, 22) { bus0.byte_stored(bus1, addr, v as u8) } else { bus0.word_stored(bus1, addr, v) }
        &&& regs_now(a, b, if wb { r.update(n, moved) } else { r }, a.reg.cpsr)
    }
}

/// A half-word or signed transfer: LDRH, LDRSB, LDRSH or STRH.
pub open spec fn arm_hdt_done<B: Bus>(a: Cpu, b: Cpu, bus0: B, bus1: B, instr: u32) -> bool {
    let r = a.reg.r@;
    let off = if bit(instr, 22) {
        ((instr >> 4u32) & 0xf0) | (instr & 0xf)
    } else {
        r[(instr & 0xf) as int]
    };
    let (addr, moved, wb) = indexed(r, instr, off);
    let n = ((instr >> 16u32) & 0xf) as int;
    let sh = (instr >> 5u32) & 3;
    if bit(instr, 20) {
        let v = if sh == 1 {
            hword_at(&bus0, addr) as u32
        } else if sh == 2 {
            sext8(bus0.byte_at(addr))
        } else {
            sext16(hword_at(&bus0, addr))
        };
        bus1 == bus0 && load_done(a, b, instr, moved, wb, v)
    } else {
        &&& bus0.hword_stored(bus1, addr, store_value(r, instr) as u16)
        &&& regs_now(a, b, if wb { r.update(n, moved) } else { r }, a.reg.cpsr)
    }
}

/// MUL or MLA: `Rd = Rm * Rs (+ Rn)` modulo 2^32, with sign and zero set
/// where S is.
pub open spec fn arm_mul_done(a: Cpu, b: Cpu, instr: u32) -> bool {
    let r = a.reg.r@;
    let p = r[(instr & 0xf) as int] as int * r[((instr >> 8u32) & 0xf) as int] as int + if bit(instr, 21) {
        r[((instr >> 12u32) & 0xf) as int] as int
    } else {
        0int
    };
    let v = (p % word_span()) as u32;
    regs_now(
        a,
        b,
        r.update(((instr >> 16u32) & 0xf) as int, v),
        if bit(instr, 20) { nz(a.reg.cpsr, v) } else { a.reg.cpsr },
    )
}

/// A 32-bit value read as a signed number.
pub open spec fn as_signed(x: u32) -> int {
    if x >= 0x8000_0000 {
        x as int - word_span()
    } else {
        x as int
    }
}

/// 2^64.
pub open spec fn dword_span() -> int {
    0x1_0000_0000_0000_0000
}

/// UMULL, UMLAL, SMULL or SMLAL: the 64-bit product of `Rm` and `Rs`
/// (signed where bit 22 is set), plus `RdHi:RdLo` where bit 21 is, modulo
/// 2^64, into `RdHi:RdLo`; sign and zero from the 64-bit result where S is.
pub open spec fn arm_mull_done(a: Cpu, b: Cpu, instr: u32) -> bool {
    let r = a.reg.r@;
    let x = r[(instr & 0xf) as int];
    let y = r[((instr >> 8u32) & 0xf) as int];
    let lo_i = ((instr >> 12u32) & 0xf) as int;
    let hi_i = ((instr >> 16u32) & 0xf) as int;
    let prod = if bit(instr, 22) { as_signed(x) * as_signed(y) } else { x as int * y as int };
    let acc = if bit(instr, 21) { r[hi_i] as int * word_span() + r[lo_i] as int } else { 0int };
    let v = (prod + acc) % dword_span();
    let hi = (v / word_span()) as u32;
    regs_now(
        a,
        b,
        r.update(lo_i, (v % word_span()) as u32).update(hi_i, hi),
        if bit(instr, 20) {
            StatusRegister { signed: hi >= 0x8000_0000, zero: v == 0, ..a.reg.cpsr }
        } else {
            a.reg.cpsr
        },
    )
}

/// SWP or SWPB: loads from the address in `Rn` into `Rd` and stores `Rm`
/// there.
pub open spec fn arm_swp_done<B: Bus>(a: Cpu, b: Cpu, bus0: B, bus1: B, instr: u32) -> bool {
    let r = a.reg.r@;
    let addr = r[((instr >> 16u32) & 0xf) as int];
    let m = r[(instr & 0xf) as int];
    let byte = bit(instr, 22);
    let v = if byte { bus0.byte_at(addr) as u32 } else { rotated_load(word_at(&bus0, addr), addr) };
    &&& if byte { bus0.byte_stored(bus1, addr, m as u8) } else { bus0.word_stored(bus1, addr, m) }
    &&& regs_now(a, b, r.update(((instr >> 12u32) & 0xf) as int, v), a.reg.cpsr)
}

/// MRS: `Rd` takes the current (or, with bit 22, the saved) status word.
pub open spec fn arm_mrs_done(a: Cpu, b: Cpu, instr: u32) -> bool {
    let psr = if bit(instr, 22) { a.reg.spsr } else { a.reg.cpsr };
    regs_now(a, b, a.reg.r@.update(((instr >> 12u32) & 0xf) as int, psr_bits(psr)), a.reg.cpsr)
}

/// The operand of MSR: a rotated immediate or register `Rm`.
pub open spec fn msr_operand(r: Seq<u32>, instr: u32) -> u32 {
    if bit(instr, 25) {
        operand2(r, false, instr).0
    } else {
        r[(instr & 0xf) as int]
    }
}

/// Status word `s` after an MSR write of `v`: the flags where the f field is
/// selected (bit 19), the interrupt-disable bits and mode (where valid) where
/// the c field is (bit 16).
pub open spec fn msr_psr(s: StatusRegister, instr: u32, v: u32) -> StatusRegister {
    let s1 = if bit(instr, 19) {
        StatusRegister {
            signed: bit_set(v, 31),
            zero: bit_set(v, 30),
            carry: bit_set(v, 29),
            overflow: bit_set(v, 28),
            ..s
        }
    } else {
        s
    };
    if bit(instr, 16) {
        StatusRegister {
            irq_disabled: bit_set(v, 7),
            fiq_disabled: bit_set(v, 6),
            mode: match mode_of_bits(v) {
                Some(m) => m,
                None => s.mode,
            },
            ..s1
        }
    } else {
        s1
    }
}

/// MSR. A write of the current status word's control field changes mode,
/// with banking, except in User mode, where only the flags change; a mode
/// code that names no mode there is an undefined instruction.
pub open spec fn arm_msr_done(a: Cpu, b: Cpu, instr: u32) -> bool {
    let v = msr_operand(a.reg.r@, instr);
    if bit(instr, 22) {
        &&& b.reg.r@ == a.reg.r@
        &&& b.reg.cpsr == a.reg.cpsr
        &&& b.reg.spsr == msr_psr(a.reg.spsr, instr, v)
        &&& b.reg.banks@ == a.reg.banks@
        &&& b.reg.fiq_r8_12_bank@ == a.reg.fiq_r8_12_bank@
        &&& b.pipeline_reloaded == a.pipeline_reloaded
    } else if bit(instr, 16) && a.reg.cpsr.mode != OperationMode::User {
        match mode_of_bits(v) {
            None => exception_entered(a, b, Exception::UndefinedInstr),
            Some(m) => {
                &&& b.reg.r@ == regs_after_switch(a.reg, m)
                &&& b.reg.banks@ == banks_after_switch(a.reg, m)
                &&& b.reg.fiq_r8_12_bank@ == fiq_bank_after_switch(a.reg, m)
                &&& b.reg.spsr == spsr_after_switch(a.reg, m)
                &&& b.reg.cpsr == msr_psr(a.reg.cpsr, instr, v)
                &&& b.pipeline_reloaded == a.pipeline_reloaded
            },
        }
    } else {
        regs_now(a, b, a.reg.r@, msr_psr(a.reg.cpsr, instr & !0x1_0000u32, v))
    }
}

/// The first address of a block transfer of `n` registers from base `base`:
/// upwards (U) from `base` or, pre-indexed (P), from `base + 4`; downwards
/// ending at `base` or, pre-indexed, at `base - 4`.
pub open spec fn block_start(base: u32, n: nat, instr: u32) -> u32 {
    let up = bit(instr, 23);
    let pre = bit(instr, 24);
    if up {
        if pre { add_value(base, 4, false) } else { base }
    } else {
        let low = sub_value(base, (4 * n) as u32);
        if pre { low } else { add_value(low, 4, false) }
    }
}

/// LDM or STM of the registers of `mask`: the listed registers, lowest at
/// the lowest address; the base moves past the block where W is set.
pub open spec fn block_plain_done<B: Bus>(a: Cpu, b: Cpu, bus0: B, bus1: B, instr: u32, mask: u32) -> bool {
    let n = count_regs(instr & 0xffff, 16);
    let rn = ((instr >> 16u32) & 0xf) as int;
    let base = a.reg.r@[rn];
    let end = if bit(instr, 23) { add_value(base, (4 * n) as u32, false) } else { sub_value(base, (4 * n) as u32) };
    let nb = if bit(instr, 21) { end } else { base };
    let start = block_start(base, n, instr);
    if bit(instr, 20) {
        crate::thumb::block_load_done(a, b, bus0, bus1, mask, start, rn, nb)
    } else {
        crate::thumb::block_store_done(a, b, bus0, bus1, mask, start, rn, nb)
    }
}

/// The address of the last word of the block of an LDM or STM.
pub open spec fn block_last(a: Cpu, instr: u32) -> u32 {
    let mask = instr & 0xffff;
    let n = count_regs(mask, 16);
    block_addr(block_start(a.reg.r@[((instr >> 16u32) & 0xf) as int], n, instr), (n - 1) as nat)
}

/// LDM or STM. With the S bit, an LDM that loads the program counter
/// returns from an exception (the saved status word becomes current);
/// otherwise the transfer uses the User mode registers.
pub open spec fn arm_block_done<B: Bus>(a: Cpu, b: Cpu, bus0: B, bus1: B, instr: u32) -> bool {
    let mask = instr & 0xffff;
    if !bit(instr, 22) {
        block_plain_done(a, b, bus0, bus1, instr, mask)
    } else if bit(instr, 20) && bit(mask, 15) {
        exists|u: Cpu|
            #[trigger] block_plain_done(a, u, bus0, bus1, instr, mask & 0x7fff) && exception_returned(
                u,
                b,
                word_at(&bus0, block_last(a, instr)),
            )
    } else {
        exists|u1: Cpu, u2: Cpu|
            #[trigger] user_bank_transfer(a, u1, u2, b) && block_plain_done(u1, u2, bus0, bus1, instr, mask)
    }
}

/// Whether `u1` is `a` switched to User mode and `b` is `u2` switched back to
/// `a`'s mode.
pub open spec fn user_bank_transfer(a: Cpu, u1: Cpu, u2: Cpu, b: Cpu) -> bool {
    &&& mode_changed(a.reg, u1.reg, OperationMode::User)
    &&& u1.pipeline_reloaded == a.pipeline_reloaded
    &&& mode_changed(u2.reg, b.reg, a.reg.cpsr.mode)
    &&& b.pipeline_reloaded == u2.pipeline_reloaded
}

/// Which class the ARM instruction `instr` falls in, tested in this order:
/// 1 branch and exchange, 4 multiply, 12 long multiply, 5 swap, 6 half-word transfer, 7 MRS, 8
/// MSR, 9 data processing, 10 single data transfer, 11 block transfer, 2
/// branch, 3 software interrupt, 0 undefined.
pub open spec fn arm_class(instr: u32) -> int {
    let sh = (instr >> 5u32) & 3;
    if instr & 0x0fff_fff0 == 0x012f_ff10 {
        1
    } else if instr & 0x0fc0_00f0 == 0x0000_0090 {
        4
    } else if instr & 0x0f80_00f0 == 0x0080_0090 {
        12
    } else if instr & 0x0fb0_0ff0 == 0x0100_0090 {
        5
    } else if instr & 0x0e00_0090 == 0x0000_0090 {
        if sh != 0 && (bit(instr, 20) || sh == 1) { 6 } else { 0 }
    } else if instr & 0x0fbf_0fff == 0x010f_0000 {
        7
    } else if instr & 0x0db0_f000 == 0x0120_f000 {
        8
    } else if (instr >> 26u32) & 3 == 0 {
        if (instr >> 23u32) & 3 == 2 && !bit(instr, 20) { 0 } else { 9 }
    } else if (instr >> 26u32) & 3 == 1 {
        if bit(instr, 25) && bit(instr, 4) { 0 } else { 10 }
    } else if (instr >> 25u32) & 7 == 4 {
        11
    } else if (instr >> 25u32) & 7 == 5 {
        2
    } else if (instr >> 24u32) & 0xf == 0xf {
        3
    } else {
        0
    }
}

/// Whether `b` and `bus1` follow from `a` and `bus0` by executing the ARM
/// instruction `instr`: nothing where its condition fails; otherwise by its
/// class.
pub open spec fn arm_executed<B: Bus>(a: Cpu, b: Cpu, bus0: B, bus1: B, instr: u32) -> bool {
    let pc = a.reg.r@[15];
    let k = arm_class(instr);
    if !cond_holds(a.reg.cpsr, instr >> 28u32) {
        bus1 == bus0 && regs_now(a, b, a.reg.r@, a.reg.cpsr)
    } else if k == 5 {
        arm_swp_done(a, b, bus0, bus1, instr)
    } else if k == 6 {
        arm_hdt_done(a, b, bus0, bus1, instr)
    } else if k == 10 {
        arm_sdt_done(a, b, bus0, bus1, instr)
    } else if k == 11 {
        arm_block_done(a, b, bus0, bus1, instr)
    } else {
        &&& bus1 == bus0
        &&& if k == 1 {
            let target = a.reg.r@[(instr & 0xf) as int];
            let st = if target & 1 == 1 { OperationState::Thumb } else { OperationState::Arm };
            pc_written(a, b, a.reg.r@.update(15, reloaded_pc(target, st)), StatusRegister { state: st, ..a.reg.cpsr })
        } else if k == 2 {
            let target = add_value(pc, sext24(instr & 0xff_ffff) << 2u32, false);
            let r = if (instr >> 24u32) & 1 == 1 { a.reg.r@.update(14, sub_value(pc, 4)) } else { a.reg.r@ };
            pc_written(a, b, r.update(15, reloaded_pc(target, a.reg.cpsr.state)), a.reg.cpsr)
        } else if k == 3 {
            exception_entered(a, b, Exception::SoftwareInterrupt)
        } else if k == 4 {
            arm_mul_done(a, b, instr)
        } else if k == 12 {
            arm_mull_done(a, b, instr)
        } else if k == 7 {
            arm_mrs_done(a, b, instr)
        } else if k == 8 {
            arm_msr_done(a, b, instr)
        } else if k == 9 {
            arm_dp_done(a, b, instr)
        } else {
            exception_entered(a, b, Exception::UndefinedInstr)
        }
    }
}

/// The address of the instruction that the next step executes.
pub open spec fn fetch_addr(c: Cpu) -> u32 {
    sub_value(c.reg.r@[15], (2 * instr_size_of(c.reg.cpsr.state)) as u32)
}

/// The processor after an instruction that left it as `c`: the program
/// counter moves on by one instruction unless the instruction reloaded the
/// pipeline.
pub open spec fn advanced(c: Cpu) -> Seq<u32> {
    if c.pipeline_reloaded {
        c.reg.r@
    } else {
        c.reg.r@.update(15, add_value(c.reg.r@[15], instr_size_of(c.reg.cpsr.state), false))
    }
}

/// Whether `b` and `bus2` follow from `a` and `bus0` by one step that went
/// through `bus1` (the bus once told of the fetch) and `c` (the processor
/// once the instruction ran).
pub open spec fn cpu_stepped<B: Bus>(a: Cpu, b: Cpu, bus0: B, bus2: B, bus1: B, c: Cpu) -> bool {
    let c0 = Cpu { pipeline_reloaded: false, ..a };
    let addr = fetch_addr(a);
    &&& bus0.fetch_noted(bus1, addr)
    &&& bus1.wf()
    &&& if a.reg.cpsr.state == OperationState::Thumb {
        thumb_executed(c0, c, bus1, bus2, hword_at(&bus1, addr))
    } else {
        arm_executed(c0, c, bus1, bus2, word_at(&bus1, addr))
    }
    &&& regs_now(c, Cpu { pipeline_reloaded: c.pipeline_reloaded, ..b }, advanced(c), c.reg.cpsr)
}

/// The first address of a block transfer of `n` registers, and the base
/// register's value after it.
fn block_bounds(base: u32, n: u32, instr: u32) -> (r: (u32, u32))
    requires
        n <= 16,
    ensures
        r.0 == block_start(base, n as nat, instr),
        r.1 == if bit(instr, 21) {
            if bit(instr, 23) { add_value(base, (4 * n) as u32, false) } else { sub_value(base, (4 * n) as u32) }
        } else {
            base
        },
{
    let up = (instr >> 23u32) & 1 == 1;
    let pre = (instr >> 24u32) & 1 == 1;
    let end = if up { add_wrap(base, 4 * n) } else { sub_wrap(base, 4 * n) };
    let nb = if (instr >> 21u32) & 1 == 1 { end } else { base };
    let start = if up {
        if pre { add_wrap(base, 4) } else { base }
    } else {
        let low = sub_wrap(base, 4 * n);
        if pre { low } else { add_wrap(low, 4) }
    };
    (start, nb)
}

/// The low 32 bits of `x * y + acc`.
fn mul_low(x: u32, y: u32, acc: u32) -> (r: u32)
    ensures
        r == ((x as int * y as int + acc as int) % word_span()) as u32,
{
    proof {
        assert(x as int * y as int <= 0xFFFF_FFFFint * 0xFFFF_FFFFint) by (nonlinear_arith)
            requires x <= 0xFFFF_FFFFu32, y <= 0xFFFF_FFFFu32;
    }
    let p: u64 = x as u64 * y as u64 + acc as u64;
    (p % 0x1_0000_0000u64) as u32
}

/// `(x * y + acc) mod 2^64`, with `x` and `y` read as signed where `signed`.
fn mul_long(x: u32, y: u32, signed: bool, acc: u64) -> (r: u64)
    ensures
        r as int == ((if signed { as_signed(x) * as_signed(y) } else { x as int * y as int }) + acc as int)
            % dword_span(),
{
    let sx: i128 = if signed && x >= 0x8000_0000 { x as i128 - 0x1_0000_0000i128 } else { x as i128 };
    let sy: i128 = if signed && y >= 0x8000_0000 { y as i128 - 0x1_0000_0000i128 } else { y as i128 };
    proof {
        assert(-0x1_0000_0000int * 0x1_0000_0000int <= sx as int * sy as int <= 0x1_0000_0000int * 0x1_0000_0000int)
            by (nonlinear_arith)
            requires -0x1_0000_0000int <= sx <= 0x1_0000_0000int, -0x1_0000_0000int <= sy <= 0x1_0000_0000int;
    }
    let p: i128 = sx * sy + acc as i128;
    let q: u128 = (p + 0x1_0000_0000_0000_0000i128) as u128;
    proof {
        vstd::arithmetic::div_mod::lemma_mod_add_multiples_vanish(p as int, dword_span());
    }
    (q % 0x1_0000_0000_0000_0000u128) as u64
}

fn shift_reg_exec(ty: u32, v: u32, n: u32, c: bool) -> (r: (u32, bool))
    ensures
        r == shift_by_reg(ty, v, n, c),
{
    let mut t = Cpu::new();
    t.reg.cpsr.carry = c;
    let x = if ty == 0 {
        t.execute_lsl(v, n)
    } else if ty == 1 {
        t.execute_lsr(v, n)
    } else if ty == 2 {
        t.execute_asr(v, n)
    } else {
        t.execute_ror(v, n)
    };
    (x, t.reg.cpsr.carry)
}

fn operand2_exec(r: &[u32; 16], c: bool, instr: u32) -> (res: (u32, bool))
    ensures
        res == operand2(r@, c, instr),
{
    if (instr >> 25u32) & 1 == 1 {
        let imm = instr & 0xff;
        assert((instr >> 8u32) & 0xf <= 15) by (bit_vector);
        let rot = ((instr >> 8u32) & 0xf) * 2;
        if rot == 0 {
            (imm, c)
        } else {
            shift_reg_exec(3, imm, rot, c)
        }
    } else {
        let rs = (instr >> 4u32) & 1 == 1;
        assert(instr & 0xf < 16 && (instr >> 8u32) & 0xf < 16 && (instr >> 5u32) & 3 <= 3) by (bit_vector);
        let m = (instr & 0xf) as usize;
        let v = if m == 15 && rs { add_wrap(r[15], 4) } else { r[m] };
        let ty = (instr >> 5u32) & 3;
        if rs {
            shift_reg_exec(ty, v, r[((instr >> 8u32) & 0xf) as usize] & 0xff, c)
        } else {
            let n = (instr >> 7u32) & 0x1f;
            if ty == 3 && n == 0 {
                ((v >> 1u32) | if c { 0x8000_0000u32 } else { 0u32 }, v & 1 == 1)
            } else if (ty == 1 || ty == 2) && n == 0 {
                shift_reg_exec(ty, v, 32, c)
            } else {
                shift_reg_exec(ty, v, n, c)
            }
        }
    }
}

fn dp_logic(s: StatusRegister, op: u32, a: u32, b: u32, shc: bool) -> (r: (Option<u32>, StatusRegister))
    requires
        op == 0 || op == 1 || op == 8 || op == 9 || op >= 12,
    ensures
        r == dp_result(s, op, a, b, shc),
{
    let v = if op == 0 || op == 8 {
        a & b
    } else if op == 1 || op == 9 {
        a ^ b
    } else if op == 12 {
        a | b
    } else if op == 13 {
        b
    } else if op == 14 {
        a & !b
    } else {
        !b
    };
    let f = StatusRegister { signed: v >= 0x8000_0000, zero: v == 0, carry: shc, ..s };
    if op == 8 || op == 9 {
        (None, f)
    } else {
        (Some(v), f)
    }
}

fn dp_arith(s: StatusRegister, op: u32, a: u32, b: u32) -> (r: (Option<u32>, StatusRegister))
    requires
        2 <= op <= 7 || op == 10 || op == 11,
    ensures
        r == dp_result(s, op, a, b, false),
{
    let mut t = Cpu::new();
    t.reg.cpsr = s;
    if op == 2 || op == 10 {
        let v = t.execute_sub_cmp(true, a, b);
        (if op == 2 { Some(v) } else { None }, t.reg.cpsr)
    } else if op == 3 {
        let v = t.execute_sub_cmp(true, b, a);
        (Some(v), t.reg.cpsr)
    } else if op == 4 || op == 11 {
        let v = t.execute_add_cmn(true, a, b);
        (if op == 4 { Some(v) } else { None }, t.reg.cpsr)
    } else if op == 5 {
        let v = t.execute_adc(true, a, b);
        (Some(v), t.reg.cpsr)
    } else if op == 6 {
        let v = t.execute_sbc(true, a, b);
        (Some(v), t.reg.cpsr)
    } else {
        let v = t.execute_sbc(true, b, a);
        (Some(v), t.reg.cpsr)
    }
}

fn dp_exec(s: StatusRegister, op: u32, a: u32, b: u32, shc: bool) -> (r: (Option<u32>, StatusRegister))
    requires
        op < 16,
    ensures
        r == dp_result(s, op, a, b, shc),
{
    if op == 0 || op == 1 || op == 8 || op == 9 || op >= 12 {
        dp_logic(s, op, a, b, shc)
    } else {
        dp_arith(s, op, a, b)
    }
}

impl Cpu {
    fn dp_eval(&self, instr: u32) -> (r: (Option<u32>, StatusRegister))
        ensures
            r == arm_dp_res(*self, instr),
    {
        let op2 = operand2_exec(&self.reg.r, self.reg.cpsr.carry, instr);
        assert((instr >> 16u32) & 0xf < 16 && (instr >> 21u32) & 0xf < 16) by (bit_vector);
        let n = ((instr >> 16u32) & 0xf) as usize;
        let reg_shift = !((instr >> 25u32) & 1 == 1) && (instr >> 4u32) & 1 == 1;
        let x = if n == 15 && reg_shift { add_wrap(self.reg.r[15], 4) } else { self.reg.r[n] };
        dp_exec(self.reg.cpsr, (instr >> 21u32) & 0xf, x, op2.0, op2.1)
    }

    fn dp_apply(&mut self, res: (Option<u32>, StatusRegister), sflag: bool, d: usize)
        requires
            d < 16,
        ensures
            dp_applied(*old(self), *final(self), res, sflag, d as int),
    {
        match res.0 {
            None => {
                if sflag {
                    self.reg.cpsr = res.1;
                }
            },
            Some(v) => {
                if d != 15 {
                    self.reg.r[d] = v;
                    if sflag {
                        self.reg.cpsr = res.1;
                    }
                } else if sflag {
                    self.return_from_exception(v);
                } else {
                    self.execute_branch(v);
                }
            },
        }
    }

    /// Executes a data-processing instruction.
    pub fn execute_arm_dp(&mut self, instr: u32)
        ensures
            arm_dp_done(*old(self), *final(self), instr),
    {
        let res = self.dp_eval(instr);
        assert((instr >> 12u32) & 0xf < 16) by (bit_vector);
        self.dp_apply(res, (instr >> 20u32) & 1 == 1, ((instr >> 12u32) & 0xf) as usize);
    }

    fn load_finish(&mut self, instr: u32, moved: u32, wb: bool, v: u32)
        ensures
            load_done(*old(self), *final(self), instr, moved, wb, v),
    {
        assert((instr >> 16u32) & 0xf < 16 && (instr >> 12u32) & 0xf < 16) by (bit_vector);
        let n = ((instr >> 16u32) & 0xf) as usize;
        let d = ((instr >> 12u32) & 0xf) as usize;
        if wb {
            self.reg.r[n] = moved;
        }
        if d == 15 {
            self.execute_branch(v);
        } else {
            self.reg.r[d] = v;
        }
    }

    fn index_exec(&self, instr: u32, off: u32) -> (r: (u32, u32, bool))
        ensures
            r == indexed(self.reg.r@, instr, off),
    {
        assert((instr >> 16u32) & 0xf < 16) by (bit_vector);
        let base = self.reg.r[((instr >> 16u32) & 0xf) as usize];
        let moved = if (instr >> 23u32) & 1 == 1 { add_wrap(base, off) } else { sub_wrap(base, off) };
        (if (instr >> 24u32) & 1 == 1 { moved } else { base }, moved, !((instr >> 24u32) & 1 == 1) || (instr >> 21u32) & 1 == 1)
    }

    fn store_value_exec(&self, instr: u32) -> (r: u32)
        ensures
            r == store_value(self.reg.r@, instr),
    {
        assert((instr >> 12u32) & 0xf < 16) by (bit_vector);
        let d = ((instr >> 12u32) & 0xf) as usize;
        if d == 15 {
            add_wrap(self.reg.r[15], 4)
        } else {
            self.reg.r[d]
        }
    }

    /// Executes a single data transfer (LDR, LDRB, STR, STRB).
    pub fn execute_arm_sdt<B: Bus>(&mut self, bus: &mut B, instr: u32)
        requires
            old(bus).wf(),
        ensures
            final(bus).wf(),
            arm_sdt_done(*old(self), *final(self), *old(bus), *final(bus), instr),
    {
        assert(instr & 0xf < 16 && (instr >> 5u32) & 3 <= 3 && (instr >> 16u32) & 0xf < 16) by (bit_vector);
        let off = if (instr >> 25u32) & 1 == 1 {
            let v = self.reg.r[(instr & 0xf) as usize];
            let ty = (instr >> 5u32) & 3;
            let n = (instr >> 7u32) & 0x1f;
            let c = self.reg.cpsr.carry;
            if ty == 3 && n == 0 {
                (v >> 1u32) | if c { 0x8000_0000u32 } else { 0u32 }
            } else if (ty == 1 || ty == 2) && n == 0 {
                shift_reg_exec(ty, v, 32, c).0
            } else {
                shift_reg_exec(ty, v, n, c).0
            }
        } else {
            instr & 0xfff
        };
        let (addr, moved, wb) = self.index_exec(instr, off);
        if (instr >> 20u32) & 1 == 1 {
            let v = if (instr >> 22u32) & 1 == 1 {
                Cpu::execute_ldrb_ldsb(bus, addr, false)
            } else {
                Cpu::execute_ldr(bus, addr)
            };
            self.load_finish(instr, moved, wb, v);
        } else {
            let v = self.store_value_exec(instr);
            if (instr >> 22u32) & 1 == 1 {
                Cpu::execute_strb(bus, addr, v as u8);
            } else {
                Cpu::execute_str(bus, addr, v);
            }
            if wb {
                self.reg.r[((instr >> 16u32) & 0xf) as usize] = moved;
            }
        }
    }

    /// Executes a half-word or signed transfer (LDRH, LDRSB, LDRSH, STRH).
    pub fn execute_arm_hdt<B: Bus>(&mut self, bus: &mut B, instr: u32)
        requires
            old(bus).wf(),
        ensures
            final(bus).wf(),
            arm_hdt_done(*old(self), *final(self), *old(bus), *final(bus), instr),
    {
        assert(instr & 0xf < 16 && (instr >> 16u32) & 0xf < 16) by (bit_vector);
        let off = if (instr >> 22u32) & 1 == 1 {
            ((instr >> 4u32) & 0xf0) | (instr & 0xf)
        } else {
            self.reg.r[(instr & 0xf) as usize]
        };
        let (addr, moved, wb) = self.index_exec(instr, off);
        let sh = (instr >> 5u32) & 3;
        if (instr >> 20u32) & 1 == 1 {
            let v = if sh == 1 {
                Cpu::execute_ldrh_ldsh(bus, addr, false)
            } else if sh == 2 {
                Cpu::execute_ldrb_ldsb(bus, addr, true)
            } else {
                Cpu::execute_ldrh_ldsh(bus, addr, true)
            };
            self.load_finish(instr, moved, wb, v);
        } else {
            let v = self.store_value_exec(instr);
            Cpu::execute_strh(bus, addr, v as u16);
            if wb {
                self.reg.r[((instr >> 16u32) & 0xf) as usize] = moved;
            }
        }
    }

    /// Executes MUL or MLA.
    pub fn execute_arm_mul(&mut self, instr: u32)
        ensures
            arm_mul_done(*old(self), *final(self), instr),
    {
        assert(instr & 0xf < 16 && (instr >> 8u32) & 0xf < 16 && (instr >> 12u32) & 0xf < 16
            && (instr >> 16u32) & 0xf < 16) by (bit_vector);
        let x = self.reg.r[(instr & 0xf) as usize];
        let y = self.reg.r[((instr >> 8u32) & 0xf) as usize];
        let acc: u32 = if (instr >> 21u32) & 1 == 1 { self.reg.r[((instr >> 12u32) & 0xf) as usize] } else { 0 };
        let v = mul_low(x, y, acc);
        self.reg.r[((instr >> 16u32) & 0xf) as usize] = v;
        if (instr >> 20u32) & 1 == 1 {
            self.reg.cpsr.signed = v >= 0x8000_0000;
            self.reg.cpsr.zero = v == 0;
        }
    }

    /// Executes UMULL, UMLAL, SMULL or SMLAL.
    pub fn execute_arm_mull(&mut self, instr: u32)
        ensures
            arm_mull_done(*old(self), *final(self), instr),
    {
        assert(instr & 0xf < 16 && (instr >> 8u32) & 0xf < 16 && (instr >> 12u32) & 0xf < 16
            && (instr >> 16u32) & 0xf < 16) by (bit_vector);
        let x = self.reg.r[(instr & 0xf) as usize];
        let y = self.reg.r[((instr >> 8u32) & 0xf) as usize];
        let lo_i = ((instr >> 12u32) & 0xf) as usize;
        let hi_i = ((instr >> 16u32) & 0xf) as usize;
        let acc: u64 = if (instr >> 21u32) & 1 == 1 {
            (self.reg.r[hi_i] as u64) * 0x1_0000_0000u64 + self.reg.r[lo_i] as u64
        } else {
            0
        };
        let v = mul_long(x, y, (instr >> 22u32) & 1 == 1, acc);
        let hi = (v / 0x1_0000_0000u64) as u32;
        self.reg.r[lo_i] = (v % 0x1_0000_0000u64) as u32;
        self.reg.r[hi_i] = hi;
        if (instr >> 20u32) & 1 == 1 {
            self.reg.cpsr.signed = hi >= 0x8000_0000;
            self.reg.cpsr.zero = v == 0;
        }
    }

    /// Executes SWP or SWPB.
    pub fn execute_arm_swp<B: Bus>(&mut self, bus: &mut B, instr: u32)
        requires
            old(bus).wf(),
        ensures
            final(bus).wf(),
            arm_swp_done(*old(self), *final(self), *old(bus), *final(bus), instr),
    {
        assert(instr & 0xf < 16 && (instr >> 12u32) & 0xf < 16 && (instr >> 16u32) & 0xf < 16) by (bit_vector);
        let addr = self.reg.r[((instr >> 16u32) & 0xf) as usize];
        let m = self.reg.r[(instr & 0xf) as usize];
        let v = if (instr >> 22u32) & 1 == 1 {
            let v = Cpu::execute_ldrb_ldsb(bus, addr, false);
            Cpu::execute_strb(bus, addr, m as u8);
            v
        } else {
            let v = Cpu::execute_ldr(bus, addr);
            Cpu::execute_str(bus, addr, m);
            v
        };
        self.reg.r[((instr >> 12u32) & 0xf) as usize] = v;
    }

    /// Executes MRS.
    pub fn execute_arm_mrs(&mut self, instr: u32)
        ensures
            arm_mrs_done(*old(self), *final(self), instr),
    {
        assert((instr >> 12u32) & 0xf < 16) by (bit_vector);
        let psr = if (instr >> 22u32) & 1 == 1 { self.reg.spsr } else { self.reg.cpsr };
        self.reg.r[((instr >> 12u32) & 0xf) as usize] = psr.bits();
    }

    fn msr_value(&self, instr: u32) -> (v: u32)
        ensures
            v == msr_operand(self.reg.r@, instr),
    {
        assert(instr & 0xf < 16) by (bit_vector);
        if (instr >> 25u32) & 1 == 1 {
            operand2_exec(&self.reg.r, false, instr).0
        } else {
            self.reg.r[(instr & 0xf) as usize]
        }
    }

    fn msr_flags_only(&mut self, instr: u32, v: u32)
        ensures
            regs_now(*old(self), *final(self), old(self).reg.r@, msr_psr(old(self).reg.cpsr, instr & !0x1_0000u32, v)),
    {
        assert(((instr & !0x1_0000u32) >> 19u32) & 1 == (instr >> 19u32) & 1
            && ((instr & !0x1_0000u32) >> 16u32) & 1 == 0) by (bit_vector);
        if (instr >> 19u32) & 1 == 1 {
            self.reg.cpsr.set_flags_from_bits(v);
        }
    }

    fn msr_mode(&mut self, instr: u32, v: u32, m: OperationMode)
        requires
            mode_of_bits(v) == Some(m),
            bit(instr, 16),
        ensures
            final(self).reg.r@ == regs_after_switch(old(self).reg, m),
            final(self).reg.banks@ == banks_after_switch(old(self).reg, m),
            final(self).reg.fiq_r8_12_bank@ == fiq_bank_after_switch(old(self).reg, m),
            final(self).reg.spsr == spsr_after_switch(old(self).reg, m),
            final(self).reg.cpsr == msr_psr(old(self).reg.cpsr, instr, v),
            final(self).pipeline_reloaded == old(self).pipeline_reloaded,
    {
        self.reg.change_mode(m);
        if (instr >> 19u32) & 1 == 1 {
            self.reg.cpsr.set_flags_from_bits(v);
        }
        let _ = self.reg.cpsr.set_control_from_bits(v);
    }

    /// Executes MSR.
    pub fn execute_arm_msr(&mut self, instr: u32)
        ensures
            arm_msr_done(*old(self), *final(self), instr),
    {
        let v = self.msr_value(instr);
        let control = (instr >> 16u32) & 1 == 1;
        if (instr >> 22u32) & 1 == 1 {
            if (instr >> 19u32) & 1 == 1 {
                self.reg.spsr.set_flags_from_bits(v);
            }
            if control {
                let _ = self.reg.spsr.set_control_from_bits(v);
            }
        } else if control && self.reg.cpsr.mode != OperationMode::User {
            match OperationMode::from_bits(v) {
                None => self.enter_exception(Exception::UndefinedInstr),
                Some(m) => self.msr_mode(instr, v, m),
            }
        } else {
            self.msr_flags_only(instr, v);
        }
    }

    fn block_plain<B: Bus>(&mut self, bus: &mut B, instr: u32, mask: u32)
        requires
            old(bus).wf(),
            mask <= 0xffff,
        ensures
            final(bus).wf(),
            block_plain_done(*old(self), *final(self), *old(bus), *final(bus), instr, mask),
    {
        assert((instr >> 16u32) & 0xf < 16) by (bit_vector);
        let n = crate::thumb::count_list(instr & 0xffff);
        let rn = ((instr >> 16u32) & 0xf) as usize;
        let base = self.reg.r[rn];
        let (start, nb) = block_bounds(base, n, instr);
        if (instr >> 20u32) & 1 == 1 {
            self.reg.r[rn] = nb;
            self.load_multiple(bus, mask, start);
        } else {
            self.store_multiple(bus, mask, start);
            self.reg.r[rn] = nb;
        }
    }

    /// Executes LDM or STM.
    pub fn execute_arm_block<B: Bus>(&mut self, bus: &mut B, instr: u32)
        requires
            old(bus).wf(),
        ensures
            final(bus).wf(),
            arm_block_done(*old(self), *final(self), *old(bus), *final(bus), instr),
    {
        let mask = instr & 0xffff;
        assert(mask <= 0xffff && mask & 0x7fff <= 0xffff) by (bit_vector)
            requires mask == instr & 0xffff;
        if !((instr >> 22u32) & 1 == 1) {
            self.block_plain(bus, instr, mask);
        } else if (instr >> 20u32) & 1 == 1 && (mask >> 15u32) & 1 == 1 {
            assert((instr >> 16u32) & 0xf < 16) by (bit_vector);
            let n = crate::thumb::count_list(mask);
            assert(count_regs(mask, 16) == count_regs(mask, 15) + 1);
            let base = self.reg.r[((instr >> 16u32) & 0xf) as usize];
            let (start, _) = block_bounds(base, n, instr);
            let last = add_wrap(start, 4 * (n - 1));
            let v = read_word(bus, last);
            let ghost a = *self;
            self.block_plain(bus, instr, mask & 0x7fff);
            let ghost u = *self;
            self.return_from_exception(v);
            assert(block_plain_done(a, u, *old(bus), *bus, instr, mask & 0x7fff));
        } else {
            let m = self.reg.cpsr.mode;
            self.reg.change_mode(OperationMode::User);
            let ghost u1 = *self;
            self.block_plain(bus, instr, mask);
            let ghost u2 = *self;
            self.reg.change_mode(m);
            assert(user_bank_transfer(*old(self), u1, u2, *self));
        }
    }

    /// Executes the ARM instruction `instr`.
    pub fn execute_arm<B: Bus>(&mut self, bus: &mut B, instr: u32)
        requires
            old(bus).wf(),
        ensures
            final(bus).wf(),
            arm_executed(*old(self), *final(self), *old(bus), *final(bus), instr),
    {
        if !self.meets_condition(instr >> 28u32) {
            return ;
        }
        let sh = (instr >> 5u32) & 3;
        if instr & 0x0fff_fff0 == 0x012f_ff10 {
            assert(instr & 0xf < 16) by (bit_vector);
            let target = self.reg.r[(instr & 0xf) as usize];
            self.execute_bx(target);
        } else if instr & 0x0fc0_00f0 == 0x0000_0090 {
            self.execute_arm_mul(instr);
        } else if instr & 0x0f80_00f0 == 0x0080_0090 {
            self.execute_arm_mull(instr);
        } else if instr & 0x0fb0_0ff0 == 0x0100_0090 {
            self.execute_arm_swp(bus, instr);
        } else if instr & 0x0e00_0090 == 0x0000_0090 {
            if sh != 0 && ((instr >> 20u32) & 1 == 1 || sh == 1) {
                self.execute_arm_hdt(bus, instr);
            } else {
                self.enter_exception(Exception::UndefinedInstr);
            }
        } else if instr & 0x0fbf_0fff == 0x010f_0000 {
            self.execute_arm_mrs(instr);
        } else if instr & 0x0db0_f000 == 0x0120_f000 {
            self.execute_arm_msr(instr);
        } else if (instr >> 26u32) & 3 == 0 {
            if (instr >> 23u32) & 3 == 2 && !((instr >> 20u32) & 1 == 1) {
                self.enter_exception(Exception::UndefinedInstr);
            } else {
                self.execute_arm_dp(instr);
            }
        } else if (instr >> 26u32) & 3 == 1 {
            if (instr >> 25u32) & 1 == 1 && (instr >> 4u32) & 1 == 1 {
                self.enter_exception(Exception::UndefinedInstr);
            } else {
                self.execute_arm_sdt(bus, instr);
            }
        } else if (instr >> 25u32) & 7 == 4 {
            self.execute_arm_block(bus, instr);
        } else if (instr >> 25u32) & 7 == 5 {
            let imm = instr & 0xff_ffff;
            let sx = if imm >= 0x80_0000 { imm | 0xFF00_0000u32 } else { imm };
            let pc = self.reg.r[PC_INDEX];
            let target = add_wrap(pc, sx << 2u32);
            if (instr >> 24u32) & 1 == 1 {
                self.reg.r[LR_INDEX] = sub_wrap(pc, 4);
            }
            self.execute_branch(target);
        } else if (instr >> 24u32) & 0xf == 0xf {
            self.enter_exception(Exception::SoftwareInterrupt);
        } else {
            self.enter_exception(Exception::UndefinedInstr);
        }
    }

    /// Fetches the instruction two ahead of the program counter's reading
    /// back, executes it, and moves the program counter on unless the
    /// instruction reloaded the pipeline.
    pub fn step<B: Bus>(&mut self, bus: &mut B)
        requires
            old(bus).wf(),
        ensures
            final(bus).wf(),
            exists|b1: B, c: Cpu| #[trigger] cpu_stepped(*old(self), *final(self), *old(bus), *final(bus), b1, c),
    {
        let size = self.reg.cpsr.state.instr_size();
        let addr = sub_wrap(self.reg.r[PC_INDEX], 2 * size);
        bus.prefetch_instr(addr);
        let ghost b1 = *bus;
        self.pipeline_reloaded = false;
        let ghost c0 = *self;
        if self.reg.cpsr.state == OperationState::Thumb {
            let instr = read_hword(bus, addr);
            self.execute_thumb(bus, instr);
        } else {
            let instr = read_word(bus, addr);
            self.execute_arm(bus, instr);
        }
        let ghost c = *self;
        if !self.pipeline_reloaded {
            let size = self.reg.cpsr.state.instr_size();
            self.reg.r[PC_INDEX] = add_wrap(self.reg.r[PC_INDEX], size);
        }
        proof {
            assert(self.reg.r@ =~= advanced(c));
            assert(cpu_stepped(*old(self), *self, *old(bus), *bus, b1, c));
        }
    }

    /// Resets the processor: enters the reset exception. With `skip_bios`
    /// it then does what the BIOS boot sequence leaves behind: stack
    /// pointers for the Interrupt (0x0300_7FA0), Supervisor (0x0300_7FE0)
    /// and System (0x0300_7F00) modes, System mode, and a jump to the
    /// cartridge entry point 0x0800_0000.
    pub fn reset(&mut self, skip_bios: bool)
        ensures
            !skip_bios ==> exception_entered(*old(self), *final(self), Exception::Reset),
            skip_bios ==> {
                &&& final(self).reg.cpsr.mode == OperationMode::System
                &&& final(self).reg.cpsr.state == OperationState::Arm
                &&& final(self).reg.r@[13] == 0x0300_7f00
                &&& final(self).reg.r@[15] == 0x0800_0008
                &&& final(self).reg.banks@[2].sp == 0x0300_7fa0
                &&& final(self).reg.banks@[3].sp == 0x0300_7fe0
            },
    {
        self.enter_exception(Exception::Reset);
        if skip_bios {
            assert(self.reg.cpsr.mode == OperationMode::Supervisor);
            self.reg.change_mode(OperationMode::Interrupt);
            self.reg.r[SP_INDEX] = 0x0300_7fa0;
            self.reg.change_mode(OperationMode::Supervisor);
            assert(self.reg.banks@[2].sp == 0x0300_7fa0);
            self.reg.r[SP_INDEX] = 0x0300_7fe0;
            self.reg.change_mode(OperationMode::System);
            assert(self.reg.banks@[2].sp == 0x0300_7fa0);
            assert(self.reg.banks@[3].sp == 0x0300_7fe0);
            self.reg.r[SP_INDEX] = 0x0300_7f00;
            self.execute_branch(0x0800_0000);
            assert(0x0800_0000u32 & !3u32 == 0x0800_0000u32) by (bit_vector);
        }
    }
}

} // verus!
