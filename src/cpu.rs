//! The ARM7TDMI processor: its arithmetic and shift primitives, condition
//! codes, pipeline reload, branches and exception entry.
use vstd::prelude::*;

use crate::bus::{Bus, hword_at, read_hword, read_word, word_at};
use crate::reg::{
    OperationMode, OperationState, Registers, StatusRegister, bank_of, banked_fiq, banked_r,
    instr_size_of, saved_banks, LR_INDEX, PC_INDEX,
};

verus! {

/// 2^32, the number of 32-bit values.
pub open spec fn word_span() -> int {
    0x1_0000_0000
}

/// Whether bit 31 of `x` is set.
pub open spec fn neg(x: u32) -> bool {
    x >= 0x8000_0000
}

/// Whether bit `k` of `x` is set.
pub open spec fn bit(x: u32, k: u32) -> bool {
    (x >> k) & 1 == 1
}

/// `a + b + c` modulo 2^32.
pub open spec fn add_value(a: u32, b: u32, c: bool) -> u32 {
    let s = a + b + if c { 1int } else { 0int };
    if s >= word_span() {
        (s - word_span()) as u32
    } else {
        s as u32
    }
}

/// Whether `a + b + c` exceeds 32 bits.
pub open spec fn add_carry(a: u32, b: u32, c: bool) -> bool {
    a + b + (if c { 1int } else { 0int }) >= word_span()
}

/// Signed overflow of an addition of `a` and `b` that gave `r`.
pub open spec fn add_overflow(a: u32, b: u32, r: u32) -> bool {
    neg(a) == neg(b) && neg(r) != neg(a)
}

/// `a - b` modulo 2^32.
pub open spec fn sub_value(a: u32, b: u32) -> u32 {
    if a >= b {
        (a - b) as u32
    } else {
        (a + word_span() - b) as u32
    }
}

/// Signed overflow of a subtraction of `b` from `a` that gave `r`.
pub open spec fn sub_overflow(a: u32, b: u32, r: u32) -> bool {
    neg(a) != neg(b) && neg(r) != neg(a)
}

/// What a subtract-with-carry takes from the minuend besides the borrow:
/// `b`, plus one (modulo 2^32) where the carry flag is clear.
pub open spec fn sbc_subtrahend(b: u32, c: bool) -> u32 {
    if c {
        b
    } else {
        add_value(b, 0, true)
    }
}

/// A status word with the sign and zero flags taken from result `r`.
pub open spec fn nz(s: StatusRegister, r: u32) -> StatusRegister {
    StatusRegister { signed: neg(r), zero: r == 0, ..s }
}

/// A status word with sign, zero and carry flags set from a result.
pub open spec fn nzc(s: StatusRegister, r: u32, c: bool) -> StatusRegister {
    StatusRegister { carry: c, ..nz(s, r) }
}

/// A status word with all four condition flags set from a result.
pub open spec fn nzcv(s: StatusRegister, r: u32, c: bool, v: bool) -> StatusRegister {
    StatusRegister { carry: c, overflow: v, ..nz(s, r) }
}

/// Status word after an addition of `a`, `b` and carry-in `c` with result `r`.
pub open spec fn add_flags(s: StatusRegister, a: u32, b: u32, c: bool) -> StatusRegister {
    let r = add_value(a, b, c);
    nzcv(s, r, add_carry(a, b, c), add_overflow(a, b, r))
}

/// Status word after subtracting `b` from `a`: the carry flag is set exactly
/// where no borrow occurs, that is where `a >= b`.
pub open spec fn sub_flags(s: StatusRegister, a: u32, b: u32) -> StatusRegister {
    let r = sub_value(a, b);
    nzcv(s, r, a >= b, sub_overflow(a, b, r))
}

/// Logical shift left of `v` by `n` with carry-in `c`: result and carry out.
pub open spec fn lsl_spec(v: u32, n: u32, c: bool) -> (u32, bool) {
    if n == 0 {
        (v, c)
    } else if n < 32 {
        (v << n, bit(v, (32 - n) as u32))
    } else if n == 32 {
        (0, bit(v, 0))
    } else {
        (0, false)
    }
}

/// Logical shift right of `v` by `n` with carry-in `c`.
pub open spec fn lsr_spec(v: u32, n: u32, c: bool) -> (u32, bool) {
    if n == 0 {
        (v, c)
    } else if n < 32 {
        (v >> n, bit(v, (n - 1) as u32))
    } else if n == 32 {
        (0, bit(v, 31))
    } else {
        (0, false)
    }
}

/// Arithmetic shift right of `v` by `n` with carry-in `c`.
pub open spec fn asr_spec(v: u32, n: u32, c: bool) -> (u32, bool) {
    if n == 0 {
        (v, c)
    } else if n < 32 {
        (if neg(v) { !((!v) >> n) } else { v >> n }, bit(v, (n - 1) as u32))
    } else {
        (if neg(v) { 0xFFFF_FFFFu32 } else { 0u32 }, neg(v))
    }
}

/// Rotation right of `v` by `n` with carry-in `c`.
pub open spec fn ror_spec(v: u32, n: u32, c: bool) -> (u32, bool) {
    let m = n % 32;
    if n == 0 {
        (v, c)
    } else if m == 0 {
        (v, neg(v))
    } else {
        ((v >> m) | (v << ((32 - m) as u32)), bit(v, (m - 1) as u32))
    }
}

/// Whether condition code `cond` (0..15) holds under the flags of `s`.
pub open spec fn cond_holds(s: StatusRegister, cond: u32) -> bool {
    if cond == 0 {
        s.zero
    } else if cond == 1 {
        !s.zero
    } else if cond == 2 {
        s.carry
    } else if cond == 3 {
        !s.carry
    } else if cond == 4 {
        s.signed
    } else if cond == 5 {
        !s.signed
    } else if cond == 6 {
        s.overflow
    } else if cond == 7 {
        !s.overflow
    } else if cond == 8 {
        s.carry && !s.zero
    } else if cond == 9 {
        !s.carry || s.zero
    } else if cond == 10 {
        s.signed == s.overflow
    } else if cond == 11 {
        s.signed != s.overflow
    } else if cond == 12 {
        !s.zero && s.signed == s.overflow
    } else if cond == 13 {
        s.zero || s.signed != s.overflow
    } else {
        cond == 14
    }
}

/// The program counter after a reload of the pipeline at `target`: the
/// target aligned to the instruction size, then two instructions ahead.
pub open spec fn reloaded_pc(target: u32, state: OperationState) -> u32 {
    let aligned = if state == OperationState::Thumb {
        target & !1u32
    } else {
        target & !3u32
    };
    add_value(aligned, (2 * instr_size_of(state)) as u32, false)
}

/// The processor: its register file, and whether the current instruction
/// has reloaded the pipeline.
pub struct Cpu {
    pub reg: Registers,
    pub pipeline_reloaded: bool,
}

/// `c` with its status word replaced by `s`.
pub open spec fn with_cpsr(c: Cpu, s: StatusRegister) -> Cpu {
    Cpu { reg: Registers { cpsr: s, ..c.reg }, ..c }
}

/// Whether `b` differs from `a` at most in the general registers, which it
/// holds as `r`, and the status word, which it holds as `s`.
pub open spec fn regs_now(a: Cpu, b: Cpu, r: Seq<u32>, s: StatusRegister) -> bool {
    &&& b.reg.r@ == r
    &&& b.reg.cpsr == s
    &&& b.reg.spsr == a.reg.spsr
    &&& b.reg.banks@ == a.reg.banks@
    &&& b.reg.fiq_r8_12_bank@ == a.reg.fiq_r8_12_bank@
    &&& b.pipeline_reloaded == a.pipeline_reloaded
}

/// Like `regs_now`, for an instruction that wrote the program counter and so
/// reloaded the pipeline.
pub open spec fn pc_written(a: Cpu, b: Cpu, r: Seq<u32>, s: StatusRegister) -> bool {
    &&& b.reg.r@ == r
    &&& b.reg.cpsr == s
    &&& b.reg.spsr == a.reg.spsr
    &&& b.reg.banks@ == a.reg.banks@
    &&& b.reg.fiq_r8_12_bank@ == a.reg.fiq_r8_12_bank@
    &&& b.pipeline_reloaded
}

/// Wrapping 32-bit addition.
pub fn add_wrap(a: u32, b: u32) -> (r: u32)
    ensures
        r == add_value(a, b, false),
{
    if a as u64 + b as u64 >= 0x1_0000_0000u64 {
        (a as u64 + b as u64 - 0x1_0000_0000u64) as u32
    } else {
        a + b
    }
}

/// Wrapping 32-bit subtraction.
pub fn sub_wrap(a: u32, b: u32) -> (r: u32)
    ensures
        r == sub_value(a, b),
{
    if a >= b {
        a - b
    } else {
        (a as u64 + 0x1_0000_0000u64 - b as u64) as u32
    }
}

impl Cpu {
    /// A processor with every register zero, in Supervisor mode and ARM state.
    pub fn new() -> (r: Cpu)
        ensures
            r.reg.power_on(),
            !r.pipeline_reloaded,
    {
        Cpu { reg: Registers::new(), pipeline_reloaded: false }
    }

    fn set_nz(&mut self, r: u32)
        ensures
            *final(self) == with_cpsr(*old(self), nz(old(self).reg.cpsr, r)),
    {
        self.reg.cpsr.signed = r >= 0x8000_0000;
        self.reg.cpsr.zero = r == 0;
    }

    /// ADD, or CMN where the result is dropped; sets the flags if `update_cond`.
    pub fn execute_add_cmn(&mut self, update_cond: bool, a: u32, b: u32) -> (r: u32)
        ensures
            r == add_value(a, b, false),
            *final(self) == with_cpsr(
                *old(self),
                if update_cond { add_flags(old(self).reg.cpsr, a, b, false) } else { old(self).reg.cpsr },
            ),
    {
        self.execute_adc_with(update_cond, a, b, false)
    }

    /// ADC: adds `a`, `b` and the carry flag; sets the flags if `update_cond`.
    pub fn execute_adc(&mut self, update_cond: bool, a: u32, b: u32) -> (r: u32)
        ensures
            r == add_value(a, b, old(self).reg.cpsr.carry),
            *final(self) == with_cpsr(
                *old(self),
                if update_cond {
                    add_flags(old(self).reg.cpsr, a, b, old(self).reg.cpsr.carry)
                } else {
                    old(self).reg.cpsr
                },
            ),
    {
        let c = self.reg.cpsr.carry;
        self.execute_adc_with(update_cond, a, b, c)
    }

    fn execute_adc_with(&mut self, update_cond: bool, a: u32, b: u32, c: bool) -> (r: u32)
        ensures
            r == add_value(a, b, c),
            *final(self) == with_cpsr(
                *old(self),
                if update_cond { add_flags(old(self).reg.cpsr, a, b, c) } else { old(self).reg.cpsr },
            ),
    {
        let s: u64 = a as u64 + b as u64 + if c { 1u64 } else { 0u64 };
        let carry = s >= 0x1_0000_0000u64;
        let r: u32 = if carry { (s - 0x1_0000_0000u64) as u32 } else { s as u32 };
        if update_cond {
            self.set_nz(r);
            self.reg.cpsr.carry = carry;
            self.reg.cpsr.overflow = (a >= 0x8000_0000) == (b >= 0x8000_0000) && (r >= 0x8000_0000)
                != (a >= 0x8000_0000);
        }
        r
    }

    /// SUB, or CMP where the result is dropped; sets the flags if `update_cond`.
    pub fn execute_sub_cmp(&mut self, update_cond: bool, a: u32, b: u32) -> (r: u32)
        ensures
            r == sub_value(a, b),
            *final(self) == with_cpsr(
                *old(self),
                if update_cond { sub_flags(old(self).reg.cpsr, a, b) } else { old(self).reg.cpsr },
            ),
    {
        let r = sub_wrap(a, b);
        if update_cond {
            self.set_nz(r);
            self.reg.cpsr.carry = a >= b;
            self.reg.cpsr.overflow = (a >= 0x8000_0000) != (b >= 0x8000_0000) && (r >= 0x8000_0000)
                != (a >= 0x8000_0000);
        }
        r
    }

    /// SBC: subtracts `b` and the borrow (the inverted carry flag) from `a`.
    pub fn execute_sbc(&mut self, update_cond: bool, a: u32, b: u32) -> (r: u32)
        ensures
            r == sub_value(a, sbc_subtrahend(b, old(self).reg.cpsr.carry)),
            *final(self) == with_cpsr(
                *old(self),
                if update_cond {
                    nzcv(
                        old(self).reg.cpsr,
                        r,
                        a >= sbc_subtrahend(b, old(self).reg.cpsr.carry),
                        sub_overflow(a, b, r),
                    )
                } else {
                    old(self).reg.cpsr
                },
            ),
    {
        let b2 = if self.reg.cpsr.carry { b } else { add_wrap(b, 1) };
        proof {
            assert(add_value(b, 1, false) == add_value(b, 0, true));
        }
        let r = sub_wrap(a, b2);
        if update_cond {
            self.set_nz(r);
            self.reg.cpsr.carry = a >= b2;
            self.reg.cpsr.overflow = (a >= 0x8000_0000) != (b >= 0x8000_0000) && (r >= 0x8000_0000)
                != (a >= 0x8000_0000);
        }
        r
    }

    /// MOV: sets sign and zero from the value if `update_cond`.
    pub fn execute_mov(&mut self, update_cond: bool, value: u32) -> (r: u32)
        ensures
            r == value,
            *final(self) == with_cpsr(
                *old(self),
                if update_cond { nz(old(self).reg.cpsr, value) } else { old(self).reg.cpsr },
            ),
    {
        if update_cond {
            self.set_nz(value);
        }
        value
    }

    /// AND, or TST where the result is dropped.
    pub fn execute_and_tst(&mut self, a: u32, b: u32) -> (r: u32)
        ensures
            r == a & b,
            *final(self) == with_cpsr(*old(self), nz(old(self).reg.cpsr, a & b)),
    {
        let r = a & b;
        self.set_nz(r);
        r
    }

    pub fn execute_eor(&mut self, a: u32, b: u32) -> (r: u32)
        ensures
            r == a ^ b,
            *final(self) == with_cpsr(*old(self), nz(old(self).reg.cpsr, a ^ b)),
    {
        let r = a ^ b;
        self.set_nz(r);
        r
    }

    pub fn execute_orr(&mut self, a: u32, b: u32) -> (r: u32)
        ensures
            r == a | b,
            *final(self) == with_cpsr(*old(self), nz(old(self).reg.cpsr, a | b)),
    {
        let r = a | b;
        self.set_nz(r);
        r
    }

    pub fn execute_bic(&mut self, a: u32, b: u32) -> (r: u32)
        ensures
            r == a & !b,
            *final(self) == with_cpsr(*old(self), nz(old(self).reg.cpsr, a & !b)),
    {
        let r = a & !b;
        self.set_nz(r);
        r
    }

    pub fn execute_mvn(&mut self, value: u32) -> (r: u32)
        ensures
            r == !value,
            *final(self) == with_cpsr(*old(self), nz(old(self).reg.cpsr, !value)),
    {
        let r = !value;
        self.set_nz(r);
        r
    }

    /// MUL: the low 32 bits of the product; sets sign and zero.
    pub fn execute_mul(&mut self, a: u32, b: u32) -> (r: u32)
        ensures
            r == (a as int * b as int) % word_span(),
            *final(self) == with_cpsr(*old(self), nz(old(self).reg.cpsr, r)),
    {
        proof {
            assert(a as int * b as int <= 0xFFFF_FFFFint * 0xFFFF_FFFFint) by (nonlinear_arith)
                requires a <= 0xFFFF_FFFFu32, b <= 0xFFFF_FFFFu32;
        }
        let p: u64 = a as u64 * b as u64;
        let r = (p % 0x1_0000_0000u64) as u32;
        self.set_nz(r);
        r
    }

    fn set_nzc(&mut self, r: u32, c: bool)
        ensures
            *final(self) == with_cpsr(*old(self), nzc(old(self).reg.cpsr, r, c)),
    {
        self.set_nz(r);
        self.reg.cpsr.carry = c;
    }

    /// LSL by `offset`, setting sign, zero and carry.
    pub fn execute_lsl(&mut self, value: u32, offset: u32) -> (r: u32)
        ensures
            r == lsl_spec(value, offset, old(self).reg.cpsr.carry).0,
            *final(self) == with_cpsr(
                *old(self),
                nzc(old(self).reg.cpsr, r, lsl_spec(value, offset, old(self).reg.cpsr.carry).1),
            ),
    {
        let (r, c) = if offset == 0 {
            (value, self.reg.cpsr.carry)
        } else if offset < 32 {
            (value << offset, (value >> (32 - offset)) & 1 == 1)
        } else if offset == 32 {
            (0u32, value & 1 == 1)
        } else {
            (0u32, false)
        };
        proof {
            assert(value >> 0u32 == value) by (bit_vector);
        }
        self.set_nzc(r, c);
        r
    }

    /// LSR by `offset`, setting sign, zero and carry.
    pub fn execute_lsr(&mut self, value: u32, offset: u32) -> (r: u32)
        ensures
            r == lsr_spec(value, offset, old(self).reg.cpsr.carry).0,
            *final(self) == with_cpsr(
                *old(self),
                nzc(old(self).reg.cpsr, r, lsr_spec(value, offset, old(self).reg.cpsr.carry).1),
            ),
    {
        let (r, c) = if offset == 0 {
            (value, self.reg.cpsr.carry)
        } else if offset < 32 {
            (value >> offset, (value >> (offset - 1)) & 1 == 1)
        } else if offset == 32 {
            (0u32, (value >> 31u32) & 1 == 1)
        } else {
            (0u32, false)
        };
        self.set_nzc(r, c);
        r
    }

    /// ASR by `offset`, setting sign, zero and carry.
    pub fn execute_asr(&mut self, value: u32, offset: u32) -> (r: u32)
        ensures
            r == asr_spec(value, offset, old(self).reg.cpsr.carry).0,
            *final(self) == with_cpsr(
                *old(self),
                nzc(old(self).reg.cpsr, r, asr_spec(value, offset, old(self).reg.cpsr.carry).1),
            ),
    {
        let negative = value >= 0x8000_0000;
        let (r, c) = if offset == 0 {
            (value, self.reg.cpsr.carry)
        } else if offset < 32 {
            (if negative { !((!value) >> offset) } else { value >> offset }, (value >> (offset - 1))
                & 1 == 1)
        } else {
            (if negative { 0xFFFF_FFFFu32 } else { 0u32 }, negative)
        };
        self.set_nzc(r, c);
        r
    }

    /// ROR by `offset`, setting sign, zero and carry.
    pub fn execute_ror(&mut self, value: u32, offset: u32) -> (r: u32)
        ensures
            r == ror_spec(value, offset, old(self).reg.cpsr.carry).0,
            *final(self) == with_cpsr(
                *old(self),
                nzc(old(self).reg.cpsr, r, ror_spec(value, offset, old(self).reg.cpsr.carry).1),
            ),
    {
        let m = offset % 32;
        let (r, c) = if offset == 0 {
            (value, self.reg.cpsr.carry)
        } else if m == 0 {
            (value, value >= 0x8000_0000)
        } else {
            ((value >> m) | (value << (32 - m)), (value >> (m - 1)) & 1 == 1)
        };
        self.set_nzc(r, c);
        r
    }

    /// Whether condition code `cond` holds under the current flags.
    pub fn meets_condition(&self, cond: u32) -> (r: bool)
        ensures
            r == cond_holds(self.reg.cpsr, cond),
    {
        let s = self.reg.cpsr;
        match cond {
            0 => s.zero,
            1 => !s.zero,
            2 => s.carry,
            3 => !s.carry,
            4 => s.signed,
            5 => !s.signed,
            6 => s.overflow,
            7 => !s.overflow,
            8 => s.carry && !s.zero,
            9 => !s.carry || s.zero,
            10 => s.signed == s.overflow,
            11 => s.signed != s.overflow,
            12 => !s.zero && s.signed == s.overflow,
            13 => s.zero || s.signed != s.overflow,
            _ => cond == 14,
        }
    }

    /// Reloads the pipeline after a write of the program counter: aligns it
    /// to the instruction size and moves it two instructions ahead.
    pub fn reload_pipeline(&mut self)
        ensures
            final(self).reg == (Registers {
                r: final(self).reg.r,
                ..old(self).reg
            }),
            final(self).reg.r@ == old(self).reg.r@.update(
                15,
                reloaded_pc(old(self).reg.r@[15], old(self).reg.cpsr.state),
            ),
            final(self).pipeline_reloaded,
    {
        let size = self.reg.cpsr.state.instr_size();
        let pc = self.reg.r[PC_INDEX];
        let aligned = if self.reg.cpsr.state == OperationState::Thumb {
            pc & !1u32
        } else {
            pc & !3u32
        };
        self.reg.r[PC_INDEX] = add_wrap(aligned, 2 * size);
        self.pipeline_reloaded = true;
    }

    /// Branches to `target`.
    pub fn execute_branch(&mut self, target: u32)
        ensures
            pc_written(
                *old(self),
                *final(self),
                old(self).reg.r@.update(15, reloaded_pc(target, old(self).reg.cpsr.state)),
                old(self).reg.cpsr,
            ),
    {
        self.reg.r[PC_INDEX] = target;
        self.reload_pipeline();
        assert(self.reg.r@ =~= old(self).reg.r@.update(
            15,
            reloaded_pc(target, old(self).reg.cpsr.state),
        ));
    }

    /// Branches to `target`, entering Thumb state where its bit 0 is set and
    /// ARM state where it is clear.
    pub fn execute_bx(&mut self, target: u32)
        ensures
            final(self).reg.cpsr == (StatusRegister {
                state: if target & 1 == 1 { OperationState::Thumb } else { OperationState::Arm },
                ..old(self).reg.cpsr
            }),
            final(self).reg.r@ == old(self).reg.r@.update(
                15,
                reloaded_pc(target, final(self).reg.cpsr.state),
            ),
            final(self).reg.spsr == old(self).reg.spsr,
            final(self).reg.banks == old(self).reg.banks,
            final(self).reg.fiq_r8_12_bank == old(self).reg.fiq_r8_12_bank,
            final(self).pipeline_reloaded,
    {
        self.reg.cpsr.state = if target & 1 == 1 {
            OperationState::Thumb
        } else {
            OperationState::Arm
        };
        self.execute_branch(target);
    }
}


/// A logical shift left by 32 gives 0 and carries out bit 0.
pub proof fn lemma_lsl_by_32(v: u32, c: bool)
    ensures
        lsl_spec(v, 32, c) == (0u32, bit(v, 0)),
{
}

/// An arithmetic shift right by 32 or more of a value with bit 31 set gives
/// all ones and sets the carry.
pub proof fn lemma_asr_negative_saturates(v: u32, n: u32, c: bool)
    requires
        neg(v),
        n >= 32,
    ensures
        asr_spec(v, n, c) == (0xFFFF_FFFFu32, true),
{
}

/// The carry of a subtraction (SUB, CMP) is set exactly where the minuend
/// is at least the subtrahend, that is where no borrow occurs; the result is
/// the difference modulo 2^32.
pub proof fn lemma_sub_carry_no_borrow(s: StatusRegister, a: u32, b: u32)
    ensures
        sub_flags(s, a, b).carry == (a >= b),
        sub_value(a, b) as int == (a as int - b as int) % word_span(),
{
}

/// Adding 1 to 0x7FFF_FFFF overflows into the sign bit: sign and overflow
/// set, carry and zero clear.
pub proof fn lemma_add_signed_overflow(s: StatusRegister)
    ensures
        ({
            let f = add_flags(s, 0x7FFF_FFFF, 1, false);
            f.signed && f.overflow && !f.carry && !f.zero
        }),
{
}

/// A word load from an address one past a word boundary delivers the
/// aligned word rotated right by 8 bits.
pub proof fn lemma_misaligned_load_rotates(w: u32, addr: u32)
    requires
        addr & 3 == 1,
    ensures
        rotated_load(w, addr) == (w >> 8u32) | (w << 24u32),
{
}

/// The kinds of exception, each with its vector and mode.
#[derive(Copy, Clone, PartialEq, Eq, Structural, Debug)]
pub enum Exception {
    Reset,
    UndefinedInstr,
    SoftwareInterrupt,
    PrefetchAbort,
    DataAbort,
    Interrupt,
    FastInterrupt,
}

pub open spec fn exception_vector(e: Exception) -> u32 {
    match e {
        Exception::Reset => 0x00,
        Exception::UndefinedInstr => 0x04,
        Exception::SoftwareInterrupt => 0x08,
        Exception::PrefetchAbort => 0x0c,
        Exception::DataAbort => 0x10,
        Exception::Interrupt => 0x18,
        Exception::FastInterrupt => 0x1c,
    }
}

pub open spec fn exception_mode(e: Exception) -> OperationMode {
    match e {
        Exception::Reset => OperationMode::Supervisor,
        Exception::UndefinedInstr => OperationMode::UndefinedInstr,
        Exception::SoftwareInterrupt => OperationMode::Supervisor,
        Exception::PrefetchAbort => OperationMode::Abort,
        Exception::DataAbort => OperationMode::Abort,
        Exception::Interrupt => OperationMode::Interrupt,
        Exception::FastInterrupt => OperationMode::FastInterrupt,
    }
}

/// The link register an exception leaves, where the program counter reads
/// `pc` (two instructions past the current one) in state `state`. A software
/// interrupt or undefined instruction returns to the instruction after the
/// current one; an interrupt or prefetch abort to the next instruction not yet
/// executed plus 4; a data abort to it plus 8.
pub open spec fn exception_lr(e: Exception, pc: u32, state: OperationState) -> u32 {
    let size = instr_size_of(state);
    let next = sub_value(pc, (2 * size) as u32);
    match e {
        Exception::SoftwareInterrupt | Exception::UndefinedInstr => sub_value(pc, size),
        Exception::Interrupt | Exception::FastInterrupt | Exception::PrefetchAbort => add_value(
            next,
            4,
            false,
        ),
        Exception::DataAbort => add_value(next, 8, false),
        Exception::Reset => pc,
    }
}

/// General registers after a switch to `mode`.
pub open spec fn regs_after_switch(reg: Registers, mode: OperationMode) -> Seq<u32> {
    if bank_of(reg.cpsr.mode) == bank_of(mode) {
        reg.r@
    } else {
        banked_r(reg, reg.cpsr.mode, mode)
    }
}

/// Banks after a switch to `mode`.
pub open spec fn banks_after_switch(reg: Registers, mode: OperationMode) -> Seq<crate::reg::Bank> {
    if bank_of(reg.cpsr.mode) == bank_of(mode) {
        reg.banks@
    } else {
        saved_banks(reg, reg.cpsr.mode)
    }
}

/// Hidden r8..r12 bank after a switch to `mode`.
pub open spec fn fiq_bank_after_switch(reg: Registers, mode: OperationMode) -> Seq<u32> {
    if bank_of(reg.cpsr.mode) == bank_of(mode) {
        reg.fiq_r8_12_bank@
    } else {
        banked_fiq(reg, reg.cpsr.mode, mode)
    }
}

/// Saved status word after a switch to `mode`.
pub open spec fn spsr_after_switch(reg: Registers, mode: OperationMode) -> StatusRegister {
    if bank_of(reg.cpsr.mode) == bank_of(mode) {
        reg.spsr
    } else {
        reg.banks@[bank_of(mode)].spsr
    }
}

/// Whether `b` is `a` after returning from an exception to `target`: the
/// saved status word becomes the current one, with the banking of its mode,
/// and the pipeline reloads at the target in its state.
pub open spec fn exception_returned(a: Cpu, b: Cpu, target: u32) -> bool {
    let s = a.reg.spsr;
    &&& b.reg.r@ == regs_after_switch(a.reg, s.mode).update(15, reloaded_pc(target, s.state))
    &&& b.reg.banks@ == banks_after_switch(a.reg, s.mode)
    &&& b.reg.fiq_r8_12_bank@ == fiq_bank_after_switch(a.reg, s.mode)
    &&& b.reg.spsr == spsr_after_switch(a.reg, s.mode)
    &&& b.reg.cpsr == s
    &&& b.pipeline_reloaded
}

/// Whether `b` is `a` after entering exception `e`.
pub open spec fn exception_entered(a: Cpu, b: Cpu, e: Exception) -> bool {
    let mode = exception_mode(e);
    let lr = exception_lr(e, a.reg.r@[15], a.reg.cpsr.state);
    &&& b.reg.r@ == regs_after_switch(a.reg, mode).update(14, lr).update(
        15,
        add_value(exception_vector(e), 8, false),
    )
    &&& b.reg.banks@ == banks_after_switch(a.reg, mode)
    &&& b.reg.fiq_r8_12_bank@ == fiq_bank_after_switch(a.reg, mode)
    &&& b.reg.spsr == a.reg.cpsr
    &&& b.reg.cpsr == (StatusRegister {
        irq_disabled: true,
        fiq_disabled: a.reg.cpsr.fiq_disabled || e == Exception::FastInterrupt || e
            == Exception::Reset,
        state: OperationState::Arm,
        mode: mode,
        ..a.reg.cpsr
    })
    &&& b.pipeline_reloaded
}

/// The word a load from `addr` delivers: the aligned word `w` rotated right
/// by eight times the low two bits of `addr`.
pub open spec fn rotated_load(w: u32, addr: u32) -> u32 {
    ror_spec(w, (8 * (addr & 3)) as u32, false).0
}

/// A byte sign-extended to 32 bits.
pub open spec fn sext8(b: u8) -> u32 {
    if b >= 0x80 {
        (b as u32) | 0xFFFF_FF00u32
    } else {
        b as u32
    }
}

/// A half-word sign-extended to 32 bits.
pub open spec fn sext16(h: u16) -> u32 {
    if h >= 0x8000 {
        (h as u32) | 0xFFFF_0000u32
    } else {
        h as u32
    }
}

impl Cpu {
    /// Enters exception `e`: switches mode, saves the status word, sets the
    /// link register, disables interrupts, enters ARM state and branches to
    /// the vector.
    pub fn enter_exception(&mut self, e: Exception)
        ensures
            exception_entered(*old(self), *final(self), e),
    {
        let cpsr = self.reg.cpsr;
        let pc = self.reg.r[PC_INDEX];
        let size = cpsr.state.instr_size();
        let next = sub_wrap(pc, 2 * size);
        let (mode, vector, lr) = match e {
            Exception::Reset => (OperationMode::Supervisor, 0x00u32, pc),
            Exception::UndefinedInstr => (OperationMode::UndefinedInstr, 0x04u32, sub_wrap(pc, size)),
            Exception::SoftwareInterrupt => (OperationMode::Supervisor, 0x08u32, sub_wrap(pc, size)),
            Exception::PrefetchAbort => (OperationMode::Abort, 0x0cu32, add_wrap(next, 4)),
            Exception::DataAbort => (OperationMode::Abort, 0x10u32, add_wrap(next, 8)),
            Exception::Interrupt => (OperationMode::Interrupt, 0x18u32, add_wrap(next, 4)),
            Exception::FastInterrupt => (OperationMode::FastInterrupt, 0x1cu32, add_wrap(next, 4)),
        };
        let ghost pre = *self;
        self.reg.change_mode(mode);
        let ghost mid = self.reg;
        self.reg.spsr = cpsr;
        self.reg.r[LR_INDEX] = lr;
        self.reg.cpsr.irq_disabled = true;
        if e == Exception::FastInterrupt || e == Exception::Reset {
            self.reg.cpsr.fiq_disabled = true;
        }
        self.reg.cpsr.state = OperationState::Arm;
        self.execute_branch(vector);
        proof {
            assert(vector & !3u32 == vector) by (bit_vector)
                requires vector == 0 || vector == 4 || vector == 8 || vector == 0xc || vector == 0x10
                    || vector == 0x18 || vector == 0x1c;
        }
    }

    /// Returns from an exception to `target`: restores the saved status word
    /// (switching banks to its mode) and branches.
    pub fn return_from_exception(&mut self, target: u32)
        ensures
            exception_returned(*old(self), *final(self), target),
    {
        let spsr = self.reg.spsr;
        self.reg.change_mode(spsr.mode);
        self.reg.cpsr = spsr;
        self.execute_branch(target);
    }

    /// LDR: loads the word at `addr & !3`, rotated by the misalignment.
    pub fn execute_ldr<B: Bus>(bus: &B, addr: u32) -> (r: u32)
        requires
            bus.wf(),
        ensures
            r == rotated_load(word_at(bus, addr), addr),
    {
        let w = read_word(bus, addr);
        let low = addr & 3;
        proof {
            assert(addr & 3 <= 3) by (bit_vector);
        }
        let rot = low * 8;
        if rot == 0 {
            w
        } else {
            (w >> rot) | (w << (32 - rot))
        }
    }

    /// LDRH or LDRSH: loads the half-word at `addr & !1`, sign-extended if
    /// `signed`.
    pub fn execute_ldrh_ldsh<B: Bus>(bus: &B, addr: u32, signed: bool) -> (r: u32)
        requires
            bus.wf(),
        ensures
            r == if signed { sext16(hword_at(bus, addr)) } else { hword_at(bus, addr) as u32 },
    {
        let h = read_hword(bus, addr);
        if signed && h >= 0x8000 {
            (h as u32) | 0xFFFF_0000u32
        } else {
            h as u32
        }
    }

    /// LDRB or LDRSB: loads the byte at `addr`, sign-extended if `signed`.
    pub fn execute_ldrb_ldsb<B: Bus>(bus: &B, addr: u32, signed: bool) -> (r: u32)
        requires
            bus.wf(),
        ensures
            r == if signed { sext8(bus.byte_at(addr)) } else { bus.byte_at(addr) as u32 },
    {
        let b = bus.read_byte(addr);
        if signed && b >= 0x80 {
            (b as u32) | 0xFFFF_FF00u32
        } else {
            b as u32
        }
    }

    /// STR: stores `value` at `addr & !3`.
    pub fn execute_str<B: Bus>(bus: &mut B, addr: u32, value: u32)
        requires
            old(bus).wf(),
        ensures
            final(bus).wf(),
            old(bus).word_stored(*final(bus), addr, value),
    {
        bus.write_word(addr, value);
    }

    /// STRH: stores `value` at `addr & !1`.
    pub fn execute_strh<B: Bus>(bus: &mut B, addr: u32, value: u16)
        requires
            old(bus).wf(),
        ensures
            final(bus).wf(),
            old(bus).hword_stored(*final(bus), addr, value),
    {
        bus.write_hword(addr, value);
    }

    /// STRB: stores `value` at `addr`.
    pub fn execute_strb<B: Bus>(bus: &mut B, addr: u32, value: u8)
        requires
            old(bus).wf(),
        ensures
            final(bus).wf(),
            old(bus).byte_stored(*final(bus), addr, value),
    {
        bus.write_byte(addr, value);
    }
}


/// How many of the registers below `n` the list `mask` holds.
pub open spec fn count_regs(mask: u32, n: nat) -> nat
    decreases n,
{
    if n == 0 {
        0
    } else {
        count_regs(mask, (n - 1) as nat) + if bit(mask, (n - 1) as u32) { 1nat } else { 0nat }
    }
}

/// The address of the `k`-th word of a block that starts at `start`.
pub open spec fn block_addr(start: u32, k: nat) -> u32 {
    add_value(start, (4 * k) as u32, false)
}

/// The registers below `n` that the list `mask` holds, in ascending order.
pub open spec fn regs_in(mask: u32, n: nat) -> Seq<int>
    decreases n,
{
    if n == 0 {
        seq![]
    } else if bit(mask, (n - 1) as u32) {
        regs_in(mask, (n - 1) as nat).push(n - 1)
    } else {
        regs_in(mask, (n - 1) as nat)
    }
}

/// Whether `states` runs from one bus state to the next by storing, for the
/// `k`-th register of `list`, its value in `r` at the `k`-th word of a block
/// that starts at `start`.
pub open spec fn block_stored<B: Bus>(states: Seq<B>, r: Seq<u32>, list: Seq<int>, start: u32) -> bool {
    &&& states.len() == list.len() + 1
    &&& forall|k: int|
        0 <= k < list.len() ==> #[trigger] states[k].word_stored(
            states[k + 1],
            block_addr(start, k as nat),
            r[list[k]],
        )
}

/// The registers `r` after loading, for each register `i` below `n` that
/// `mask` lists, in ascending order, the next word of a block at `start`.
pub open spec fn block_loaded<B: Bus>(r: Seq<u32>, bus: B, mask: u32, n: nat, start: u32) -> Seq<u32>
    decreases n,
{
    if n == 0 {
        r
    } else {
        let prev = block_loaded(r, bus, mask, (n - 1) as nat, start);
        if bit(mask, (n - 1) as u32) {
            prev.update(
                n - 1,
                word_at(&bus, block_addr(start, count_regs(mask, (n - 1) as nat))),
            )
        } else {
            prev
        }
    }
}

pub proof fn lemma_count_regs_bound(mask: u32, n: nat)
    ensures
        count_regs(mask, n) <= n,
    decreases n,
{
    if n > 0 {
        lemma_count_regs_bound(mask, (n - 1) as nat);
    }
}

proof fn lemma_block_loaded_len<B: Bus>(r: Seq<u32>, bus: B, mask: u32, n: nat, start: u32)
    requires
        n <= r.len(),
    ensures
        block_loaded(r, bus, mask, n, start).len() == r.len(),
    decreases n,
{
    if n > 0 {
        lemma_block_loaded_len(r, bus, mask, (n - 1) as nat, start);
    }
}

impl Cpu {
    /// Stores the listed registers, lowest first, at ascending words from
    /// `start`.
    pub fn store_multiple<B: Bus>(&self, bus: &mut B, mask: u32, start: u32)
        requires
            old(bus).wf(),
        ensures
            final(bus).wf(),
            exists|states: Seq<B>|
                #[trigger] block_stored(states, self.reg.r@, regs_in(mask, 16), start)
                    && states[0] == *old(bus) && states.last() == *final(bus),
    {
        let ghost mut states: Seq<B> = seq![*bus];
        let mut i: usize = 0;
        let mut addr = start;
        while i < 16
            invariant
                0 <= i <= 16,
                block_stored(states, self.reg.r@, regs_in(mask, i as nat), start),
                bus.wf(),
                states[0] == *old(bus),
                states.last() == *bus,
                regs_in(mask, i as nat).len() == count_regs(mask, i as nat),
                addr == block_addr(start, count_regs(mask, i as nat)),
            decreases 16 - i,
        {
            proof {
                lemma_count_regs_bound(mask, i as nat);
            }
            let ghost list = regs_in(mask, i as nat);
            if (mask >> (i as u32)) & 1 == 1 {
                bus.write_word(addr, self.reg.r[i]);
                proof {
                    let next = regs_in(mask, (i + 1) as nat);
                    assert(next == list.push(i as int));
                    let ns = states.push(*bus);
                    assert forall|k: int| 0 <= k < next.len() implies #[trigger] ns[k].word_stored(
                        ns[k + 1],
                        block_addr(start, k as nat),
                        self.reg.r@[next[k]],
                    ) by {
                        if k < list.len() {
                            assert(states[k].word_stored(
                                states[k + 1],
                                block_addr(start, k as nat),
                                self.reg.r@[list[k]],
                            ));
                        }
                    }
                    states = ns;
                }
            }
            addr = if (mask >> (i as u32)) & 1 == 1 { add_wrap(addr, 4) } else { addr };
            i = i + 1;
        }
    }

    /// Loads the listed registers, lowest first, from ascending words from
    /// `start`; reloads the pipeline where the list holds the program counter.
    pub fn load_multiple<B: Bus>(&mut self, bus: &B, mask: u32, start: u32)
        requires
            bus.wf(),
        ensures
            final(self).reg.cpsr == old(self).reg.cpsr,
            final(self).reg.spsr == old(self).reg.spsr,
            final(self).reg.banks == old(self).reg.banks,
            final(self).reg.fiq_r8_12_bank == old(self).reg.fiq_r8_12_bank,
            !bit(mask, 15) ==> final(self).reg.r@ == block_loaded(old(self).reg.r@, *bus, mask, 16, start)
                && final(self).pipeline_reloaded == old(self).pipeline_reloaded,
            bit(mask, 15) ==> final(self).reg.r@ == block_loaded(old(self).reg.r@, *bus, mask, 16, start).update(
                15,
                reloaded_pc(block_loaded(old(self).reg.r@, *bus, mask, 16, start)[15], old(self).reg.cpsr.state),
            ) && final(self).pipeline_reloaded,
    {
        let ghost r0 = self.reg.r@;
        let mut i: usize = 0;
        let mut addr = start;
        while i < 16
            invariant
                0 <= i <= 16,
                self.reg.r@ == block_loaded(r0, *bus, mask, i as nat, start),
                bus.wf(),
                self.reg.cpsr == old(self).reg.cpsr,
                self.reg.spsr == old(self).reg.spsr,
                self.reg.banks == old(self).reg.banks,
                self.reg.fiq_r8_12_bank == old(self).reg.fiq_r8_12_bank,
                self.pipeline_reloaded == old(self).pipeline_reloaded,
                r0 == old(self).reg.r@,
                addr == block_addr(start, count_regs(mask, i as nat)),
            decreases 16 - i,
        {
            proof {
                lemma_count_regs_bound(mask, i as nat);
                lemma_block_loaded_len(r0, *bus, mask, i as nat, start);
            }
            if (mask >> (i as u32)) & 1 == 1 {
                self.reg.r[i] = read_word(bus, addr);
                addr = add_wrap(addr, 4);
            }
            i = i + 1;
        }
        if (mask >> 15u32) & 1 == 1 {
            self.reload_pipeline();
        }
    }
}

} // verus!
