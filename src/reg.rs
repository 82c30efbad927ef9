//! Register file of the ARM7TDMI: general registers, status words and the
//! banks that operation modes switch between.
use vstd::prelude::*;

verus! {

pub const SP_INDEX: usize = 13;
pub const LR_INDEX: usize = 14;
pub const PC_INDEX: usize = 15;

/// The operation modes that the mode field of a status word can name.
#[derive(Copy, Clone, PartialEq, Eq, Structural, Debug)]
pub enum OperationMode {
    User,
    FastInterrupt,
    Interrupt,
    Supervisor,
    Abort,
    UndefinedInstr,
    System,
}

/// The 5-bit code of each mode in a status word.
pub open spec fn mode_code(m: OperationMode) -> u32 {
    match m {
        OperationMode::User => 0b10000,
        OperationMode::FastInterrupt => 0b10001,
        OperationMode::Interrupt => 0b10010,
        OperationMode::Supervisor => 0b10011,
        OperationMode::Abort => 0b10111,
        OperationMode::UndefinedInstr => 0b11011,
        OperationMode::System => 0b11111,
    }
}

/// The mode whose code is the low five bits of `bits`, if any.
pub open spec fn mode_of_bits(bits: u32) -> Option<OperationMode> {
    let c = bits & 0x1f;
    if c == 0b10000 {
        Some(OperationMode::User)
    } else if c == 0b10001 {
        Some(OperationMode::FastInterrupt)
    } else if c == 0b10010 {
        Some(OperationMode::Interrupt)
    } else if c == 0b10011 {
        Some(OperationMode::Supervisor)
    } else if c == 0b10111 {
        Some(OperationMode::Abort)
    } else if c == 0b11011 {
        Some(OperationMode::UndefinedInstr)
    } else if c == 0b11111 {
        Some(OperationMode::System)
    } else {
        None
    }
}

/// The bank that holds a mode's stack pointer, link register and saved status.
pub open spec fn bank_of(m: OperationMode) -> int {
    match m {
        OperationMode::User | OperationMode::System => 0,
        OperationMode::FastInterrupt => 1,
        OperationMode::Interrupt => 2,
        OperationMode::Supervisor => 3,
        OperationMode::Abort => 4,
        OperationMode::UndefinedInstr => 5,
    }
}

impl Default for OperationMode {
    /// Supervisor mode, which the processor enters at reset.
    fn default() -> (r: OperationMode)
        ensures
            r == OperationMode::Supervisor,
    {
        OperationMode::Supervisor
    }
}

impl OperationMode {
    pub fn bits(self) -> (r: u32)
        ensures
            r == mode_code(self),
    {
        match self {
            OperationMode::User => 0b10000,
            OperationMode::FastInterrupt => 0b10001,
            OperationMode::Interrupt => 0b10010,
            OperationMode::Supervisor => 0b10011,
            OperationMode::Abort => 0b10111,
            OperationMode::UndefinedInstr => 0b11011,
            OperationMode::System => 0b11111,
        }
    }

    pub fn from_bits(bits: u32) -> (r: Option<OperationMode>)
        ensures
            r == mode_of_bits(bits),
    {
        let c = bits & 0x1f;
        if c == 0b10000 {
            Some(OperationMode::User)
        } else if c == 0b10001 {
            Some(OperationMode::FastInterrupt)
        } else if c == 0b10010 {
            Some(OperationMode::Interrupt)
        } else if c == 0b10011 {
            Some(OperationMode::Supervisor)
        } else if c == 0b10111 {
            Some(OperationMode::Abort)
        } else if c == 0b11011 {
            Some(OperationMode::UndefinedInstr)
        } else if c == 0b11111 {
            Some(OperationMode::System)
        } else {
            None
        }
    }

    pub fn bank_index(self) -> (r: usize)
        ensures
            r == bank_of(self),
            r < 6,
    {
        match self {
            OperationMode::User | OperationMode::System => 0,
            OperationMode::FastInterrupt => 1,
            OperationMode::Interrupt => 2,
            OperationMode::Supervisor => 3,
            OperationMode::Abort => 4,
            OperationMode::UndefinedInstr => 5,
        }
    }
}

/// Each mode's code decodes back to that mode.
pub proof fn lemma_mode_code_round_trip(m: OperationMode)
    ensures
        mode_of_bits(mode_code(m)) == Some(m),
{
    assert(0b10000u32 & 0x1f == 0b10000 && 0b10001u32 & 0x1f == 0b10001 && 0b10010u32 & 0x1f == 0b10010
        && 0b10011u32 & 0x1f == 0b10011 && 0b10111u32 & 0x1f == 0b10111 && 0b11011u32 & 0x1f == 0b11011
        && 0b11111u32 & 0x1f == 0b11111) by (bit_vector);
}

/// The instruction set the processor is decoding.
#[derive(Copy, Clone, PartialEq, Eq, Structural, Debug)]
pub enum OperationState {
    Arm,
    Thumb,
}

/// Size in bytes of one instruction in a state.
pub open spec fn instr_size_of(s: OperationState) -> u32 {
    match s {
        OperationState::Arm => 4,
        OperationState::Thumb => 2,
    }
}

impl Default for OperationState {
    /// ARM state, which the processor enters at reset.
    fn default() -> (r: OperationState)
        ensures
            r == OperationState::Arm,
    {
        OperationState::Arm
    }
}

impl OperationState {
    pub fn bits(self) -> (r: u32)
        ensures
            r == (if self == OperationState::Thumb { 0x20u32 } else { 0u32 }),
    {
        match self {
            OperationState::Arm => 0,
            OperationState::Thumb => 0x20,
        }
    }

    pub fn instr_size(self) -> (r: u32)
        ensures
            r == instr_size_of(self),
    {
        match self {
            OperationState::Arm => 4,
            OperationState::Thumb => 2,
        }
    }
}

/// A program status word, field by field.
#[derive(Copy, Clone, PartialEq, Eq, Structural, Debug)]
pub struct StatusRegister {
    pub signed: bool,
    pub zero: bool,
    pub carry: bool,
    pub overflow: bool,
    pub irq_disabled: bool,
    pub fiq_disabled: bool,
    pub state: OperationState,
    pub mode: OperationMode,
}

pub open spec fn flag_bit(b: bool, n: u32) -> u32 {
    if b {
        1u32 << n
    } else {
        0
    }
}

/// Whether bit `n` of `x` is set.
pub open spec fn bit_set(x: u32, n: u32) -> bool {
    (x >> n) & 1 == 1
}

/// The 32-bit encoding of a status word.
pub open spec fn psr_bits(s: StatusRegister) -> u32 {
    flag_bit(s.signed, 31) | flag_bit(s.zero, 30) | flag_bit(s.carry, 29) | flag_bit(
        s.overflow,
        28,
    ) | flag_bit(s.irq_disabled, 7) | flag_bit(s.fiq_disabled, 6) | (if s.state
        == OperationState::Thumb {
        0x20u32
    } else {
        0u32
    }) | mode_code(s.mode)
}

/// The status word after power-on: Supervisor mode, ARM state, flags clear.
pub open spec fn initial_psr() -> StatusRegister {
    StatusRegister {
        signed: false,
        zero: false,
        carry: false,
        overflow: false,
        irq_disabled: false,
        fiq_disabled: false,
        state: OperationState::Arm,
        mode: OperationMode::Supervisor,
    }
}

impl StatusRegister {
    pub fn new() -> (r: StatusRegister)
        ensures
            r == initial_psr(),
    {
        StatusRegister {
            signed: false,
            zero: false,
            carry: false,
            overflow: false,
            irq_disabled: false,
            fiq_disabled: false,
            state: OperationState::Arm,
            mode: OperationMode::Supervisor,
        }
    }

    pub fn bits(self) -> (r: u32)
        ensures
            r == psr_bits(self),
    {
        let mut psr: u32 = 0;
        if self.signed {
            psr = psr | (1u32 << 31u32);
        }
        if self.zero {
            psr = psr | (1u32 << 30u32);
        }
        if self.carry {
            psr = psr | (1u32 << 29u32);
        }
        if self.overflow {
            psr = psr | (1u32 << 28u32);
        }
        if self.irq_disabled {
            psr = psr | (1u32 << 7u32);
        }
        if self.fiq_disabled {
            psr = psr | (1u32 << 6u32);
        }
        psr = psr | self.state.bits();
        psr = psr | self.mode.bits();
        assert(psr == psr_bits(self)) by {
            assert(forall|x: u32| #![auto] 0u32 | x == x && x | 0u32 == x) by (bit_vector);
        }
        psr
    }

    /// Sets the condition flags from bits 31..28 of `bits`.
    pub fn set_flags_from_bits(&mut self, bits: u32)
        ensures
            *final(self) == (StatusRegister {
                signed: bit_set(bits, 31),
                zero: bit_set(bits, 30),
                carry: bit_set(bits, 29),
                overflow: bit_set(bits, 28),
                ..*old(self)
            }),
    {
        self.signed = (bits >> 31u32) & 1 == 1;
        self.zero = (bits >> 30u32) & 1 == 1;
        self.carry = (bits >> 29u32) & 1 == 1;
        self.overflow = (bits >> 28u32) & 1 == 1;
    }

    /// Sets the interrupt-disable bits and the mode from `bits`; fails,
    /// leaving the mode as it was, where bits 4..0 name no mode.
    pub fn set_control_from_bits(&mut self, bits: u32) -> (r: Result<OperationMode, ()>)
        ensures
            mode_of_bits(bits) is Some ==> r == Ok::<OperationMode, ()>(
                mode_of_bits(bits).unwrap(),
            ),
            mode_of_bits(bits) is None ==> r == Err::<OperationMode, ()>(()),
            *final(self) == (StatusRegister {
                irq_disabled: bit_set(bits, 7),
                fiq_disabled: bit_set(bits, 6),
                mode: match mode_of_bits(bits) {
                    Some(m) => m,
                    None => old(self).mode,
                },
                ..*old(self)
            }),
    {
        self.irq_disabled = (bits >> 7u32) & 1 == 1;
        self.fiq_disabled = (bits >> 6u32) & 1 == 1;
        match OperationMode::from_bits(bits) {
            Some(m) => {
                self.mode = m;
                Ok(m)
            },
            None => Err(()),
        }
    }
}


/// Bits of a status word that the register file holds: the condition flags,
/// the interrupt-disable bits, the state bit and the mode field.
pub const PSR_WRITABLE_MASK: u32 = 0xF000_00FF;

/// The status word after a write of the whole of `bits` to `s`, where bits
/// 4..0 name a mode.
pub open spec fn psr_written(s: StatusRegister, bits: u32) -> StatusRegister {
    StatusRegister {
        signed: bit_set(bits, 31),
        zero: bit_set(bits, 30),
        carry: bit_set(bits, 29),
        overflow: bit_set(bits, 28),
        irq_disabled: bit_set(bits, 7),
        fiq_disabled: bit_set(bits, 6),
        state: if bit_set(bits, 5) {
            OperationState::Thumb
        } else {
            OperationState::Arm
        },
        mode: match mode_of_bits(bits) {
            Some(m) => m,
            None => s.mode,
        },
    }
}

impl StatusRegister {
    /// Writes the whole status word: flags, interrupt-disable bits, state
    /// and mode. Fails where bits 4..0 name no mode, leaving the mode as it was.
    pub fn set_from_bits(&mut self, bits: u32) -> (r: Result<OperationMode, ()>)
        ensures
            r is Ok <==> mode_of_bits(bits) is Some,
            *final(self) == psr_written(*old(self), bits),
    {
        self.set_flags_from_bits(bits);
        self.state = if (bits >> 5u32) & 1 == 1 {
            OperationState::Thumb
        } else {
            OperationState::Arm
        };
        self.set_control_from_bits(bits)
    }
}

/// Writing a status word and reading it back gives the written bits that the
/// register file holds; the reserved bits read back as zero.
pub proof fn lemma_psr_write_read(s: StatusRegister, bits: u32)
    requires
        mode_of_bits(bits) is Some,
    ensures
        psr_bits(psr_written(s, bits)) == bits & PSR_WRITABLE_MASK,
{
    let w = psr_written(s, bits);
    let m = mode_of_bits(bits).unwrap();
    assert(mode_code(m) == bits & 0x1f);
    let t: u32 = if bit_set(bits, 5) { 0x20 } else { 0 };
    assert(t == bits & 0x20) by (bit_vector)
        requires t == (if (bits >> 5u32) & 1 == 1 { 0x20u32 } else { 0u32 });
    let f31 = flag_bit(bit_set(bits, 31), 31);
    let f30 = flag_bit(bit_set(bits, 30), 30);
    let f29 = flag_bit(bit_set(bits, 29), 29);
    let f28 = flag_bit(bit_set(bits, 28), 28);
    let f7 = flag_bit(bit_set(bits, 7), 7);
    let f6 = flag_bit(bit_set(bits, 6), 6);
    assert(f31 | f30 | f29 | f28 | f7 | f6 | t | (bits & 0x1f) == bits & 0xF000_00FF)
        by (bit_vector)
        requires
            f31 == (if (bits >> 31u32) & 1 == 1 { 1u32 << 31u32 } else { 0u32 }),
            f30 == (if (bits >> 30u32) & 1 == 1 { 1u32 << 30u32 } else { 0u32 }),
            f29 == (if (bits >> 29u32) & 1 == 1 { 1u32 << 29u32 } else { 0u32 }),
            f28 == (if (bits >> 28u32) & 1 == 1 { 1u32 << 28u32 } else { 0u32 }),
            f7 == (if (bits >> 7u32) & 1 == 1 { 1u32 << 7u32 } else { 0u32 }),
            f6 == (if (bits >> 6u32) & 1 == 1 { 1u32 << 6u32 } else { 0u32 }),
            t == bits & 0x20,
    ;
}


/// The stack pointer, link register and saved status word of one bank.
#[derive(Copy, Clone, PartialEq, Eq, Structural, Debug)]
pub struct Bank {
    pub sp: u32,
    pub lr: u32,
    pub spsr: StatusRegister,
}

/// The register file: sixteen general registers, the current and saved
/// status words, the six mode banks and the hidden bank of r8..r12 that Fast
/// Interrupt mode swaps in.
#[derive(Copy, Clone, Debug)]
pub struct Registers {
    pub r: [u32; 16],
    pub cpsr: StatusRegister,
    pub spsr: StatusRegister,
    pub banks: [Bank; 6],
    pub fiq_r8_12_bank: [u32; 5],
}

/// Whether `m` or `n` is Fast Interrupt mode, so that r8..r12 are swapped.
pub open spec fn swaps_fiq_regs(m: OperationMode, n: OperationMode) -> bool {
    m == OperationMode::FastInterrupt || n == OperationMode::FastInterrupt
}

/// The general registers after a change of bank from `old` to `new`.
pub open spec fn banked_r(reg: Registers, old: OperationMode, new: OperationMode) -> Seq<u32> {
    let nb = bank_of(new);
    Seq::new(
        16,
        |i: int|
            if i == 13 {
                reg.banks@[nb].sp
            } else if i == 14 {
                reg.banks@[nb].lr
            } else if 8 <= i <= 12 && swaps_fiq_regs(old, new) {
                reg.fiq_r8_12_bank@[i - 8]
            } else {
                reg.r@[i]
            },
    )
}

/// The bank array after the departing bank `old` has stored the current
/// stack pointer, link register and saved status.
pub open spec fn saved_banks(reg: Registers, old: OperationMode) -> Seq<Bank> {
    reg.banks@.update(bank_of(old), Bank { sp: reg.r@[13], lr: reg.r@[14], spsr: reg.spsr })
}

/// The hidden r8..r12 bank after a change from `old` to `new`.
pub open spec fn banked_fiq(reg: Registers, old: OperationMode, new: OperationMode) -> Seq<u32> {
    if swaps_fiq_regs(old, new) {
        reg.r@.subrange(8, 13)
    } else {
        reg.fiq_r8_12_bank@
    }
}

/// The register file after switching to mode `mode`: where the bank stays the
/// same only the mode field changes; otherwise the departing mode's registers
/// are stored in its bank before the new mode's are loaded.
pub open spec fn mode_changed(old: Registers, new: Registers, mode: OperationMode) -> bool {
    let om = old.cpsr.mode;
    &&& new.cpsr == (StatusRegister { mode: mode, ..old.cpsr })
    &&& if bank_of(om) == bank_of(mode) {
        &&& new.r@ == old.r@
        &&& new.spsr == old.spsr
        &&& new.banks@ == old.banks@
        &&& new.fiq_r8_12_bank@ == old.fiq_r8_12_bank@
    } else {
        &&& new.r@ == banked_r(old, om, mode)
        &&& new.spsr == old.banks@[bank_of(mode)].spsr
        &&& new.banks@ == saved_banks(old, om)
        &&& new.fiq_r8_12_bank@ == banked_fiq(old, om, mode)
    }
}

impl Default for Registers {
    fn default() -> (r: Registers)
        ensures
            r.power_on(),
    {
        Registers::new()
    }
}

impl Registers {
    /// The register file at power-on: every register zero, Supervisor mode
    /// and ARM state.
    pub open spec fn power_on(self) -> bool {
        &&& forall|i: int| 0 <= i < 16 ==> #[trigger] self.r@[i] == 0
        &&& forall|i: int| 0 <= i < 5 ==> #[trigger] self.fiq_r8_12_bank@[i] == 0
        &&& forall|i: int|
            0 <= i < 6 ==> #[trigger] self.banks@[i] == (Bank { sp: 0, lr: 0, spsr: initial_psr() })
        &&& self.cpsr == initial_psr()
        &&& self.spsr == initial_psr()
    }

    pub fn new() -> (r: Registers)
        ensures
            r.power_on(),
    {
        let psr = StatusRegister::new();
        let bank = Bank { sp: 0, lr: 0, spsr: psr };
        Registers { r: [0u32; 16], cpsr: psr, spsr: psr, banks: [bank; 6], fiq_r8_12_bank: [0u32; 5] }
    }

    /// Switches to mode `mode`, banking registers as the modes require.
    pub fn change_mode(&mut self, mode: OperationMode)
        ensures
            mode_changed(*old(self), *final(self), mode),
    {
        self.change_bank(mode);
        self.cpsr.mode = mode;
    }

    fn change_bank(&mut self, mode: OperationMode)
        ensures
            final(self).cpsr == old(self).cpsr,
            bank_of(old(self).cpsr.mode) == bank_of(mode) ==> *final(self) == *old(self),
            bank_of(old(self).cpsr.mode) != bank_of(mode) ==> {
                &&& final(self).r@ == banked_r(*old(self), old(self).cpsr.mode, mode)
                &&& final(self).spsr == old(self).banks@[bank_of(mode)].spsr
                &&& final(self).banks@ == saved_banks(*old(self), old(self).cpsr.mode)
                &&& final(self).fiq_r8_12_bank@ == banked_fiq(*old(self), old(self).cpsr.mode, mode)
            },
    {
        let old_bank_index = self.cpsr.mode.bank_index();
        let bank_index = mode.bank_index();
        if old_bank_index == bank_index {
            return;
        }
        let ghost pre = *self;
        if self.cpsr.mode == OperationMode::FastInterrupt || mode == OperationMode::FastInterrupt {
            let mut i: usize = 0;
            while i < 5
                invariant
                    0 <= i <= 5,
                    self.cpsr == pre.cpsr,
                    self.spsr == pre.spsr,
                    self.banks@ == pre.banks@,
                    forall|j: int| 0 <= j < i ==> #[trigger] self.fiq_r8_12_bank@[j] == pre.r@[8 + j],
                    forall|j: int| i <= j < 5 ==> #[trigger] self.fiq_r8_12_bank@[j] == pre.fiq_r8_12_bank@[j],
                    forall|j: int| 0 <= j < 16 ==> #[trigger] self.r@[j] == if 8 <= j < 8 + i {
                        pre.fiq_r8_12_bank@[j - 8]
                    } else {
                        pre.r@[j]
                    },
                decreases 5 - i,
            {
                let t = self.fiq_r8_12_bank[i];
                self.fiq_r8_12_bank[i] = self.r[8 + i];
                self.r[8 + i] = t;
                i = i + 1;
            }
        }
        let sp = self.r[SP_INDEX];
        let lr = self.r[LR_INDEX];
        let spsr = self.spsr;
        self.banks[old_bank_index] = Bank { sp, lr, spsr };
        self.r[SP_INDEX] = self.banks[bank_index].sp;
        self.r[LR_INDEX] = self.banks[bank_index].lr;
        self.spsr = self.banks[bank_index].spsr;
        assert(self.r@ =~= banked_r(pre, pre.cpsr.mode, mode));
        assert(self.banks@ =~= saved_banks(pre, pre.cpsr.mode));
        assert(self.fiq_r8_12_bank@ =~= banked_fiq(pre, pre.cpsr.mode, mode));
    }
}


/// Switching between two modes that share a bank and back again leaves the
/// general registers, the saved status and the banks as they were.
pub proof fn lemma_same_bank_round_trip(a: Registers, b: Registers, c: Registers, m: OperationMode)
    requires
        bank_of(a.cpsr.mode) == bank_of(m),
        mode_changed(a, b, m),
        mode_changed(b, c, a.cpsr.mode),
    ensures
        c.r@ == a.r@,
        c.spsr == a.spsr,
        c.banks@ == a.banks@,
        c.fiq_r8_12_bank@ == a.fiq_r8_12_bank@,
        c.cpsr == a.cpsr,
{
}

/// Entering Fast Interrupt mode from another mode `m`, changing only general
/// registers while there, and returning to `m` restores r8..r12 and `m`'s stack
/// pointer and link register, while the hidden bank keeps the values r8..r12
/// had in Fast Interrupt mode.
pub proof fn lemma_fiq_round_trip(a: Registers, b: Registers, b2: Registers, c: Registers)
    requires
        a.cpsr.mode != OperationMode::FastInterrupt,
        mode_changed(a, b, OperationMode::FastInterrupt),
        b2.cpsr == b.cpsr,
        b2.spsr == b.spsr,
        b2.banks@ == b.banks@,
        b2.fiq_r8_12_bank@ == b.fiq_r8_12_bank@,
        mode_changed(b2, c, a.cpsr.mode),
    ensures
        forall|i: int| 8 <= i < 15 ==> #[trigger] c.r@[i] == a.r@[i],
        c.fiq_r8_12_bank@ == b2.r@.subrange(8, 13),
        c.spsr == a.spsr,
        c.cpsr == a.cpsr,
{
    assert(bank_of(a.cpsr.mode) != bank_of(OperationMode::FastInterrupt));
    assert(c.fiq_r8_12_bank@ =~= b2.r@.subrange(8, 13));
}

} // verus!
