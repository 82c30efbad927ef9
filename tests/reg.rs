use memetendo::reg::{OperationMode, OperationState, Registers, StatusRegister};

#[test]
fn usr_and_sys_mode_same_bank_index() {
    assert_eq!(
        OperationMode::User.bank_index(),
        OperationMode::System.bank_index()
    );
}

#[test]
fn change_mode_works() {
    let mut reg = Registers::default();
    reg.change_mode(OperationMode::User);

    assert_eq!(OperationMode::User, reg.cpsr.mode);

    reg.r = [1337; 16];
    reg.change_mode(OperationMode::UndefinedInstr);

    assert_eq!(OperationMode::UndefinedInstr, reg.cpsr.mode);

    let old_bank = reg.banks[OperationMode::User.bank_index()];
    assert_eq!(1337, old_bank.sp);
    assert_eq!(1337, old_bank.lr);

    reg.r[13..=14].fill(1234);
    let undef_spsr_zero = reg.spsr.zero;
    reg.spsr.zero = !reg.spsr.zero;
    reg.change_mode(OperationMode::FastInterrupt);

    assert_eq!(OperationMode::FastInterrupt, reg.cpsr.mode);

    let old_bank = reg.banks[OperationMode::UndefinedInstr.bank_index()];
    assert_eq!(1234, old_bank.sp);
    assert_eq!(1234, old_bank.lr);
    assert_ne!(undef_spsr_zero, old_bank.spsr.zero);
    // r8-r12 were saved for later restoration
    assert_eq!([1337; 5], reg.fiq_r8_12_bank);

    reg.r[8..=12].fill(0xeeee);
    reg.r[13..=14].fill(0xaaaa);
    reg.change_mode(OperationMode::User);

    // Back in usr mode, so the registers are those from when we started
    assert_eq!(OperationMode::User, reg.cpsr.mode);
    assert_eq!([1337; 2], reg.r[13..=14]);
    assert_eq!([0xeeee; 5], reg.fiq_r8_12_bank);

    let old_bank = reg.banks[OperationMode::FastInterrupt.bank_index()];
    assert_eq!(0xaaaa, old_bank.sp);
    assert_eq!(0xaaaa, old_bank.lr);

    // No banking between usr and sys modes: they share a bank
    reg.change_mode(OperationMode::System);

    assert_eq!(OperationMode::System, reg.cpsr.mode);
    assert_eq!([1337; 2], reg.r[13..=14]);

    let bank = reg.banks[OperationMode::System.bank_index()];
    assert_eq!(1337, bank.sp);
    assert_eq!(1337, bank.lr);
}

#[test]
fn defaults_are_supervisor_and_arm() {
    assert_eq!(OperationMode::Supervisor, OperationMode::default());
    assert_eq!(OperationState::Arm, OperationState::default());
    let reg = Registers::default();
    assert_eq!(OperationMode::Supervisor, reg.cpsr.mode);
    assert_eq!([0; 16], reg.r);
}

#[test]
fn mode_banking_preserves_supervisor_registers() {
    let mut reg = Registers::new();
    assert_eq!(OperationMode::Supervisor, reg.cpsr.mode);
    reg.r[13] = 0x1000;
    reg.r[8] = 0x77;
    reg.change_mode(OperationMode::FastInterrupt);
    reg.r[13] = 0x2000;
    reg.r[8] = 0xbeef;
    reg.change_mode(OperationMode::Supervisor);
    assert_eq!(0x1000, reg.r[13]);
    assert_eq!(0x77, reg.r[8]);
    assert_eq!(0xbeef, reg.fiq_r8_12_bank[0]);
}

#[test]
fn same_bank_round_trip_changes_nothing() {
    let mut reg = Registers::new();
    reg.change_mode(OperationMode::User);
    reg.r = [5; 16];
    let before = reg.r;
    reg.change_mode(OperationMode::System);
    reg.change_mode(OperationMode::User);
    assert_eq!(before, reg.r);
}

#[test]
fn fiq_round_trip_restores_registers() {
    let mut reg = Registers::new();
    reg.change_mode(OperationMode::Interrupt);
    for i in 0..16 {
        reg.r[i] = 100 + i as u32;
    }
    reg.change_mode(OperationMode::FastInterrupt);
    for i in 8..15 {
        reg.r[i] = 900 + i as u32;
    }
    reg.change_mode(OperationMode::Interrupt);
    for i in 8..15 {
        assert_eq!(100 + i as u32, reg.r[i]);
    }
    assert_eq!([908, 909, 910, 911, 912], reg.fiq_r8_12_bank);
}

#[test]
fn psr_write_read_round_trip() {
    let mut s = StatusRegister::new();
    for &bits in &[0xf000_00ffu32, 0x5000_0010, 0xa000_0093, 0x0fff_ff1b, 0x0000_0037] {
        assert!(s.set_from_bits(bits).is_ok());
        assert_eq!(bits & 0xf000_00ff, s.bits());
    }
}

#[test]
fn psr_write_with_bad_mode_fails() {
    let mut s = StatusRegister::new();
    assert_eq!(Err(()), s.set_control_from_bits(0x0000_0001));
    assert_eq!(OperationMode::Supervisor, s.mode);
    assert_eq!(Ok(OperationMode::Abort), s.set_control_from_bits(0x0000_00d7));
    assert!(s.irq_disabled && s.fiq_disabled);
}

#[test]
fn psr_bits_layout() {
    let mut s = StatusRegister::new();
    assert_eq!(0b10011, s.bits());
    s.signed = true;
    s.carry = true;
    s.irq_disabled = true;
    assert_eq!((1 << 31) | (1 << 29) | (1 << 7) | 0b10011, s.bits());
    s.set_flags_from_bits(1 << 30);
    assert!(!s.signed && s.zero && !s.carry && !s.overflow);
}
