use memetendo::cpu::Cpu;

#[test]
fn lsl_by_32_gives_zero_and_bit_0() {
    let mut cpu = Cpu::new();
    assert_eq!(0, cpu.execute_lsl(0x8000_0001, 32));
    assert!(cpu.reg.cpsr.carry && cpu.reg.cpsr.zero);
    assert_eq!(0, cpu.execute_lsl(0x8000_0002, 32));
    assert!(!cpu.reg.cpsr.carry);
    assert_eq!(0, cpu.execute_lsl(0xffff_ffff, 33));
    assert!(!cpu.reg.cpsr.carry);
    assert_eq!(0x10, cpu.execute_lsl(1, 4));
}

#[test]
fn asr_by_32_or_more_of_negative() {
    let mut cpu = Cpu::new();
    for n in [32, 33, 100, 255] {
        assert_eq!(0xffff_ffff, cpu.execute_asr(0x8000_0000, n));
        assert!(cpu.reg.cpsr.carry && cpu.reg.cpsr.signed);
    }
    assert_eq!(0xf000_0000, cpu.execute_asr(0x8000_0000, 3));
}

#[test]
fn lsr_and_ror_edges() {
    let mut cpu = Cpu::new();
    assert_eq!(0, cpu.execute_lsr(0x8000_0000, 32));
    assert!(cpu.reg.cpsr.carry);
    assert_eq!(0x8000_0001, cpu.execute_ror(0x8000_0001, 64));
    assert!(cpu.reg.cpsr.carry);
    assert_eq!(0xc000_0000, cpu.execute_ror(0x8000_0001, 1));
}

#[test]
fn add_overflow_edge() {
    let mut cpu = Cpu::new();
    assert_eq!(0x8000_0000, cpu.execute_add_cmn(true, 0x7fff_ffff, 1));
    let s = cpu.reg.cpsr;
    assert!(s.overflow && s.signed && !s.carry && !s.zero);
}

#[test]
fn sub_carry_means_no_borrow() {
    let mut cpu = Cpu::new();
    for &(a, b) in &[(5u32, 3u32), (3, 5), (5, 5), (5, 0), (0, 0), (0, 1), (0xffff_ffff, 1)] {
        cpu.execute_sub_cmp(true, a, b);
        assert_eq!(a >= b, cpu.reg.cpsr.carry, "{} - {}", a, b);
    }
    assert_eq!(0xffff_fffe, cpu.execute_sub_cmp(true, 3, 5));
}

#[test]
fn flags_untouched_without_update() {
    let mut cpu = Cpu::new();
    assert_eq!(0, cpu.execute_add_cmn(false, 0xffff_ffff, 1));
    assert!(!cpu.reg.cpsr.carry && !cpu.reg.cpsr.zero);
}
