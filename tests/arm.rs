use memetendo::bus::{read_word, Bus as _, VecBus};
use memetendo::cpu::Cpu;
use memetendo::reg::{OperationMode, LR_INDEX, PC_INDEX};

fn arm_cpu() -> Cpu {
    let mut cpu = Cpu::new();
    cpu.reg.r[PC_INDEX] = 0x108;
    cpu
}

#[test]
fn arm_data_processing() {
    let mut cpu = arm_cpu();
    let mut bus = VecBus(vec![]);
    // MOV R0,#0xff000000 (0xff rotated right by 8)
    cpu.execute_arm(&mut bus, 0xe3a0_04ff);
    assert_eq!(0xff00_0000, cpu.reg.r[0]);
    // ADDS R1,R0,R0,LSL #1
    cpu.execute_arm(&mut bus, 0xe090_1080);
    assert_eq!(0xfd00_0000, cpu.reg.r[1]);
    assert!(cpu.reg.cpsr.carry && cpu.reg.cpsr.signed);
    // SUBS R2,R0,R0
    cpu.execute_arm(&mut bus, 0xe050_2000);
    assert_eq!(0, cpu.reg.r[2]);
    assert!(cpu.reg.cpsr.zero && cpu.reg.cpsr.carry);
    // RSB R3,R0,#0 (no flags)
    cpu.execute_arm(&mut bus, 0xe260_3000);
    assert_eq!(0x0100_0000, cpu.reg.r[3]);
    assert!(cpu.reg.cpsr.zero);
    // CMP R3,R0: 0x01000000 - 0xff000000 borrows
    cpu.execute_arm(&mut bus, 0xe153_0000);
    assert!(!cpu.reg.cpsr.carry && !cpu.reg.cpsr.zero);
    // MOVS R4,R3,RRX with carry clear
    cpu.execute_arm(&mut bus, 0xe1b0_4063);
    assert_eq!(0x0080_0000, cpu.reg.r[4]);
    // MOV R5,R0,LSR R6 with R6 = 0 leaves the value
    cpu.execute_arm(&mut bus, 0xe1a0_5630);
    assert_eq!(0xff00_0000, cpu.reg.r[5]);
}

#[test]
fn arm_mov_pc_branches() {
    let mut cpu = arm_cpu();
    let mut bus = VecBus(vec![]);
    cpu.reg.r[1] = 0x400;
    // MOV PC,R1
    cpu.execute_arm(&mut bus, 0xe1a0_f001);
    assert_eq!(0x408, cpu.reg.r[PC_INDEX]);
}

#[test]
fn arm_load_store() {
    let mut cpu = arm_cpu();
    let mut bus = VecBus(vec![0; 64]);
    cpu.reg.r[0] = 0x1122_3344;
    cpu.reg.r[1] = 8;
    // STR R0,[R1,#4]!
    cpu.execute_arm(&mut bus, 0xe5a1_0004);
    assert_eq!(0x1122_3344, read_word(&bus, 12));
    assert_eq!(12, cpu.reg.r[1]);
    // LDR R2,[R1],#4 (post-indexed)
    cpu.execute_arm(&mut bus, 0xe491_2004);
    assert_eq!(0x1122_3344, cpu.reg.r[2]);
    assert_eq!(16, cpu.reg.r[1]);
    // LDRB R3,[R1,#-3]
    cpu.execute_arm(&mut bus, 0xe551_3003);
    assert_eq!(0x33, cpu.reg.r[3]);
    // LDR R4,[R1,#-3]: misaligned, rotated
    cpu.execute_arm(&mut bus, 0xe511_4003);
    assert_eq!(0x4411_2233, cpu.reg.r[4]);
    // STRH R0,[R1] and LDRSH R5,[R1]
    cpu.reg.r[0] = 0x0000_8001;
    cpu.execute_arm(&mut bus, 0xe1c1_00b0);
    cpu.execute_arm(&mut bus, 0xe1d1_50f0);
    assert_eq!(0xffff_8001, cpu.reg.r[5]);
    // LDRSB R6,[R1]
    cpu.execute_arm(&mut bus, 0xe1d1_60d0);
    assert_eq!(1, cpu.reg.r[6]);
}

#[test]
fn arm_block_transfer() {
    let mut cpu = arm_cpu();
    let mut bus = VecBus(vec![0; 64]);
    cpu.reg.r[0] = 1;
    cpu.reg.r[1] = 2;
    cpu.reg.r[2] = 3;
    cpu.reg.r[13] = 0x30;
    // STMDB SP!,{R0-R2}
    cpu.execute_arm(&mut bus, 0xe92d_0007);
    assert_eq!(0x24, cpu.reg.r[13]);
    assert_eq!(1, read_word(&bus, 0x24));
    assert_eq!(3, read_word(&bus, 0x2c));
    // LDMIA SP!,{R4-R6}
    cpu.execute_arm(&mut bus, 0xe8bd_0070);
    assert_eq!([1, 2, 3], [cpu.reg.r[4], cpu.reg.r[5], cpu.reg.r[6]]);
    assert_eq!(0x30, cpu.reg.r[13]);
}

#[test]
fn arm_multiply_and_swap() {
    let mut cpu = arm_cpu();
    let mut bus = VecBus(vec![0; 16]);
    cpu.reg.r[1] = 0x1_0001;
    cpu.reg.r[2] = 0x1_0001;
    cpu.reg.r[3] = 5;
    // MLAS R0,R1,R2,R3
    cpu.execute_arm(&mut bus, 0xe030_3291);
    assert_eq!(0x0002_0006, cpu.reg.r[0]);
    assert!(!cpu.reg.cpsr.zero);
    bus.write_word(4, 0xaabb_ccdd);
    cpu.reg.r[4] = 4;
    cpu.reg.r[5] = 0x1234;
    // SWP R6,R5,[R4]
    cpu.execute_arm(&mut bus, 0xe104_6095);
    assert_eq!(0xaabb_ccdd, cpu.reg.r[6]);
    assert_eq!(0x1234, read_word(&bus, 4));
}

#[test]
fn arm_status_transfers() {
    let mut cpu = arm_cpu();
    let mut bus = VecBus(vec![]);
    // MRS R0,CPSR
    cpu.execute_arm(&mut bus, 0xe10f_0000);
    assert_eq!(0b10011, cpu.reg.r[0]);
    // MSR CPSR_fc,#0x1f: System mode
    cpu.reg.r[13] = 0x55;
    cpu.execute_arm(&mut bus, 0xe329_f01f);
    assert_eq!(OperationMode::System, cpu.reg.cpsr.mode);
    assert_eq!(0, cpu.reg.r[13]);
    assert_eq!(0x55, cpu.reg.banks[3].sp);
    // MSR CPSR_c with a bad mode is undefined
    cpu.execute_arm(&mut bus, 0xe321_f001);
    assert_eq!(OperationMode::UndefinedInstr, cpu.reg.cpsr.mode);
}

#[test]
fn arm_swi_and_return() {
    let mut cpu = arm_cpu();
    let mut bus = VecBus(vec![]);
    cpu.reg.cpsr.carry = true;
    cpu.execute_arm(&mut bus, 0xef00_0000);
    assert_eq!(OperationMode::Supervisor, cpu.reg.cpsr.mode);
    assert_eq!(0x104, cpu.reg.r[LR_INDEX]);
    assert_eq!(0x10, cpu.reg.r[PC_INDEX]);
    // MOVS PC,LR returns, restoring the status word
    cpu.reg.cpsr.carry = false;
    cpu.execute_arm(&mut bus, 0xe1b0_f00e);
    assert_eq!(0x10c, cpu.reg.r[PC_INDEX]);
    assert!(cpu.reg.cpsr.carry);
}

#[test]
fn arm_long_multiply() {
    let mut cpu = arm_cpu();
    let mut bus = VecBus(vec![]);
    cpu.reg.r[2] = 0xffff_ffff;
    cpu.reg.r[3] = 2;
    // UMULL R0,R1,R2,R3
    cpu.execute_arm(&mut bus, 0xe081_0392);
    assert_eq!([0xffff_fffe, 1], [cpu.reg.r[0], cpu.reg.r[1]]);
    // SMULL R0,R1,R2,R3: -1 * 2
    cpu.execute_arm(&mut bus, 0xe0c1_0392);
    assert_eq!([0xffff_fffe, 0xffff_ffff], [cpu.reg.r[0], cpu.reg.r[1]]);
    // UMLALS R0,R1,R2,R3: adds 0x1_fffffffe to -2 (mod 2^64)
    cpu.execute_arm(&mut bus, 0xe0b1_0392);
    assert_eq!([0xffff_fffc, 1], [cpu.reg.r[0], cpu.reg.r[1]]);
    assert!(!cpu.reg.cpsr.signed && !cpu.reg.cpsr.zero);
}

#[test]
fn arm_block_transfer_user_bank_and_return() {
    let mut cpu = arm_cpu();
    let mut bus = VecBus(vec![0; 16]);
    cpu.reg.r[13] = 0x55;
    cpu.reg.banks[0].sp = 0x77;
    cpu.reg.r[0] = 0;
    // STMIA R0,{R13}^ stores the User mode stack pointer
    cpu.execute_arm(&mut bus, 0xe8c0_2000);
    assert_eq!(0x77, read_word(&bus, 0));
    assert_eq!(0x55, cpu.reg.r[13]);
    assert_eq!(OperationMode::Supervisor, cpu.reg.cpsr.mode);
    // LDMIA R0!,{PC}^ returns to User mode with the saved flags
    bus.write_word(4, 0x200);
    cpu.reg.r[0] = 4;
    cpu.reg.spsr.mode = OperationMode::User;
    cpu.reg.spsr.carry = true;
    cpu.execute_arm(&mut bus, 0xe8f0_8000);
    assert_eq!(0x208, cpu.reg.r[PC_INDEX]);
    assert_eq!(OperationMode::User, cpu.reg.cpsr.mode);
    assert!(cpu.reg.cpsr.carry);
    assert_eq!(8, cpu.reg.r[0]);
    assert_eq!(0x77, cpu.reg.r[13]);
}
