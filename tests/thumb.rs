use memetendo::bus::{read_hword, read_word, Bus, VecBus};
use memetendo::cpu::Cpu;
use memetendo::reg::{OperationMode, OperationState, LR_INDEX, PC_INDEX, SP_INDEX};

/// Reads through the bus by half-words and words.
trait BusExt {
    fn read_hword(&self, addr: u32) -> u16;
    fn read_word(&self, addr: u32) -> u32;
}

impl BusExt for VecBus {
    fn read_hword(&self, addr: u32) -> u16 {
        read_hword(self, addr)
    }

    fn read_word(&self, addr: u32) -> u32 {
        read_word(self, addr)
    }
}

/// Runs one Thumb instruction on a processor in Thumb state whose registers
/// are zero but for the program counter (4, two instructions past 0), and
/// checks every general register, the condition flags and the IRQ-disable
/// bit against the expected values: those not named are expected unchanged
/// from that start.
struct InstrTest<'a> {
    instr: u16,
    setup: Option<&'a dyn Fn(&mut Cpu)>,
    r: [u32; 16],
    negative: bool,
    zero: bool,
    carry: bool,
    overflow: bool,
    irq_disabled: bool,
}

fn thumb_cpu() -> Cpu {
    let mut cpu = Cpu::new();
    cpu.reg.cpsr.state = OperationState::Thumb;
    cpu.reg.r[PC_INDEX] = 4;
    cpu
}

impl<'a> InstrTest<'a> {
    fn new_thumb(instr: u16) -> Self {
        let mut r = [0; 16];
        r[PC_INDEX] = 4;
        Self {
            instr,
            setup: None,
            r,
            negative: false,
            zero: false,
            carry: false,
            overflow: false,
            irq_disabled: false,
        }
    }

    fn setup(mut self, f: &'a dyn Fn(&mut Cpu)) -> Self {
        self.setup = Some(f);
        self
    }

    fn assert_r(mut self, i: usize, v: u32) -> Self {
        self.r[i] = v;
        self
    }

    fn assert_negative(mut self) -> Self {
        self.negative = true;
        self
    }

    fn assert_zero(mut self) -> Self {
        self.zero = true;
        self
    }

    fn assert_carry(mut self) -> Self {
        self.carry = true;
        self
    }

    fn assert_overflow(mut self) -> Self {
        self.overflow = true;
        self
    }

    fn assert_irq_disabled(mut self) -> Self {
        self.irq_disabled = true;
        self
    }

    fn run(self) -> Cpu {
        let mut bus = VecBus(vec![]);
        self.run_with_bus(&mut bus)
    }

    fn run_with_bus(self, bus: &mut VecBus) -> Cpu {
        let mut cpu = thumb_cpu();
        if let Some(f) = self.setup {
            f(&mut cpu);
        }
        cpu.execute_thumb(bus, self.instr);
        assert_eq!(self.r, cpu.reg.r, "registers after {:#06x}", self.instr);
        assert_eq!(self.negative, cpu.reg.cpsr.signed, "N after {:#06x}", self.instr);
        assert_eq!(self.zero, cpu.reg.cpsr.zero, "Z after {:#06x}", self.instr);
        assert_eq!(self.carry, cpu.reg.cpsr.carry, "C after {:#06x}", self.instr);
        assert_eq!(self.overflow, cpu.reg.cpsr.overflow, "V after {:#06x}", self.instr);
        assert_eq!(self.irq_disabled, cpu.reg.cpsr.irq_disabled, "I after {:#06x}", self.instr);
        cpu
    }
}

#[test]
fn execute_thumb1() {
    // LSL{S} Rd,Rs,#Offset
    InstrTest::new_thumb(0b000_00_00011_001_100) // R4,R1,#3
        .setup(&|cpu| cpu.reg.r[1] = 0b10)
        .assert_r(1, 0b10)
        .assert_r(4, 0b10_000)
        .run();

    InstrTest::new_thumb(0b000_00_01111_111_000) // R0,R7,#15
        .setup(&|cpu| cpu.reg.r[7] = 1)
        .assert_r(0, 1 << 15)
        .assert_r(7, 1)
        .run();

    InstrTest::new_thumb(0b000_00_00001_111_000) // R0,R7,#1
        .setup(&|cpu| cpu.reg.r[7] = 1 << 31)
        .assert_r(7, 1 << 31)
        .assert_carry()
        .assert_zero()
        .run();

    InstrTest::new_thumb(0b000_00_01010_111_000) // R0,R7,#10
        .assert_zero()
        .run();

    InstrTest::new_thumb(0b000_00_00000_000_000) // R0,R0,#0
        .setup(&|cpu| cpu.reg.r[0] = u32::MAX)
        .assert_r(0, u32::MAX)
        .assert_negative()
        .run();

    // LSR{S} Rd,Rs,#Offset
    InstrTest::new_thumb(0b000_01_00011_001_100) // R4,R1,#2
        .setup(&|cpu| cpu.reg.r[1] = 0b100)
        .assert_r(1, 0b100)
        .assert_zero()
        .assert_carry()
        .run();

    InstrTest::new_thumb(0b000_01_00011_001_100) // R4,R1,#2
        .setup(&|cpu| cpu.reg.r[1] = 0b10)
        .assert_r(1, 0b10)
        .assert_zero()
        .run();

    InstrTest::new_thumb(0b000_01_11111_111_111) // R7,R7,#31
        .setup(&|cpu| cpu.reg.r[7] = 1 << 31)
        .assert_r(7, 1)
        .run();

    InstrTest::new_thumb(0b000_01_00000_111_111) // R7,R7,#32
        .setup(&|cpu| cpu.reg.r[7] = 1 << 31)
        .assert_zero()
        .assert_carry()
        .run();

    // ASR{S} Rd,Rs,#Offset
    InstrTest::new_thumb(0b000_10_11111_111_111) // R7,R7,#31
        .setup(&|cpu| cpu.reg.r[7] = 1 << 31)
        .assert_r(7, u32::MAX)
        .assert_negative()
        .run();

    InstrTest::new_thumb(0b000_10_00001_101_000) // R0,R5,#1
        .setup(&|cpu| cpu.reg.r[5] = !(1 << 31))
        .assert_r(0, !(0b11 << 30))
        .assert_r(5, !(1 << 31))
        .assert_carry()
        .run();

    InstrTest::new_thumb(0b000_10_00000_111_111) // R7,R7,#32
        .setup(&|cpu| cpu.reg.r[7] = 1 << 31)
        .assert_r(7, u32::MAX)
        .assert_negative()
        .assert_carry()
        .run();
}

#[test]
fn execute_thumb2() {
    // ADD{S} Rd,Rs,Rn
    InstrTest::new_thumb(0b00011_00_111_001_100) // R4,R1,R7
        .setup(&|cpu| {
            cpu.reg.r[1] = 13;
            cpu.reg.r[7] = 7;
        })
        .assert_r(1, 13)
        .assert_r(4, 20)
        .assert_r(7, 7)
        .run();

    InstrTest::new_thumb(0b00011_00_111_111_111) // R7,R7,R7
        .setup(&|cpu| cpu.reg.r[7] = 1)
        .assert_r(7, 2)
        .run();

    InstrTest::new_thumb(0b00011_00_111_110_000) // R0,R6,R7
        .setup(&|cpu| {
            cpu.reg.r[6] = u32::MAX;
            cpu.reg.r[7] = 1;
        })
        .assert_r(6, u32::MAX)
        .assert_r(7, 1)
        .assert_carry()
        .assert_zero()
        .run();

    InstrTest::new_thumb(0b00011_00_000_001_010) // R2,R1,R0
        .setup(&|cpu| {
            cpu.reg.r[0] = -5 as _;
            cpu.reg.r[1] = -10 as _;
        })
        .assert_r(0, -5 as _)
        .assert_r(1, -10 as _)
        .assert_r(2, -15 as _)
        .assert_negative()
        .assert_carry()
        .run();

    InstrTest::new_thumb(0b00011_00_000_001_010) // R2,R1,R0
        .setup(&|cpu| {
            cpu.reg.r[0] = i32::MIN as _;
            cpu.reg.r[1] = -1 as _;
        })
        .assert_r(0, i32::MIN as _)
        .assert_r(1, -1 as _)
        .assert_r(2, i32::MIN.wrapping_sub(1) as _)
        .assert_carry()
        .assert_overflow()
        .run();

    // SUB{S} Rd,Rs,Rn
    InstrTest::new_thumb(0b00011_01_110_011_000) // R0,R3,R6
        .setup(&|cpu| {
            cpu.reg.r[3] = i32::MIN as _;
            cpu.reg.r[6] = i32::MAX as _;
        })
        .assert_r(0, 1)
        .assert_r(3, i32::MIN as _)
        .assert_r(6, i32::MAX as _)
        .assert_carry()
        .assert_overflow()
        .run();

    InstrTest::new_thumb(0b00011_01_000_000_010) // R2,R0,R0
        .setup(&|cpu| cpu.reg.r[0] = -5 as _)
        .assert_r(0, -5 as _)
        .assert_carry()
        .assert_zero()
        .run();

    InstrTest::new_thumb(0b00011_01_000_001_010) // R2,R1,R0
        .setup(&|cpu| {
            cpu.reg.r[0] = 5;
            cpu.reg.r[1] = -10 as _;
        })
        .assert_r(0, 5)
        .assert_r(1, -10 as _)
        .assert_r(2, -15 as _)
        .assert_negative()
        .assert_carry()
        .run();

    InstrTest::new_thumb(0b00011_01_000_001_010) // R2,R1,R0
        .setup(&|cpu| {
            cpu.reg.r[0] = 1;
            cpu.reg.r[1] = i32::MIN as u32 + 1;
        })
        .assert_r(0, 1)
        .assert_r(1, i32::MIN as u32 + 1)
        .assert_r(2, i32::MIN as _)
        .assert_negative()
        .assert_carry()
        .run();

    // ADD{S} Rd,Rs,#nn
    InstrTest::new_thumb(0b00011_10_101_000_000) // R0,R0,#5
        .setup(&|cpu| cpu.reg.r[0] = 10)
        .assert_r(0, 15)
        .run();

    // SUB{S} Rd,Rs,#nn
    InstrTest::new_thumb(0b00011_11_010_000_000) // R0,R0,#2
        .setup(&|cpu| cpu.reg.r[0] = 10)
        .assert_r(0, 8)
        .assert_carry()
        .run();
}

#[test]
fn execute_thumb3() {
    // MOV{S} Rd,#nn
    InstrTest::new_thumb(0b001_00_101_11111111) // R5,#255
        .setup(&|cpu| cpu.reg.cpsr.signed = true)
        .assert_r(5, 255)
        .run();

    InstrTest::new_thumb(0b001_00_001_00000000) // R1,#0
        .setup(&|cpu| cpu.reg.r[1] = 1337)
        .assert_zero()
        .run();

    // CMP{S} Rd,#nn
    InstrTest::new_thumb(0b001_01_110_11111111) // R6,#255
        .setup(&|cpu| cpu.reg.r[6] = 255)
        .assert_r(6, 255)
        .assert_zero()
        .assert_carry()
        .run();

    InstrTest::new_thumb(0b001_01_010_00000000) // R2,#0
        .setup(&|cpu| cpu.reg.r[2] = 13)
        .assert_r(2, 13)
        .assert_carry()
        .run();

    // ADD{S} Rd,#nn
    InstrTest::new_thumb(0b001_10_111_10101010) // R7,#170
        .setup(&|cpu| cpu.reg.r[7] = 3)
        .assert_r(7, 173)
        .run();

    // SUB{S} Rd,#nn
    InstrTest::new_thumb(0b001_11_011_00001111) // R3,#15
        .setup(&|cpu| cpu.reg.r[3] = 10)
        .assert_r(3, -5 as _)
        .assert_negative()
        .run();
}

#[test]
fn execute_thumb4() {
    // AND{S} Rd,Rs
    InstrTest::new_thumb(0b010000_0000_001_000) // R0,R1
        .setup(&|cpu| {
            cpu.reg.r[0] = 0b0011;
            cpu.reg.r[1] = 0b1010;
        })
        .assert_r(0, 0b0010)
        .assert_r(1, 0b1010)
        .run();

    InstrTest::new_thumb(0b010000_0000_001_000) // R0,R1
        .setup(&|cpu| cpu.reg.r[1] = 0b1010)
        .assert_r(1, 0b1010)
        .assert_zero()
        .run();

    InstrTest::new_thumb(0b010000_0000_101_001) // R1,R5
        .setup(&|cpu| {
            cpu.reg.r[1] = i32::MIN as _;
            cpu.reg.r[5] = 1 << 31;
        })
        .assert_r(1, i32::MIN as _)
        .assert_r(5, 1 << 31)
        .assert_negative()
        .run();

    // EOR{S} Rd,Rs
    InstrTest::new_thumb(0b010000_0001_001_000) // R0,R1
        .setup(&|cpu| {
            cpu.reg.r[0] = 0b0011;
            cpu.reg.r[1] = 0b1110;
        })
        .assert_r(0, 0b1101)
        .assert_r(1, 0b1110)
        .run();

    InstrTest::new_thumb(0b010000_0001_000_001) // R1,R0
        .setup(&|cpu| {
            cpu.reg.r[0] = 0b1100;
            cpu.reg.r[1] = 0b1100;
        })
        .assert_r(0, 0b1100)
        .assert_zero()
        .run();

    InstrTest::new_thumb(0b010000_0001_001_111) // R7,R1
        .setup(&|cpu| {
            cpu.reg.r[1] = u32::MAX;
            cpu.reg.r[7] = u32::MAX >> 1;
        })
        .assert_r(1, u32::MAX)
        .assert_r(7, 1 << 31)
        .assert_negative()
        .run();

    // LSL{S} Rd,Rs
    // this test should not panic due to shift overflow:
    InstrTest::new_thumb(0b010000_0010_001_111) // R7,R1
        .setup(&|cpu| {
            cpu.reg.r[1] = 32;
            cpu.reg.r[7] = 1;
        })
        .assert_r(1, 32)
        .assert_zero()
        .assert_carry()
        .run();

    InstrTest::new_thumb(0b010000_0010_001_111) // R7,R1
        .setup(&|cpu| {
            cpu.reg.r[1] = 33;
            cpu.reg.r[7] = 1;
        })
        .assert_r(1, 33)
        .assert_zero()
        .run();

    InstrTest::new_thumb(0b010000_0010_001_111) // R7,R1
        .setup(&|cpu| {
            cpu.reg.r[1] = u8::MAX.into();
            cpu.reg.r[7] = 1;
        })
        .assert_r(1, u8::MAX.into())
        .assert_zero()
        .run();

    // LSR{S} Rd,Rs
    // this test should not panic due to shift overflow:
    InstrTest::new_thumb(0b010000_0011_000_001) // R1,R0
        .setup(&|cpu| {
            cpu.reg.r[0] = 32;
            cpu.reg.r[1] = 1 << 31;
        })
        .assert_r(0, 32)
        .assert_zero()
        .assert_carry()
        .run();

    InstrTest::new_thumb(0b010000_0011_000_001) // R1,R0
        .setup(&|cpu| {
            cpu.reg.r[0] = 33;
            cpu.reg.r[1] = 1 << 31;
        })
        .assert_r(0, 33)
        .assert_zero()
        .run();

    InstrTest::new_thumb(0b010000_0011_000_001) // R1,R0
        .setup(&|cpu| {
            cpu.reg.r[0] = u8::MAX.into();
            cpu.reg.r[1] = 1;
        })
        .assert_r(0, u8::MAX.into())
        .assert_zero()
        .run();

    InstrTest::new_thumb(0b010000_0011_000_001) // R1,R0
        .setup(&|cpu| {
            cpu.reg.r[0] = 3;
            cpu.reg.r[1] = 0b1000;
        })
        .assert_r(0, 3)
        .assert_r(1, 1)
        .run();

    // ASR{S} Rd,Rs
    // this test should not panic due to shift overflow:
    InstrTest::new_thumb(0b010000_0100_001_000) // R0,R1
        .setup(&|cpu| {
            cpu.reg.r[0] = 1 << 31;
            cpu.reg.r[1] = 32;
        })
        .assert_r(0, u32::MAX)
        .assert_r(1, 32)
        .assert_negative()
        .assert_carry()
        .run();

    InstrTest::new_thumb(0b010000_0100_001_000) // R0,R1
        .setup(&|cpu| {
            cpu.reg.r[0] = 1 << 31;
            cpu.reg.r[1] = 33;
        })
        .assert_r(0, u32::MAX)
        .assert_r(1, 33)
        .assert_negative()
        .assert_carry()
        .run();

    InstrTest::new_thumb(0b010000_0100_001_000) // R0,R1
        .setup(&|cpu| {
            cpu.reg.r[0] = 1 << 31;
            cpu.reg.r[1] = u8::MAX.into();
        })
        .assert_r(0, u32::MAX)
        .assert_r(1, u8::MAX.into())
        .assert_negative()
        .assert_carry()
        .run();

    InstrTest::new_thumb(0b010000_0100_001_000) // R0,R1
        .setup(&|cpu| {
            cpu.reg.r[0] = 1 << 30;
            cpu.reg.r[1] = u8::MAX.into();
        })
        .assert_r(1, u8::MAX.into())
        .assert_zero()
        .run();

    // ADC{S} Rd,Rs
    InstrTest::new_thumb(0b010000_0101_000_001) // R1,R0
        .setup(&|cpu| {
            cpu.reg.r[0] = 5;
            cpu.reg.r[1] = 32;
        })
        .assert_r(0, 5)
        .assert_r(1, 37)
        .run();

    InstrTest::new_thumb(0b010000_0101_000_001) // R1,R0
        .setup(&|cpu| {
            cpu.reg.r[0] = 5;
            cpu.reg.r[1] = 32;
            cpu.reg.cpsr.carry = true;
        })
        .assert_r(0, 5)
        .assert_r(1, 38)
        .run();

    InstrTest::new_thumb(0b010000_0101_000_111) // R7,R0
        .setup(&|cpu| {
            cpu.reg.r[0] = u32::MAX;
            cpu.reg.r[7] = 1;
        })
        .assert_r(0, u32::MAX)
        .assert_carry()
        .assert_zero()
        .run();

    InstrTest::new_thumb(0b010000_0101_000_111) // R7,R0
        .setup(&|cpu| {
            cpu.reg.r[0] = u32::MAX;
            cpu.reg.r[7] = 1;
            cpu.reg.cpsr.carry = true;
        })
        .assert_r(0, u32::MAX)
        .assert_r(7, 1)
        .assert_carry()
        .run();

    InstrTest::new_thumb(0b010000_0101_000_111) // R7,R0
        .setup(&|cpu| {
            cpu.reg.r[0] = u32::MAX;
            cpu.reg.r[7] = u32::MAX;
        })
        .assert_r(0, u32::MAX)
        .assert_r(7, -2 as _)
        .assert_carry()
        .assert_negative()
        .run();

    InstrTest::new_thumb(0b010000_0101_000_111) // R7,R0
        .setup(&|cpu| {
            cpu.reg.r[0] = u32::MAX;
            cpu.reg.r[7] = u32::MAX;
            cpu.reg.cpsr.carry = true;
        })
        .assert_r(0, u32::MAX)
        .assert_r(7, -1 as _)
        .assert_carry()
        .assert_negative()
        .run();

    InstrTest::new_thumb(0b010000_0101_000_111) // R7,R0
        .setup(&|cpu| {
            cpu.reg.r[0] = u32::MAX;
            cpu.reg.r[7] = u32::MAX;
            cpu.reg.cpsr.carry = true;
        })
        .assert_r(0, u32::MAX)
        .assert_r(7, -1 as _)
        .assert_carry()
        .assert_negative()
        .run();

    InstrTest::new_thumb(0b010000_0101_000_111) // R7,R0
        .setup(&|cpu| {
            cpu.reg.r[0] = u32::MAX;
            cpu.reg.cpsr.carry = true;
        })
        .assert_r(0, u32::MAX)
        .assert_carry()
        .assert_zero()
        .run();

    // SBC{S} Rd,Rs
    InstrTest::new_thumb(0b010000_0110_000_001) // R1,R0
        .setup(&|cpu| {
            cpu.reg.r[0] = 5;
            cpu.reg.r[1] = 32;
        })
        .assert_r(0, 5)
        .assert_r(1, 26)
        .assert_carry()
        .run();

    InstrTest::new_thumb(0b010000_0110_000_001) // R1,R0
        .setup(&|cpu| {
            cpu.reg.r[0] = 5;
            cpu.reg.r[1] = 32;
            cpu.reg.cpsr.carry = true;
        })
        .assert_r(0, 5)
        .assert_r(1, 27)
        .assert_carry()
        .run();

    InstrTest::new_thumb(0b010000_0110_000_111) // R7,R0
        .setup(&|cpu| {
            cpu.reg.r[0] = -1 as _;
            cpu.reg.r[7] = 1;
        })
        .assert_r(0, u32::MAX)
        .assert_r(7, 1)
        .assert_carry()
        .run();

    InstrTest::new_thumb(0b010000_0110_000_111) // R7,R0
        .setup(&|cpu| {
            cpu.reg.r[0] = -1 as _;
            cpu.reg.r[7] = 1;
            cpu.reg.cpsr.carry = true;
        })
        .assert_r(0, u32::MAX)
        .assert_r(7, 2)
        .run();

    InstrTest::new_thumb(0b010000_0110_000_111) // R7,R0
        .setup(&|cpu| cpu.reg.r[7] = i32::MIN as _)
        .assert_r(7, i32::MAX as _)
        .assert_overflow()
        .assert_carry()
        .run();

    InstrTest::new_thumb(0b010000_0110_000_111) // R7,R0
        .setup(&|cpu| {
            cpu.reg.r[0] = i32::MAX as _;
            cpu.reg.r[7] = i32::MIN as _;
        })
        .assert_r(0, i32::MAX as _)
        .assert_overflow()
        .assert_carry()
        .assert_zero()
        .run();

    // ROR{S} Rd,Rs
    InstrTest::new_thumb(0b010000_0111_000_001) // R1,R0
        .setup(&|cpu| {
            cpu.reg.r[0] = 2;
            cpu.reg.r[1] = 0b1111;
        })
        .assert_r(0, 2)
        .assert_r(1, (0b11 << 30) | 0b11)
        .assert_carry()
        .assert_negative()
        .run();

    InstrTest::new_thumb(0b010000_0111_000_001) // R1,R0
        .setup(&|cpu| cpu.reg.r[1] = 0b1111)
        .assert_r(1, 0b1111)
        .run();

    InstrTest::new_thumb(0b010000_0111_010_011) // R3,R2
        .setup(&|cpu| {
            cpu.reg.r[2] = 255;
            cpu.reg.r[3] = 0b1111;
        })
        .assert_r(2, 255)
        .assert_r(3, 0b11110)
        .run();

    InstrTest::new_thumb(0b010000_0111_010_011) // R3,R2
        .setup(&|cpu| cpu.reg.r[2] = 255)
        .assert_r(2, 255)
        .assert_zero()
        .run();

    // TST Rd,Rs
    InstrTest::new_thumb(0b010000_1000_000_001) // R1,R0
        .setup(&|cpu| cpu.reg.r[1] = 0b1111)
        .assert_r(1, 0b1111)
        .assert_zero()
        .run();

    InstrTest::new_thumb(0b010000_1000_000_001) // R1,R0
        .setup(&|cpu| {
            cpu.reg.r[0] = 0b10000;
            cpu.reg.r[1] = 0b01111;
        })
        .assert_r(0, 0b10000)
        .assert_r(1, 0b01111)
        .assert_zero()
        .run();

    InstrTest::new_thumb(0b010000_1000_000_001) // R1,R0
        .setup(&|cpu| {
            cpu.reg.r[0] = 1;
            cpu.reg.r[1] = 1;
        })
        .assert_r(0, 1)
        .assert_r(1, 1)
        .run();

    InstrTest::new_thumb(0b010000_1000_000_001) // R1,R0
        .setup(&|cpu| {
            cpu.reg.r[0] = 1 << 31;
            cpu.reg.r[1] = u32::MAX;
        })
        .assert_r(0, 1 << 31)
        .assert_r(1, u32::MAX)
        .assert_negative()
        .run();

    // NEG{S} Rd,Rs
    InstrTest::new_thumb(0b010000_1001_011_111) // R7,R3
        .setup(&|cpu| cpu.reg.r[3] = 30)
        .assert_r(3, 30)
        .assert_r(7, -30 as _)
        .assert_negative()
        .run();

    InstrTest::new_thumb(0b010000_1001_011_111) // R7,R3
        .setup(&|cpu| cpu.reg.r[3] = 0)
        .assert_zero()
        .assert_carry()
        .run();

    InstrTest::new_thumb(0b010000_1001_011_111) // R7,R3
        .setup(&|cpu| cpu.reg.r[3] = -10 as _)
        .assert_r(3, -10 as _)
        .assert_r(7, 10)
        .run();

    // negating i32::MIN isn't possible, and it should also set the overflow flag
    InstrTest::new_thumb(0b010000_1001_011_111) // R7,R3
        .setup(&|cpu| cpu.reg.r[3] = i32::MIN as _)
        .assert_r(3, i32::MIN as _)
        .assert_r(7, i32::MIN as _)
        .assert_negative()
        .assert_overflow()
        .run();

    // CMP Rd,Rs
    InstrTest::new_thumb(0b010000_1010_011_100) // R4,R3
        .setup(&|cpu| {
            cpu.reg.r[3] = 30;
            cpu.reg.r[4] = 30;
        })
        .assert_r(3, 30)
        .assert_r(4, 30)
        .assert_zero()
        .assert_carry()
        .run();

    InstrTest::new_thumb(0b010000_1010_011_100) // R4,R3
        .setup(&|cpu| {
            cpu.reg.r[3] = 30;
            cpu.reg.r[4] = 20;
        })
        .assert_r(3, 30)
        .assert_r(4, 20)
        .assert_negative()
        .run();

    InstrTest::new_thumb(0b010000_1010_011_100) // R4,R3
        .setup(&|cpu| {
            cpu.reg.r[3] = 20;
            cpu.reg.r[4] = 30;
        })
        .assert_r(3, 20)
        .assert_r(4, 30)
        .assert_carry()
        .run();

    // CMN Rd,Rs
    InstrTest::new_thumb(0b010000_1011_011_100) // R4,R3
        .setup(&|cpu| {
            cpu.reg.r[3] = -30 as _;
            cpu.reg.r[4] = 30;
        })
        .assert_r(3, -30 as _)
        .assert_r(4, 30)
        .assert_zero()
        .assert_carry()
        .run();

    InstrTest::new_thumb(0b010000_1011_011_100) // R4,R3
        .setup(&|cpu| {
            cpu.reg.r[3] = -30 as _;
            cpu.reg.r[4] = 20;
        })
        .assert_r(3, -30 as _)
        .assert_r(4, 20)
        .assert_negative()
        .run();

    InstrTest::new_thumb(0b010000_1011_011_100) // R4,R3
        .setup(&|cpu| {
            cpu.reg.r[3] = -20 as _;
            cpu.reg.r[4] = 30;
        })
        .assert_r(3, -20 as _)
        .assert_r(4, 30)
        .assert_carry()
        .run();

    // ORR{S} Rd,Rs
    InstrTest::new_thumb(0b010000_1100_101_000) // R0,R5
        .setup(&|cpu| {
            cpu.reg.r[5] = 0b1010;
            cpu.reg.r[0] = 0b0101;
        })
        .assert_r(0, 0b1111)
        .assert_r(5, 0b1010)
        .run();

    InstrTest::new_thumb(0b010000_1100_101_000) // R0,R5
        .assert_zero()
        .run();

    InstrTest::new_thumb(0b010000_1100_100_100) // R4,R4
        .setup(&|cpu| cpu.reg.r[4] = u32::MAX)
        .assert_r(4, u32::MAX)
        .assert_negative()
        .run();

    // MUL{S} Rd,Rs
    InstrTest::new_thumb(0b010000_1101_001_000) // R0,R1
        .setup(&|cpu| {
            cpu.reg.r[0] = 11;
            cpu.reg.r[1] = 3;
        })
        .assert_r(0, 33)
        .assert_r(1, 3)
        .run();

    InstrTest::new_thumb(0b010000_1101_001_000) // R0,R1
        .setup(&|cpu| {
            cpu.reg.r[0] = 0;
            cpu.reg.r[1] = 5;
        })
        .assert_r(1, 5)
        .assert_zero()
        .run();

    InstrTest::new_thumb(0b010000_1101_001_000) // R0,R1
        .setup(&|cpu| {
            cpu.reg.r[0] = -8 as _;
            cpu.reg.r[1] = 14;
        })
        .assert_r(0, -112 as _)
        .assert_r(1, 14)
        .assert_negative()
        .run();

    InstrTest::new_thumb(0b010000_1101_001_000) // R0,R1
        .setup(&|cpu| {
            cpu.reg.r[0] = -4 as _;
            cpu.reg.r[1] = -4 as _;
        })
        .assert_r(0, 16)
        .assert_r(1, -4 as _)
        .run();

    // BIC{S} Rd,Rs
    InstrTest::new_thumb(0b010000_1110_001_000) // R0,R1
        .setup(&|cpu| {
            cpu.reg.r[0] = 0b11111;
            cpu.reg.r[1] = 0b10101;
        })
        .assert_r(0, 0b01010)
        .assert_r(1, 0b10101)
        .run();

    InstrTest::new_thumb(0b010000_1110_001_000) // R0,R1
        .setup(&|cpu| {
            cpu.reg.r[0] = u32::MAX;
            cpu.reg.r[1] = u32::MAX;
        })
        .assert_r(1, u32::MAX)
        .assert_zero()
        .run();

    InstrTest::new_thumb(0b010000_1110_001_000) // R0,R1
        .setup(&|cpu| {
            cpu.reg.r[0] = u32::MAX;
            cpu.reg.r[1] = u32::MAX >> 1;
        })
        .assert_r(0, 1 << 31)
        .assert_r(1, u32::MAX >> 1)
        .assert_negative()
        .run();

    // MVN{S} Rd,Rs
    InstrTest::new_thumb(0b010000_1111_000_000) // R0,R0
        .setup(&|cpu| cpu.reg.r[0] = u32::MAX)
        .assert_zero()
        .run();

    InstrTest::new_thumb(0b010000_1111_011_000) // R0,R3
        .setup(&|cpu| cpu.reg.r[3] = 0b1111_0000)
        .assert_r(0, !0b1111_0000)
        .assert_r(3, 0b1111_0000)
        .assert_negative()
        .run();
}

#[test]
fn execute_thumb5() {
    // ADD Rd,Rs
    InstrTest::new_thumb(0b010001_00_1_0_001_101) // R13,R1
        .setup(&|cpu| {
            cpu.reg.r[13] = 20;
            cpu.reg.r[1] = 15;
        })
        .assert_r(1, 15)
        .assert_r(13, 35)
        .run();

    InstrTest::new_thumb(0b010001_00_1_1_110_000) // R8,R14
        .setup(&|cpu| {
            cpu.reg.r[8] = 5;
            cpu.reg.r[14] = -10 as _;
        })
        .assert_r(8, -5 as _)
        .assert_r(14, -10 as _)
        .run();

    InstrTest::new_thumb(0b010001_00_1_1_010_111) // PC,R10
        .setup(&|cpu| {
            cpu.reg.r[PC_INDEX] = 1;
            cpu.reg.r[10] = 10;
        })
        .assert_r(10, 10)
        .assert_r(PC_INDEX, 14)
        .run();

    InstrTest::new_thumb(0b010001_00_1_1_010_111) // PC,R10
        .setup(&|cpu| {
            cpu.reg.r[PC_INDEX] = 0;
            cpu.reg.r[10] = 10;
        })
        .assert_r(10, 10)
        .assert_r(PC_INDEX, 14)
        .run();

    // CMP Rd,Rs
    InstrTest::new_thumb(0b010001_01_1_0_001_101) // R13,R1
        .setup(&|cpu| {
            cpu.reg.r[13] = 20;
            cpu.reg.r[1] = 15;
        })
        .assert_r(1, 15)
        .assert_r(13, 20)
        .assert_carry()
        .run();

    InstrTest::new_thumb(0b010001_01_0_1_101_001) // R1,R13
        .setup(&|cpu| {
            cpu.reg.r[13] = 20;
            cpu.reg.r[1] = 15;
        })
        .assert_r(1, 15)
        .assert_r(13, 20)
        .assert_negative()
        .run();

    InstrTest::new_thumb(0b010001_01_1_1_010_111) // PC,R10
        .setup(&|cpu| {
            cpu.reg.r[PC_INDEX] = 10;
            cpu.reg.r[10] = 10;
        })
        .assert_r(10, 10)
        .assert_r(PC_INDEX, 10)
        .assert_zero()
        .assert_carry()
        .run();

    // MOV Rd,Rs
    InstrTest::new_thumb(0b010001_10_1_0_001_101) // R13,R1
        .setup(&|cpu| cpu.reg.r[1] = 15)
        .assert_r(1, 15)
        .assert_r(13, 15)
        .run();

    InstrTest::new_thumb(0b010001_10_1_1_001_001) // R8,R8
        .setup(&|cpu| cpu.reg.r[8] = 15)
        .assert_r(8, 15)
        .run();

    // BX Rs
    let cpu = InstrTest::new_thumb(0b010001_11_1_0_001_101) // R1
        .setup(&|cpu| cpu.reg.r[1] = 0b111)
        .assert_r(1, 0b111)
        .assert_r(PC_INDEX, 0b110 + 4)
        .run();

    assert_eq!(cpu.reg.cpsr.state, OperationState::Thumb);

    let cpu = InstrTest::new_thumb(0b010001_11_0_1_101_000) // R13
        .setup(&|cpu| cpu.reg.r[13] = 0b110)
        .assert_r(13, 0b110)
        .assert_r(PC_INDEX, 0b100 + 8)
        .run();

    assert_eq!(cpu.reg.cpsr.state, OperationState::Arm);
}

#[test]
fn execute_thumb6() {
    let mut bus = VecBus(vec![0; 88]);
    bus.write_word(52, 0xdead_beef);
    bus.write_word(84, 0xbead_feed);

    // LDR Rd,[PC,#nn]
    InstrTest::new_thumb(0b01001_101_00001100) // R5,[PC,#48]
        .assert_r(5, 0xdead_beef)
        .run_with_bus(&mut bus);

    InstrTest::new_thumb(0b01001_000_00010000) // R0,[PC,#64]
        .setup(&|cpu| cpu.reg.r[PC_INDEX] = 20)
        .assert_r(0, 0xbead_feed)
        .assert_r(PC_INDEX, 20)
        .run_with_bus(&mut bus);
}

#[test]
fn execute_thumb7() {
    let mut bus = VecBus(vec![0; 88]);

    // STR Rd,[Rb,Ro]
    InstrTest::new_thumb(0b0101_00_0_010_001_000) // R0,[R1,R2]
        .setup(&|cpu| {
            cpu.reg.r[0] = 0xabcd_ef01;
            cpu.reg.r[1] = 10;
            cpu.reg.r[2] = 5;
        })
        .assert_r(0, 0xabcd_ef01)
        .assert_r(1, 10)
        .assert_r(2, 5)
        .run_with_bus(&mut bus);

    assert_eq!(0xabcd_ef01, bus.read_word(12));

    InstrTest::new_thumb(0b0101_00_0_010_001_000) // R0,[R1,R2]
        .setup(&|cpu| {
            cpu.reg.r[0] = 0x0102_abbc;
            cpu.reg.r[1] = 12;
            cpu.reg.r[2] = 4;
        })
        .assert_r(0, 0x0102_abbc)
        .assert_r(1, 12)
        .assert_r(2, 4)
        .run_with_bus(&mut bus);

    assert_eq!(0x0102_abbc, bus.read_word(16));

    // STRB Rd,[Rb,Ro]
    InstrTest::new_thumb(0b0101_01_0_010_001_000) // R0,[R1,R2]
        .setup(&|cpu| {
            cpu.reg.r[0] = 0xabab;
            cpu.reg.r[1] = 10;
            cpu.reg.r[2] = 9;
        })
        .assert_r(0, 0xabab)
        .assert_r(1, 10)
        .assert_r(2, 9)
        .run_with_bus(&mut bus);

    assert_eq!(0xab, bus.read_byte(19));
    assert_eq!(0, bus.read_byte(20));

    // LDR Rd,[Rb,Ro]
    InstrTest::new_thumb(0b0101_10_0_010_001_000) // R0,[R1,R2]
        .setup(&|cpu| {
            cpu.reg.r[1] = 7;
            cpu.reg.r[2] = 8;
        })
        .assert_r(0, 0xcdef_01ab)
        .assert_r(1, 7)
        .assert_r(2, 8)
        .run_with_bus(&mut bus);

    // LDRB Rd,[Rb,Ro]
    InstrTest::new_thumb(0b0101_11_0_110_001_000) // R0,[R1,R6]
        .setup(&|cpu| {
            cpu.reg.r[1] = 2;
            cpu.reg.r[6] = 17;
        })
        .assert_r(0, 0xab)
        .assert_r(1, 2)
        .assert_r(6, 17)
        .run_with_bus(&mut bus);
}

#[test]
fn execute_thumb8() {
    let mut bus = VecBus(vec![0; 22]);
    bus.write_byte(0, 0b0111_1110);
    bus.write_byte(18, 1 << 7);
    bus.write_byte(21, !1);

    // STRH Rd,[Rb,Ro]
    InstrTest::new_thumb(0b0101_00_1_010_001_000) // R0,[R1,R2]
        .setup(&|cpu| {
            cpu.reg.r[0] = 0xabcd_ef01;
            cpu.reg.r[1] = 10;
            cpu.reg.r[2] = 5;
        })
        .assert_r(0, 0xabcd_ef01)
        .assert_r(1, 10)
        .assert_r(2, 5)
        .run_with_bus(&mut bus);

    assert_eq!(0xef01, bus.read_hword(14));
    assert_eq!(0, bus.read_hword(16));

    // LDSB Rd,[Rb,Ro]
    InstrTest::new_thumb(0b0101_01_1_010_001_000) // R0,[R1,R2]
        .setup(&|cpu| {
            cpu.reg.r[1] = 20;
            cpu.reg.r[2] = 1;
        })
        .assert_r(0, i32::from(!1i8) as _)
        .assert_r(1, 20)
        .assert_r(2, 1)
        .run_with_bus(&mut bus);

    InstrTest::new_thumb(0b0101_01_1_010_001_000) // R0,[R1,R2]
        .assert_r(0, 0b0111_1110)
        .run_with_bus(&mut bus);

    // LDRH Rd,[Rb,Ro]
    InstrTest::new_thumb(0b0101_10_1_010_001_000) // R0,[R1,R2]
        .setup(&|cpu| {
            cpu.reg.r[1] = 13;
            cpu.reg.r[2] = 1;
        })
        .assert_r(0, 0xef01)
        .assert_r(1, 13)
        .assert_r(2, 1)
        .run_with_bus(&mut bus);

    // LDSH Rd,[Rb,Ro]
    InstrTest::new_thumb(0b0101_11_1_010_001_000) // R0,[R1,R2]
        .setup(&|cpu| {
            cpu.reg.r[1] = 2;
            cpu.reg.r[2] = 17;
        })
        .assert_r(0, 1 << 7)
        .assert_r(1, 2)
        .assert_r(2, 17)
        .run_with_bus(&mut bus);
}

#[test]
fn execute_thumb9() {
    let mut bus = VecBus(vec![0; 40]);

    // STR Rd,[Rb,#nn]
    InstrTest::new_thumb(0b011_00_00110_001_000) // R0,[R1,#24]
        .setup(&|cpu| {
            cpu.reg.r[0] = 0xabcd_ef01;
            cpu.reg.r[1] = 10;
        })
        .assert_r(0, 0xabcd_ef01)
        .assert_r(1, 10)
        .run_with_bus(&mut bus);

    assert_eq!(0xabcd_ef01, bus.read_word(32));

    // LDR Rd,[Rb,#nn]
    InstrTest::new_thumb(0b011_01_00110_001_000) // R0,[R1,#24]
        .setup(&|cpu| cpu.reg.r[1] = 8)
        .assert_r(0, 0xabcd_ef01)
        .assert_r(1, 8)
        .run_with_bus(&mut bus);

    // STRB Rd,[Rb,#nn]
    InstrTest::new_thumb(0b011_10_00110_001_000) // R0,[R1,#6]
        .setup(&|cpu| {
            cpu.reg.r[0] = 0xabcd_ef01;
            cpu.reg.r[1] = 10;
        })
        .assert_r(0, 0xabcd_ef01)
        .assert_r(1, 10)
        .run_with_bus(&mut bus);

    assert_eq!(0x01, bus.read_byte(16));

    // LDRB Rd,[Rb,#nn]
    InstrTest::new_thumb(0b011_11_00110_001_000) // R0,[R1,#6]
        .setup(&|cpu| cpu.reg.r[1] = 10)
        .assert_r(0, 0x01)
        .assert_r(1, 10)
        .run_with_bus(&mut bus);
}

#[test]
fn execute_thumb10() {
    let mut bus = VecBus(vec![0; 40]);

    // STRH Rd,[Rb,#nn]
    InstrTest::new_thumb(0b1000_0_00101_001_000) // R0,[R1,#10]
        .setup(&|cpu| {
            cpu.reg.r[0] = 0xabcd_ef01;
            cpu.reg.r[1] = 10;
        })
        .assert_r(0, 0xabcd_ef01)
        .assert_r(1, 10)
        .run_with_bus(&mut bus);

    assert_eq!(0xef01, bus.read_hword(20));

    // LDRH Rd,[Rb,#nn]
    InstrTest::new_thumb(0b1000_1_00110_001_000) // R0,[R1,#12]
        .setup(&|cpu| cpu.reg.r[1] = 9)
        .assert_r(0, 0xef01)
        .assert_r(1, 9)
        .run_with_bus(&mut bus);
}

#[test]
fn execute_thumb11() {
    let mut bus = VecBus(vec![0; 40]);

    // STR Rd,[SP,#nn]
    InstrTest::new_thumb(0b1001_0_000_00000010) // R0,[SP,#8]
        .setup(&|cpu| {
            cpu.reg.r[SP_INDEX] = 8;
            cpu.reg.r[0] = 0xabcd_ef01;
        })
        .assert_r(0, 0xabcd_ef01)
        .assert_r(SP_INDEX, 8)
        .run_with_bus(&mut bus);

    assert_eq!(0xabcd_ef01, bus.read_word(16));

    // LDR Rd,[SP,#nn]
    InstrTest::new_thumb(0b1001_1_000_00000100) // R0,[SP,#16]
        .setup(&|cpu| cpu.reg.r[SP_INDEX] = 1)
        .assert_r(0, 0x01ab_cdef)
        .assert_r(SP_INDEX, 1)
        .run_with_bus(&mut bus);
}

#[test]
fn execute_thumb12() {
    // ADD Rd,[PC,#nn]
    InstrTest::new_thumb(0b1010_0_000_11001000) // R0,[PC,#200]
        .setup(&|cpu| cpu.reg.r[PC_INDEX] = 20)
        .assert_r(0, 220)
        .assert_r(PC_INDEX, 20)
        .run();

    InstrTest::new_thumb(0b1010_0_000_00000000) // R0,[PC,#0]
        .setup(&|cpu| cpu.reg.r[PC_INDEX] = 0)
        .assert_r(PC_INDEX, 0)
        .run();

    // ADD Rd,[SP,#nn]
    InstrTest::new_thumb(0b1010_1_000_11001000) // R0,[SP,#200]
        .setup(&|cpu| cpu.reg.r[SP_INDEX] = 40)
        .assert_r(0, 240)
        .assert_r(SP_INDEX, 40)
        .run();

    InstrTest::new_thumb(0b1010_1_000_00000000) // R0,[SP,#0]
        .run();
}

#[test]
fn execute_thumb13() {
    // ADD SP,#nn
    InstrTest::new_thumb(0b10110000_0_0110010) // SP,#200
        .setup(&|cpu| cpu.reg.r[SP_INDEX] = 1)
        .assert_r(SP_INDEX, 201)
        .run();

    InstrTest::new_thumb(0b10110000_0_0000000) // SP,#0
        .run();

    // SUB SP,#nn
    InstrTest::new_thumb(0b10110000_1_0110010) // SP,#200
        .setup(&|cpu| cpu.reg.r[SP_INDEX] = 200)
        .run();

    InstrTest::new_thumb(0b10110000_1_0110010) // SP,#200
        .setup(&|cpu| cpu.reg.r[SP_INDEX] = 50)
        .assert_r(SP_INDEX, u32::MAX - 149)
        .run();
}

#[test]
fn execute_thumb14() {
    let mut bus = VecBus(vec![0; 40]);

    // PUSH {Rlist}{LR}
    InstrTest::new_thumb(0b1011_0_10_0_10001001) // {R0,R3,R7}
        .setup(&|cpu| {
            cpu.reg.r[SP_INDEX] = 41; // Mis-aligned SP.
            cpu.reg.r[0] = 0xabcd;
            cpu.reg.r[3] = 0xfefe_0001;
            cpu.reg.r[7] = 42;
        })
        .assert_r(0, 0xabcd)
        .assert_r(3, 0xfefe_0001)
        .assert_r(7, 42)
        .assert_r(SP_INDEX, 29)
        .run_with_bus(&mut bus);

    assert_eq!(42, bus.read_word(36));
    assert_eq!(0xfefe_0001, bus.read_word(32));
    assert_eq!(0xabcd, bus.read_word(28));

    InstrTest::new_thumb(0b1011_0_10_1_00000010) // {R1,LR}
        .setup(&|cpu| {
            cpu.reg.r[SP_INDEX] = 28;
            cpu.reg.r[1] = 0b1010;
            cpu.reg.r[LR_INDEX] = 40;
        })
        .assert_r(1, 0b1010)
        .assert_r(SP_INDEX, 20)
        .assert_r(LR_INDEX, 40)
        .run_with_bus(&mut bus);

    assert_eq!(40, bus.read_word(24));
    assert_eq!(0b1010, bus.read_word(20));

    // POP {Rlist}{PC}
    InstrTest::new_thumb(0b1011_1_10_1_00000001) // {R1,PC}
        .setup(&|cpu| cpu.reg.r[SP_INDEX] = 20)
        .assert_r(0, 0b1010)
        .assert_r(SP_INDEX, 28)
        .assert_r(PC_INDEX, 44)
        .run_with_bus(&mut bus);

    InstrTest::new_thumb(0b1011_1_10_0_10001001) // {R0,R3,R7}
        .setup(&|cpu| cpu.reg.r[SP_INDEX] = 31) // Mis-aligned SP.
        .assert_r(0, 0xabcd)
        .assert_r(3, 0xfefe_0001)
        .assert_r(7, 42)
        .assert_r(SP_INDEX, 43)
        .run_with_bus(&mut bus);
}

#[test]
fn execute_thumb15() {
    let mut bus = VecBus(vec![0; 40]);

    // STMIA Rb!,{Rlist}
    InstrTest::new_thumb(0b1100_0_101_10001001) // R5!,{R0,R3,R7}
        .setup(&|cpu| {
            cpu.reg.r[0] = 0xabcd;
            cpu.reg.r[3] = 0xfefe_0001;
            cpu.reg.r[5] = 20;
            cpu.reg.r[7] = 42;
        })
        .assert_r(0, 0xabcd)
        .assert_r(3, 0xfefe_0001)
        .assert_r(5, 32)
        .assert_r(7, 42)
        .run_with_bus(&mut bus);

    assert_eq!(0xabcd, bus.read_word(20));
    assert_eq!(0xfefe_0001, bus.read_word(24));
    assert_eq!(42, bus.read_word(28));

    InstrTest::new_thumb(0b1100_0_101_00000001) // R5!,{R0}
        .setup(&|cpu| {
            cpu.reg.r[0] = 0xbeef_fefe;
            cpu.reg.r[5] = 11; // Mis-aligned Rb.
        })
        .assert_r(0, 0xbeef_fefe)
        .assert_r(5, 15)
        .run_with_bus(&mut bus);

    assert_eq!(0xbeef_fefe, bus.read_word(8));

    // LDMIA Rb!,{Rlist}
    InstrTest::new_thumb(0b1100_1_101_10001001) // R5!,{R0,R3,R7}
        .setup(&|cpu| cpu.reg.r[5] = 20)
        .assert_r(0, 0xabcd)
        .assert_r(3, 0xfefe_0001)
        .assert_r(5, 32)
        .assert_r(7, 42)
        .run_with_bus(&mut bus);

    InstrTest::new_thumb(0b1100_1_101_00000001) // R5!,{R0}
        .setup(&|cpu| cpu.reg.r[5] = 11) // Mis-aligned Rb.
        .assert_r(0, 0xbeef_fefe)
        .assert_r(5, 15)
        .run_with_bus(&mut bus);
}

#[test]
fn execute_thumb16() {
    // BEQ label
    InstrTest::new_thumb(0b1101_0000_00010100) // #40
        .setup(&|cpu| cpu.reg.cpsr.zero = true)
        .assert_r(PC_INDEX, 4 + 40 + 4)
        .assert_zero()
        .run();

    InstrTest::new_thumb(0b1101_0000_00010100) // #40
        .run();

    // BNE label
    InstrTest::new_thumb(0b1101_0001_11101100) // #(-40)
        .assert_r(PC_INDEX, 4u32.wrapping_sub(40) + 4)
        .run();

    InstrTest::new_thumb(0b1101_0001_11101100) // #(-40)
        .setup(&|cpu| cpu.reg.cpsr.zero = true)
        .assert_zero()
        .run();

    // BCS/BHS label
    InstrTest::new_thumb(0b1101_0010_01111111) // #254
        .setup(&|cpu| cpu.reg.cpsr.carry = true)
        .assert_r(PC_INDEX, 4u32.wrapping_add(254) + 4)
        .assert_carry()
        .run();

    InstrTest::new_thumb(0b1101_0010_01111111) // #254
        .run();

    // BCC/BLO label
    InstrTest::new_thumb(0b1101_0011_10000000) // #(-256)
        .assert_r(PC_INDEX, 4u32.wrapping_sub(256) + 4)
        .run();

    InstrTest::new_thumb(0b1101_0011_10000000) // #(-256)
        .setup(&|cpu| cpu.reg.cpsr.carry = true)
        .assert_carry()
        .run();

    // BMI label
    InstrTest::new_thumb(0b1101_0100_00000000) // #0
        .setup(&|cpu| cpu.reg.cpsr.signed = true)
        .assert_r(PC_INDEX, 4 + 4)
        .assert_negative()
        .run();

    InstrTest::new_thumb(0b1101_0100_00000000) // #0
        .run();

    // BPL label
    InstrTest::new_thumb(0b1101_0101_00000010) // #4
        .assert_r(PC_INDEX, 4 + 4 + 4)
        .run();

    InstrTest::new_thumb(0b1101_0101_00000010) // #4
        .setup(&|cpu| cpu.reg.cpsr.signed = true)
        .assert_negative()
        .run();

    // BVS label
    InstrTest::new_thumb(0b1101_0110_11111101) // #(-6)
        .setup(&|cpu| cpu.reg.cpsr.overflow = true)
        .assert_r(PC_INDEX, 4u32.wrapping_sub(6).wrapping_add(4))
        .assert_overflow()
        .run();

    InstrTest::new_thumb(0b1101_0110_11111101) // #(-6)
        .run();

    // BVC label
    InstrTest::new_thumb(0b1101_0111_00000011) // #6
        .assert_r(PC_INDEX, 4 + 6 + 4)
        .run();

    InstrTest::new_thumb(0b1101_0111_00000011) // #6
        .setup(&|cpu| cpu.reg.cpsr.overflow = true)
        .assert_overflow()
        .run();

    // BHI label
    InstrTest::new_thumb(0b1101_1000_11111101) // #(-6)
        .setup(&|cpu| cpu.reg.cpsr.carry = true)
        .assert_r(PC_INDEX, 4u32.wrapping_sub(6).wrapping_add(4))
        .assert_carry()
        .run();

    InstrTest::new_thumb(0b1101_1000_11111101) // #(-6)
        .setup(&|cpu| {
            cpu.reg.cpsr.carry = true;
            cpu.reg.cpsr.zero = true;
        })
        .assert_carry()
        .assert_zero()
        .run();

    InstrTest::new_thumb(0b1101_1000_11111101) // #(-6)
        .run();

    // BLS label
    InstrTest::new_thumb(0b1101_1001_11111101) // #(-6)
        .setup(&|cpu| cpu.reg.cpsr.carry = true)
        .assert_carry()
        .run();

    InstrTest::new_thumb(0b1101_1001_11111101) // #(-6)
        .setup(&|cpu| {
            cpu.reg.cpsr.carry = true;
            cpu.reg.cpsr.zero = true;
        })
        .assert_r(PC_INDEX, 4u32.wrapping_sub(6).wrapping_add(4))
        .assert_carry()
        .assert_zero()
        .run();

    InstrTest::new_thumb(0b1101_1001_11111101) // #(-6)
        .assert_r(PC_INDEX, 4u32.wrapping_sub(6).wrapping_add(4))
        .run();

    // BGE label
    InstrTest::new_thumb(0b1101_1010_00000011) // #6
        .setup(&|cpu| {
            cpu.reg.cpsr.signed = true;
            cpu.reg.cpsr.overflow = true;
        })
        .assert_r(PC_INDEX, 4 + 6 + 4)
        .assert_negative()
        .assert_overflow()
        .run();

    InstrTest::new_thumb(0b1101_1010_00000011) // #6
        .assert_r(PC_INDEX, 4 + 6 + 4)
        .run();

    InstrTest::new_thumb(0b1101_1010_00000011) // #6
        .setup(&|cpu| cpu.reg.cpsr.overflow = true)
        .assert_overflow()
        .run();

    // BLT label
    InstrTest::new_thumb(0b1101_1011_00000011) // #6
        .setup(&|cpu| {
            cpu.reg.cpsr.signed = true;
            cpu.reg.cpsr.overflow = true;
        })
        .assert_negative()
        .assert_overflow()
        .run();

    InstrTest::new_thumb(0b1101_1011_00000011) // #6
        .run();

    InstrTest::new_thumb(0b1101_1011_00000011) // #6
        .setup(&|cpu| cpu.reg.cpsr.signed = true)
        .assert_r(PC_INDEX, 4 + 6 + 4)
        .assert_negative()
        .run();

    // BGT label
    InstrTest::new_thumb(0b1101_1100_00000011) // #6
        .setup(&|cpu| {
            cpu.reg.cpsr.signed = true;
            cpu.reg.cpsr.overflow = true;
        })
        .assert_r(PC_INDEX, 4 + 6 + 4)
        .assert_negative()
        .assert_overflow()
        .run();

    InstrTest::new_thumb(0b1101_1100_00000011) // #6
        .setup(&|cpu| cpu.reg.cpsr.zero = true)
        .assert_zero()
        .run();

    InstrTest::new_thumb(0b1101_1100_00000011) // #6
        .assert_r(PC_INDEX, 4 + 6 + 4)
        .run();

    // BLE label
    InstrTest::new_thumb(0b1101_1101_00000011) // #6
        .setup(&|cpu| {
            cpu.reg.cpsr.signed = true;
            cpu.reg.cpsr.overflow = true;
        })
        .assert_negative()
        .assert_overflow()
        .run();

    InstrTest::new_thumb(0b1101_1101_00000011) // #6
        .setup(&|cpu| cpu.reg.cpsr.zero = true)
        .assert_r(PC_INDEX, 4 + 6 + 4)
        .assert_zero()
        .run();

    InstrTest::new_thumb(0b1101_1101_00000011) // #6
        .run();
}

#[test]
fn execute_thumb17() {
    // SWI nn
    InstrTest::new_thumb(0b11011111_10101010)
        .setup(&|cpu| cpu.reg.r[PC_INDEX] = 200)
        .assert_r(LR_INDEX, 198)
        .assert_r(PC_INDEX, 0x08 + 8)
        .assert_irq_disabled()
        .run();
}

#[test]
fn execute_thumb18() {
    // B label
    InstrTest::new_thumb(0b11100_00000010100) // #40
        .setup(&|cpu| cpu.reg.cpsr.zero = true)
        .assert_r(PC_INDEX, 4 + 40 + 4)
        .assert_zero()
        .run();

    InstrTest::new_thumb(0b11100_11111111111) // #(-2)
        .assert_r(PC_INDEX, 4 - 2 + 4)
        .run();

    InstrTest::new_thumb(0b11100_01111111111) // #2046
        .setup(&|cpu| {
            cpu.reg.cpsr.signed = true;
            cpu.reg.cpsr.zero = true;
            cpu.reg.cpsr.carry = true;
            cpu.reg.cpsr.overflow = true;
        })
        .assert_r(PC_INDEX, 4 + 2046 + 4)
        .assert_negative()
        .assert_zero()
        .assert_carry()
        .assert_overflow()
        .run();
}

#[test]
fn execute_thumb19() {
    // BL label
    InstrTest::new_thumb(0b11110_00000010100) // #14000h (hi part)
        .assert_r(LR_INDEX, 0x14000 + 4)
        .run();

    InstrTest::new_thumb(0b11111_11111111111) // #FFEh (lo part)
        .setup(&|cpu| cpu.reg.r[LR_INDEX] = 0x14004)
        .assert_r(LR_INDEX, 3)
        .assert_r(PC_INDEX, 0x14004 + 0xffe + 4)
        .run();
}

#[test]
fn execute_undefined_instr() {
    InstrTest::new_thumb(0b11101_01010101010)
        .setup(&|cpu| cpu.reg.r[PC_INDEX] = 200)
        .assert_r(LR_INDEX, 198)
        .assert_r(PC_INDEX, 0x04 + 8)
        .assert_irq_disabled()
        .run();
}


#[test]
fn thumb_lsl_immediate_scenario() {
    // LSL R4,R1,#3 encodes as 0x00cc (0x000c would shift by 0)
    let cpu = InstrTest::new_thumb(0x00cc)
        .setup(&|cpu| cpu.reg.r[1] = 0b10)
        .assert_r(1, 0b10)
        .assert_r(4, 0b10_000)
        .run();
    assert!(!cpu.reg.cpsr.carry && !cpu.reg.cpsr.zero);
}

#[test]
fn thumb_add_register_wraparound_scenario() {
    // ADD R0,R6,R7 encodes as 0x19f0 (0x19b0 would add R6 to itself)
    let cpu = InstrTest::new_thumb(0x19f0)
        .setup(&|cpu| {
            cpu.reg.r[6] = 0xffff_ffff;
            cpu.reg.r[7] = 1;
        })
        .assert_r(6, 0xffff_ffff)
        .assert_r(7, 1)
        .assert_zero()
        .assert_carry()
        .run();
    assert_eq!(0, cpu.reg.r[0]);
    assert!(!cpu.reg.cpsr.overflow);
}

#[test]
fn thumb_swi_round_trip_scenario() {
    let mut cpu = thumb_cpu();
    cpu.reg.r[PC_INDEX] = 0x2000;
    let before = cpu.reg.cpsr;
    let mut bus = VecBus(vec![]);
    cpu.execute_thumb(&mut bus, 0xdf42);
    assert_eq!(OperationMode::Supervisor, cpu.reg.cpsr.mode);
    assert_eq!(OperationState::Arm, cpu.reg.cpsr.state);
    assert!(cpu.reg.cpsr.irq_disabled);
    assert_eq!(0x2000 - 2, cpu.reg.r[LR_INDEX]);
    assert_eq!(0x10, cpu.reg.r[PC_INDEX]);
    assert_eq!(before, cpu.reg.spsr);
}

#[test]
fn undefined_instr_enters_undefined_mode() {
    let mut cpu = thumb_cpu();
    cpu.reg.r[PC_INDEX] = 200;
    cpu.reg.r[SP_INDEX] = 77;
    let mut bus = VecBus(vec![]);
    cpu.execute_thumb(&mut bus, 0b11101_01010101010);
    assert_eq!(OperationMode::UndefinedInstr, cpu.reg.cpsr.mode);
    assert_eq!(0, cpu.reg.r[SP_INDEX]);
    assert_eq!(77, cpu.reg.banks[3].sp);
    assert_eq!(198, cpu.reg.r[LR_INDEX]);
}

#[test]
fn step_fetches_and_advances_thumb() {
    // MOV R0,#7 at 0, then MOV R1,#9 at 2
    let mut bus = VecBus(vec![0x07, 0x20, 0x09, 0x21, 0, 0, 0, 0]);
    let mut cpu = thumb_cpu();
    cpu.step(&mut bus);
    assert_eq!(7, cpu.reg.r[0]);
    assert_eq!(6, cpu.reg.r[PC_INDEX]);
    cpu.step(&mut bus);
    assert_eq!(9, cpu.reg.r[1]);
    assert_eq!(8, cpu.reg.r[PC_INDEX]);
}

#[test]
fn arm_branch_with_link() {
    let mut cpu = Cpu::new();
    cpu.reg.r[PC_INDEX] = 0x100;
    let mut bus = VecBus(vec![]);
    // BL +0x40 (offset field 0x10), condition always
    cpu.execute_arm(&mut bus, 0xeb00_0010);
    assert_eq!(0x100 - 4, cpu.reg.r[LR_INDEX]);
    assert_eq!(0x140 + 8, cpu.reg.r[PC_INDEX]);
    // BX R0 with bit 0 set enters Thumb state
    cpu.reg.r[0] = 0x201;
    cpu.execute_arm(&mut bus, 0xe12f_ff10);
    assert_eq!(OperationState::Thumb, cpu.reg.cpsr.state);
    assert_eq!(0x204, cpu.reg.r[PC_INDEX]);
}

#[test]
fn arm_condition_failing_does_nothing() {
    let mut cpu = Cpu::new();
    cpu.reg.r[PC_INDEX] = 0x100;
    let mut bus = VecBus(vec![]);
    // BEQ with Z clear
    cpu.execute_arm(&mut bus, 0x0a00_0010);
    assert_eq!(0x100, cpu.reg.r[PC_INDEX]);
}

#[test]
fn pc_relative_load_ignores_pc_bit_1() {
    let mut bus = VecBus(vec![0; 16]);
    bus.write_word(8, 0x1234_5678);
    // LDR R0,[PC,#4] with PC = 6 reads the word at 4 + 4
    InstrTest::new_thumb(0b01001_000_00000001)
        .setup(&|cpu| cpu.reg.r[PC_INDEX] = 6)
        .assert_r(PC_INDEX, 6)
        .assert_r(0, 0x1234_5678)
        .run_with_bus(&mut bus);
}
