use memetendo::bus::{read_hword, read_word, Bus as _};
use memetendo::cpu::Cpu;
use memetendo::dma::{ChannelState, Dma, Event};
use memetendo::gba::{Gba, HaltControl, State};
use memetendo::irq::{Interrupt, Irq};

fn machine() -> Gba {
    Gba::new(vec![0; 0x4000], vec![])
}

#[test]
fn unmapped_write_then_read_gives_ff() {
    let mut g = machine();
    for &addr in &[0x0000_4000u32, 0x0100_0000, 0x0400_0400, 0x0f00_0000, 0xffff_ffff] {
        g.bus.write_byte(addr, 0x12);
        assert_eq!(0xff, g.bus.read_byte(addr));
    }
}

#[test]
fn palette_byte_write_fills_half_word() {
    let mut g = machine();
    g.bus.write_byte(0x0500_0011, 0xab);
    assert_eq!(0xabab, read_hword(&g.bus, 0x0500_0010));
    g.bus.write_byte(0x0600_0100, 0x5c);
    assert_eq!(0x5c5c, read_hword(&g.bus, 0x0600_0100));
}

#[test]
fn oam_and_object_vram_ignore_byte_writes() {
    let mut g = machine();
    g.bus.write_byte(0x0700_0004, 0x77);
    assert_eq!(0, read_hword(&g.bus, 0x0700_0004));
    g.bus.write_byte(0x0601_0000, 0x77);
    assert_eq!(0, read_hword(&g.bus, 0x0601_0000));
    g.bus.write_hword(0x0700_0004, 0x1234);
    assert_eq!(0x1234, read_hword(&g.bus, 0x0700_0004));
}

#[test]
fn wram_word_round_trip() {
    let mut g = machine();
    for &addr in &[0x0200_0000u32, 0x0203_fffc, 0x0300_0010, 0x0300_7ffc, 0x0304_0000] {
        g.bus.write_word(addr, 0xdead_beef);
        assert_eq!(0xdead_beef, read_word(&g.bus, addr));
    }
    // 18-bit mirror of external work RAM
    assert_eq!(0xdead_beef, read_word(&g.bus, 0x0204_0000));
}

#[test]
fn misaligned_word_load_rotates() {
    let mut g = machine();
    g.bus.write_word(0x0200_0000, 0x1122_3344);
    assert_eq!(0x4411_2233, Cpu::execute_ldr(&g.bus, 0x0200_0001));
    assert_eq!(0x3344_1122, Cpu::execute_ldr(&g.bus, 0x0200_0002));
    assert_eq!(0x1122_3344, Cpu::execute_ldr(&g.bus, 0x0200_0000));
}

fn dma3_immediate(irq: bool) -> Gba {
    let mut g = machine();
    let data = [
        0xde, 0xad, 0xbe, 0xef, 0x01, 0x02, 0x03, 0x04, 0x05, 0x06, 0x07, 0x08, 0x09, 0x0a, 0x0b,
        0x0c,
    ];
    for (i, b) in data.iter().enumerate() {
        g.bus.write_byte(0x0200_0000 + i as u32, *b);
    }
    g.bus.write_word(0x0400_00d4, 0x0200_0000);
    g.bus.write_word(0x0400_00d8, 0x0300_0000);
    g.bus.write_hword(0x0400_00dc, 4);
    let ctrl: u16 = 0x8000 | 0x0400 | if irq { 0x4000 } else { 0 };
    g.bus.write_hword(0x0400_00de, ctrl);
    for _ in 0..4 {
        g.step();
    }
    for (i, b) in data.iter().enumerate() {
        assert_eq!(*b, g.bus.read_byte(0x0300_0000 + i as u32));
    }
    assert_eq!(0, g.bus.read_byte(0x0400_00df) & 0x80);
    g
}

#[test]
fn dma3_immediate_transfer() {
    let g = dma3_immediate(false);
    assert_eq!(0, g.bus.irq.requested & (1 << 11));
    let g = dma3_immediate(true);
    assert_ne!(0, g.bus.irq.requested & (1 << 11));
}

#[test]
fn hblank_dma_moves_all_blocks() {
    let mut dma = Dma::new();
    let mut irq = Irq::new();
    // channel 0: count 8, timing 2 (hblank), enabled
    dma.write_byte(0xb8, 8);
    dma.write_byte(0xb9, 0);
    dma.write_byte(0xba, 0);
    dma.write_byte(0xbb, 0xa0);
    assert_eq!(ChannelState::Idle, dma.0[0].state);
    assert!(dma.step(&mut irq, 3).is_none());
    dma.notify(Event::HBlank);
    let t = dma.step(&mut irq, 3).expect("a transfer after hblank");
    assert_eq!(3, t.blocks);
    assert!(!t.word);
    let mut moved = t.blocks;
    for _ in 0..10 {
        dma.notify(Event::HBlank);
        if let Some(t) = dma.step(&mut irq, 3) {
            moved += t.blocks;
        }
    }
    assert_eq!(8, moved);
    assert_eq!(ChannelState::Idle, dma.0[0].state);
    assert!(!dma.0[0].enabled);
}

#[test]
fn dma_block_count_stays_within_maximum() {
    let mut dma = Dma::new();
    // channel 1: count 0xffff, vblank timing, enabled
    dma.write_byte(0xc4, 0xff);
    dma.write_byte(0xc5, 0xff);
    dma.write_byte(0xc7, 0x90);
    assert_eq!(0x4000, dma.0[1].rem_blocks);
    // channel 3: count 0 means the maximum
    dma.write_byte(0xdf, 0x90);
    assert_eq!(0x1_0000, dma.0[3].rem_blocks);
}

#[test]
fn dma_control_write_keeping_enable_changes_no_running_state() {
    let mut dma = Dma::new();
    dma.write_byte(0xb8, 5);
    dma.write_byte(0xbb, 0x90); // enable, vblank timing
    let before = dma.0[0];
    dma.write_byte(0xba, 0x60);
    dma.write_byte(0xbb, 0x92); // repeat, enable bit kept
    let after = dma.0[0];
    assert_eq!(before.src_addr, after.src_addr);
    assert_eq!(before.dst_addr, after.dst_addr);
    assert_eq!(before.rem_blocks, after.rem_blocks);
    assert_eq!(before.state, after.state);
    assert!(after.repeat);
    assert_eq!(3, after.dst_addr_ctrl);
    assert_eq!(0x9260, after.cached_dmacnt_hi_bits);
}

#[test]
fn audio_fifo_event_needs_fifo_destination() {
    let mut dma = Dma::new();
    dma.write_byte(0xc0, 0xa0);
    dma.write_byte(0xc1, 0x00);
    dma.write_byte(0xc2, 0x00);
    dma.write_byte(0xc3, 0x04);
    dma.write_byte(0xc7, 0xb0); // timing 3, enabled
    dma.notify(Event::AudioFifoB);
    assert_eq!(ChannelState::Idle, dma.0[1].state);
    dma.notify(Event::AudioFifoA);
    assert_eq!(ChannelState::Starting, dma.0[1].state);
    assert_eq!(4, dma.0[1].rem_blocks);
    let mut irq = Irq::new();
    let t = dma.step(&mut irq, 3).unwrap();
    assert!(t.word);
    assert_eq!(2, t.dst_ctrl);
}

#[test]
fn halt_control_and_irq_wake() {
    let mut h = HaltControl::new();
    h.write_byte(0x301, 0x80);
    assert_eq!(State::Stopped, h.0);
    h.write_byte(0x301, 0x00);
    assert_eq!(State::Halted, h.0);

    let mut g = machine();
    g.bus.write_byte(0x0400_0301, 0);
    assert_eq!(State::Halted, g.bus.haltcnt.0);
    g.step();
    assert_eq!(State::Halted, g.bus.haltcnt.0);
    g.bus.write_hword(0x0400_0200, 1);
    g.bus.irq.request(Interrupt::VBlank);
    g.step();
    assert_eq!(State::Running, g.bus.haltcnt.0);
    // acknowledging clears the request
    g.bus.write_hword(0x0400_0202, 1);
    assert_eq!(0, g.bus.irq.requested);
}

#[test]
fn irq_enters_interrupt_mode() {
    let mut g = machine();
    g.cpu.reg.r[15] = 0x108;
    g.bus.write_hword(0x0400_0200, 1);
    g.bus.write_hword(0x0400_0208, 1);
    g.bus.irq.request(Interrupt::VBlank);
    g.step_irq();
    assert_eq!(memetendo::reg::OperationMode::Interrupt, g.cpu.reg.cpsr.mode);
    assert_eq!(0x18 + 8, g.cpu.reg.r[15]);
    assert!(g.cpu.reg.cpsr.irq_disabled);
}

#[test]
fn reset_skipping_bios() {
    let mut g = machine();
    g.bus.iwram[0x7f00] = 9;
    g.bus.iwram[0x100] = 7;
    g.reset(true);
    assert_eq!(0x0800_0008, g.cpu.reg.r[15]);
    assert_eq!(0x0300_7f00, g.cpu.reg.r[13]);
    assert_eq!(0, g.bus.iwram[0x7f00]);
    assert_eq!(7, g.bus.iwram[0x100]);
}

#[test]
fn bios_reads_protected_after_leaving_bios() {
    let mut bios = vec![0; 0x4000];
    bios[0x10] = 0xaa;
    bios[0x20] = 0xbb;
    let mut g = Gba::new(bios, vec![]);
    g.bus.prefetch_instr(0x20);
    assert_eq!(0xaa, g.bus.read_byte(0x10));
    g.bus.prefetch_instr(0x0800_0000);
    assert_eq!(0xbb, g.bus.read_byte(0x10));
}

#[test]
fn cartridge_rom_and_mirrors() {
    let g = Gba::new(vec![0; 0x4000], vec![1, 2, 3, 4]);
    assert_eq!(3, g.bus.read_byte(0x0800_0002));
    assert_eq!(3, g.bus.read_byte(0x0a00_0002));
    assert_eq!(3, g.bus.read_byte(0x0c00_0002));
    assert_eq!(0xff, g.bus.read_byte(0x0800_0010));
}
