//! The whole machine: the memory map that the processor and the DMA
//! controller share, the halt unit, and the step that drives them.
use vstd::prelude::*;

use crate::bus::{Bus as MemBus, bytes_word};
use crate::arm::cpu_stepped;
use crate::cpu::{Cpu, Exception, exception_entered};
use crate::dma::{
    Channel, ChannelState, Dma, Event, Transfer, audio_fifo, chan_byte, chan_started, chan_written,
    dma_stepped, event_starts, run_transfer, transfer_run,
};
use crate::irq::{Irq, irq_byte, irq_pending, irq_written};

verus! {

/// The power state of the processor.
#[derive(Copy, Clone, PartialEq, Eq, Structural, Debug)]
pub enum State {
    Running,
    Halted,
    Stopped,
}

/// The halt unit, written through HALTCNT.
#[derive(Copy, Clone, PartialEq, Eq, Structural, Debug)]
pub struct HaltControl(pub State);

impl HaltControl {
    pub fn new() -> (r: HaltControl)
        ensures
            r.0 == State::Running,
    {
        HaltControl(State::Running)
    }

    /// HALTCNT reads as zero.
    pub fn read_byte(&self, addr: u32) -> (r: u8)
        ensures
            r == 0,
    {
        0
    }

    /// A write with bit 7 set stops the machine; with bit 7 clear it halts
    /// the processor.
    pub fn write_byte(&mut self, addr: u32, value: u8)
        ensures
            final(self).0 == if value >= 0x80 { State::Stopped } else { State::Halted },
    {
        self.0 = if value >= 0x80 {
            State::Stopped
        } else {
            State::Halted
        };
    }
}

/// What the bus holds, as mathematical values.
pub struct BusView {
    pub irq: Irq,
    pub halt: State,
    pub dma: Seq<Channel>,
    pub iwram: Seq<u8>,
    pub ewram: Seq<u8>,
    pub palette: Seq<u8>,
    pub vram: Seq<u8>,
    pub oam: Seq<u8>,
    pub bios: Seq<u8>,
    pub bios_readable: bool,
    pub bios_last_fetch: u32,
    pub rom: Seq<u8>,
    pub sram: Seq<u8>,
    pub io: Seq<u8>,
}

/// The memory map: every device and memory that an address can reach.
pub struct Bus {
    pub irq: Irq,
    pub haltcnt: HaltControl,
    pub dma: Dma,
    pub iwram: Vec<u8>,
    pub ewram: Vec<u8>,
    pub palette_ram: Vec<u8>,
    pub vram: Vec<u8>,
    pub oam: Vec<u8>,
    pub bios: Vec<u8>,
    /// Whether the last instruction fetch was from the BIOS, so that the
    /// BIOS can be read.
    pub bios_readable: bool,
    /// The address of the last instruction fetch from the BIOS.
    pub bios_last_fetch: u32,
    pub rom: Vec<u8>,
    pub sram: Vec<u8>,
    /// I/O registers that no device of this core models: they keep what is
    /// written and read it back.
    pub io_todo: Vec<u8>,
}

pub open spec fn gb_view(b: Bus) -> BusView {
    BusView {
        irq: b.irq,
        halt: b.haltcnt.0,
        dma: b.dma.0@,
        iwram: b.iwram@,
        ewram: b.ewram@,
        palette: b.palette_ram@,
        vram: b.vram@,
        oam: b.oam@,
        bios: b.bios@,
        bios_readable: b.bios_readable,
        bios_last_fetch: b.bios_last_fetch,
        rom: b.rom@,
        sram: b.sram@,
        io: b.io_todo@,
    }
}

/// Whether every memory has its size: 16 KiB of BIOS, 32 KiB of internal
/// and 256 KiB of external work RAM, 1 KiB each of palette RAM and OAM, 128
/// KiB of VRAM, 64 KiB of SRAM, the I/O catch-all up to offset 0x800, and a
/// cartridge ROM of at most 32 MiB.
pub open spec fn view_wf(v: BusView) -> bool {
    &&& v.bios.len() == 0x4000
    &&& v.iwram.len() == 0x8000
    &&& v.ewram.len() == 0x4_0000
    &&& v.palette.len() == 0x400
    &&& v.vram.len() == 0x2_0000
    &&& v.oam.len() == 0x400
    &&& v.sram.len() == 0x1_0000
    &&& v.io.len() == 0x801
    &&& v.rom.len() <= 0x200_0000
    &&& v.dma.len() == 4
    &&& forall|i: int| 0 <= i < 4 ==> (#[trigger] v.dma[i]).rem_blocks <= crate::dma::max_blocks(i)
}

/// The byte at `i` of `m`, or 0xFF past its end.
pub open spec fn byte_or_ff(m: Seq<u8>, i: int) -> u8 {
    if 0 <= i < m.len() {
        m[i]
    } else {
        0xff
    }
}

/// The byte a read at `addr` returns.
pub open spec fn view_byte(v: BusView, addr: u32) -> u8 {
    if addr < 0x4000 {
        if v.bios_readable {
            v.bios[addr as int]
        } else {
            v.bios[((v.bios_last_fetch & 0x3ffc) + (addr & 3)) as int]
        }
    } else if 0x0200_0000 <= addr <= 0x02ff_ffff {
        v.ewram[(addr & 0x3_ffff) as int]
    } else if 0x0300_0000 <= addr <= 0x03ff_ffff {
        v.iwram[(addr & 0x7fff) as int]
    } else if 0x0400_0000 <= addr <= 0x0400_03fe {
        let a = addr & 0x3ff;
        if 0xb0 <= a <= 0xdf {
            chan_byte(v.dma[(a - 0xb0) / 12], ((a - 0xb0) % 12) as u32)
        } else if (0x200 <= a <= 0x203) || (0x208 <= a <= 0x20b) {
            irq_byte(v.irq, a)
        } else if a == 0x301 {
            0
        } else {
            v.io[a as int]
        }
    } else if 0x0500_0000 <= addr <= 0x05ff_ffff {
        v.palette[(addr & 0x3ff) as int]
    } else if 0x0600_0000 <= addr <= 0x06ff_ffff {
        v.vram[(addr & 0x1_ffff) as int]
    } else if 0x0700_0000 <= addr <= 0x07ff_ffff {
        v.oam[(addr & 0x3ff) as int]
    } else if 0x0800_0000 <= addr <= 0x0dff_ffff {
        byte_or_ff(v.rom, (addr & 0x1ff_ffff) as int)
    } else if 0x0e00_0000 <= addr <= 0x0e00_ffff {
        v.sram[(addr & 0xffff) as int]
    } else {
        0xff
    }
}

/// Whether a byte write at VRAM offset `off` is duplicated to its half-word;
/// byte writes to the object area (from 0x10000) are ignored.
pub open spec fn vram_byte_dup(off: u32) -> bool {
    off < 0x1_0000
}

/// The bus after a byte write of `value` at `addr`. Palette RAM and the
/// background area of VRAM write the byte to both halves of its half-word;
/// OAM, the object area of VRAM, the BIOS, the cartridge ROM and unmapped
/// addresses ignore byte writes.
pub open spec fn view_byte_written(v: BusView, addr: u32, value: u8) -> BusView {
    if 0x0200_0000 <= addr <= 0x02ff_ffff {
        BusView { ewram: v.ewram.update((addr & 0x3_ffff) as int, value), ..v }
    } else if 0x0300_0000 <= addr <= 0x03ff_ffff {
        BusView { iwram: v.iwram.update((addr & 0x7fff) as int, value), ..v }
    } else if 0x0400_0000 <= addr <= 0x0400_03fe {
        let a = addr & 0x3ff;
        if 0xb0 <= a <= 0xdf {
            let i = (a - 0xb0) / 12;
            BusView { dma: v.dma.update(i, chan_written(v.dma[i], i, ((a - 0xb0) % 12) as u32, value)), ..v }
        } else if (0x200 <= a <= 0x203) || (0x208 <= a <= 0x20b) {
            BusView { irq: irq_written(v.irq, a, value), ..v }
        } else if a == 0x301 {
            BusView { halt: if value >= 0x80 { State::Stopped } else { State::Halted }, ..v }
        } else {
            BusView { io: v.io.update(a as int, value), ..v }
        }
    } else if 0x0500_0000 <= addr <= 0x05ff_ffff {
        let a = addr & 0x3fe;
        BusView { palette: v.palette.update(a as int, value).update(a + 1, value), ..v }
    } else if 0x0600_0000 <= addr <= 0x06ff_ffff {
        let a = addr & 0x1_fffe;
        if vram_byte_dup(a) {
            BusView { vram: v.vram.update(a as int, value).update(a + 1, value), ..v }
        } else {
            v
        }
    } else if 0x0e00_0000 <= addr <= 0x0e00_ffff {
        BusView { sram: v.sram.update((addr & 0xffff) as int, value), ..v }
    } else {
        v
    }
}

/// The bus after a half-word write of `value` at `addr & !1`: palette RAM,
/// VRAM and OAM take it whole; elsewhere it is two byte writes, low byte
/// first.
pub open spec fn view_hword_written(v: BusView, addr: u32, value: u16) -> BusView {
    let a = addr & !1u32;
    if 0x0500_0000 <= addr <= 0x05ff_ffff {
        let o = addr & 0x3fe;
        BusView { palette: v.palette.update(o as int, value as u8).update(o + 1, (value >> 8u16) as u8), ..v }
    } else if 0x0600_0000 <= addr <= 0x06ff_ffff {
        let o = addr & 0x1_fffe;
        BusView { vram: v.vram.update(o as int, value as u8).update(o + 1, (value >> 8u16) as u8), ..v }
    } else if 0x0700_0000 <= addr <= 0x07ff_ffff {
        let o = addr & 0x3fe;
        BusView { oam: v.oam.update(o as int, value as u8).update(o + 1, (value >> 8u16) as u8), ..v }
    } else {
        view_byte_written(view_byte_written(v, a, value as u8), (a + 1) as u32, (value >> 8u16) as u8)
    }
}

/// The bus after a word write of `value` at `addr & !3`: two half-word
/// writes, low half first.
pub open spec fn view_word_written(v: BusView, addr: u32, value: u32) -> BusView {
    let a = addr & !3u32;
    view_hword_written(view_hword_written(v, a, value as u16), (a + 2) as u32, (value >> 16u32) as u16)
}


proof fn lemma_masks(addr: u32)
    ensures
        addr & 0x3_ffff < 0x4_0000,
        addr & 0x7fff < 0x8000,
        addr & 0x3ff < 0x400,
        addr & 0x3fe < 0x3ff,
        addr & 0x1_ffff < 0x2_0000,
        addr & 0x1_fffe < 0x1_ffff,
        addr & 0x1ff_ffff < 0x200_0000,
        addr & 0xffff < 0x1_0000,
        addr & 3 < 4,
        addr & 0x3ffc <= 0x3ffc,
        (addr & 0x3fe) + 1 == addr & 0x3ff || (addr & 0x3fe) + 1 == (addr & 0x3ff) + 1,
{
    assert((addr & 0x3_ffff < 0x4_0000) && (addr & 0x7fff < 0x8000) && (addr & 0x3ff < 0x400) && (addr & 0x3fe < 0x3ff) && (addr & 0x1_ffff < 0x2_0000) && (addr & 0x1_fffe < 0x1_ffff) && (addr & 0x1ff_ffff < 0x200_0000) && (addr & 0xffff < 0x1_0000) && (addr & 3 < 4) && (addr & 0x3ffc <= 0x3ffc) && ((addr & 0x3fe) + 1 == addr & 0x3ff || (addr & 0x3fe) + 1 == (addr & 0x3ff) + 1)) by (bit_vector);
}

proof fn lemma_align_hi(addr: u32)
    ensures
        (addr & !1u32) + 1 <= u32::MAX,
        (addr & !3u32) + 2 <= u32::MAX,
{
    assert((addr & !1u32) <= 0xFFFF_FFFEu32 && (addr & !3u32) <= 0xFFFF_FFFCu32) by (bit_vector);
}

impl Bus {
    /// The two bytes of `value` at offset `o` and `o + 1` of `m`.
    fn put_hword(m: &mut Vec<u8>, o: usize, value: u16)
        requires
            o + 1 < old(m)@.len(),
            o < 0x10_0000,
        ensures
            final(m)@ == old(m)@.update(o as int, value as u8).update(o + 1, (value >> 8u16) as u8),
    {
        m.set(o, value as u8);
        m.set(o + 1, (value >> 8u16) as u8);
    }
}

impl MemBus for Bus {
    open spec fn wf(&self) -> bool {
        view_wf(gb_view(*self))
    }

    open spec fn byte_at(&self, addr: u32) -> u8 {
        view_byte(gb_view(*self), addr)
    }

    open spec fn byte_stored(&self, next: Self, addr: u32, value: u8) -> bool {
        gb_view(next) == view_byte_written(gb_view(*self), addr, value)
    }

    open spec fn hword_stored(&self, next: Self, addr: u32, value: u16) -> bool {
        gb_view(next) == view_hword_written(gb_view(*self), addr, value)
    }

    open spec fn word_stored(&self, next: Self, addr: u32, value: u32) -> bool {
        gb_view(next) == view_word_written(gb_view(*self), addr, value)
    }

    open spec fn fetch_noted(&self, next: Self, addr: u32) -> bool {
        gb_view(next) == (BusView {
            bios_readable: addr < 0x4000,
            bios_last_fetch: if addr < 0x4000 { addr } else { self.bios_last_fetch },
            ..gb_view(*self)
        })
    }

    fn read_byte(&self, addr: u32) -> (r: u8) {
        proof {
            lemma_masks(addr);
            lemma_masks(self.bios_last_fetch);
        }
        if addr < 0x4000 {
            if self.bios_readable {
                self.bios[addr as usize]
            } else {
                self.bios[((self.bios_last_fetch & 0x3ffc) + (addr & 3)) as usize]
            }
        } else if 0x0200_0000 <= addr && addr <= 0x02ff_ffff {
            self.ewram[(addr & 0x3_ffff) as usize]
        } else if 0x0300_0000 <= addr && addr <= 0x03ff_ffff {
            self.iwram[(addr & 0x7fff) as usize]
        } else if 0x0400_0000 <= addr && addr <= 0x0400_03fe {
            let a = addr & 0x3ff;
            if 0xb0 <= a && a <= 0xdf {
                self.dma.read_byte(a)
            } else if (0x200 <= a && a <= 0x203) || (0x208 <= a && a <= 0x20b) {
                self.irq.read_byte(a)
            } else if a == 0x301 {
                self.haltcnt.read_byte(a)
            } else {
                self.io_todo[a as usize]
            }
        } else if 0x0500_0000 <= addr && addr <= 0x05ff_ffff {
            self.palette_ram[(addr & 0x3ff) as usize]
        } else if 0x0600_0000 <= addr && addr <= 0x06ff_ffff {
            self.vram[(addr & 0x1_ffff) as usize]
        } else if 0x0700_0000 <= addr && addr <= 0x07ff_ffff {
            self.oam[(addr & 0x3ff) as usize]
        } else if 0x0800_0000 <= addr && addr <= 0x0dff_ffff {
            let i = (addr & 0x1ff_ffff) as usize;
            if i < self.rom.len() {
                self.rom[i]
            } else {
                0xff
            }
        } else if 0x0e00_0000 <= addr && addr <= 0x0e00_ffff {
            self.sram[(addr & 0xffff) as usize]
        } else {
            0xff
        }
    }

    fn write_byte(&mut self, addr: u32, value: u8) {
        proof {
            lemma_masks(addr);
        }
        if 0x0200_0000 <= addr && addr <= 0x02ff_ffff {
            self.ewram.set((addr & 0x3_ffff) as usize, value);
        } else if 0x0300_0000 <= addr && addr <= 0x03ff_ffff {
            self.iwram.set((addr & 0x7fff) as usize, value);
        } else if 0x0400_0000 <= addr && addr <= 0x0400_03fe {
            let a = addr & 0x3ff;
            if 0xb0 <= a && a <= 0xdf {
                self.dma.write_byte(a, value);
            } else if (0x200 <= a && a <= 0x203) || (0x208 <= a && a <= 0x20b) {
                self.irq.write_byte(a, value);
            } else if a == 0x301 {
                self.haltcnt.write_byte(a, value);
            } else {
                self.io_todo.set(a as usize, value);
            }
        } else if 0x0500_0000 <= addr && addr <= 0x05ff_ffff {
            let a = (addr & 0x3fe) as usize;
            self.palette_ram.set(a, value);
            self.palette_ram.set(a + 1, value);
        } else if 0x0600_0000 <= addr && addr <= 0x06ff_ffff {
            let a = (addr & 0x1_fffe) as usize;
            if a < 0x1_0000 {
                self.vram.set(a, value);
                self.vram.set(a + 1, value);
            }
        } else if 0x0e00_0000 <= addr && addr <= 0x0e00_ffff {
            self.sram.set((addr & 0xffff) as usize, value);
        }
    }

    fn write_hword(&mut self, addr: u32, value: u16) {
        proof {
            lemma_masks(addr);
            lemma_align_hi(addr);
        }
        if 0x0500_0000 <= addr && addr <= 0x05ff_ffff {
            Bus::put_hword(&mut self.palette_ram, (addr & 0x3fe) as usize, value);
        } else if 0x0600_0000 <= addr && addr <= 0x06ff_ffff {
            Bus::put_hword(&mut self.vram, (addr & 0x1_fffe) as usize, value);
        } else if 0x0700_0000 <= addr && addr <= 0x07ff_ffff {
            Bus::put_hword(&mut self.oam, (addr & 0x3fe) as usize, value);
        } else {
            let a = addr & !1u32;
            self.write_byte(a, value as u8);
            self.write_byte(a + 1, (value >> 8u16) as u8);
        }
    }

    fn write_word(&mut self, addr: u32, value: u32) {
        proof {
            lemma_align_hi(addr);
        }
        let a = addr & !3u32;
        self.write_hword(a, value as u16);
        self.write_hword(a + 2, (value >> 16u32) as u16);
    }

    fn prefetch_instr(&mut self, addr: u32) {
        if addr < 0x4000 {
            self.bios_readable = true;
            self.bios_last_fetch = addr;
        } else {
            self.bios_readable = false;
        }
    }
}


/// Whether no region answers at `addr`.
pub open spec fn unmapped(addr: u32) -> bool {
    &&& 0x4000 <= addr < 0x0200_0000 || 0x0400_03ff <= addr < 0x0500_0000 || 0x0e01_0000 <= addr
}

/// A write to an unmapped address is ignored: a read there afterwards still
/// returns 0xFF.
pub proof fn lemma_unmapped_write_read(v: BusView, addr: u32, value: u8)
    requires
        unmapped(addr),
    ensures
        view_byte_written(v, addr, value) == v,
        view_byte(view_byte_written(v, addr, value), addr) == 0xff,
{
}

/// A byte write to palette RAM, or to the background area of VRAM, leaves
/// the byte in both halves of the half-word at the aligned address.
pub proof fn lemma_video_byte_dup(v: BusView, addr: u32, value: u8)
    requires
        view_wf(v),
        (0x0500_0000 <= addr <= 0x05ff_ffff) || (0x0600_0000 <= addr <= 0x06ff_ffff
            && vram_byte_dup(addr & 0x1_fffe)),
    ensures
        view_byte(view_byte_written(v, addr, value), addr & !1u32) == value,
        view_byte(view_byte_written(v, addr, value), ((addr & !1u32) + 1) as u32) == value,
{
    lemma_masks(addr);
    let a = addr & !1u32;
    assert(a & 0x3ff == addr & 0x3fe && ((a + 1) as u32) & 0x3ff == (addr & 0x3fe) + 1
        && a & 0x1_ffff == addr & 0x1_fffe && ((a + 1) as u32) & 0x1_ffff == (addr & 0x1_fffe) + 1
        && (0x0500_0000 <= addr <= 0x05ff_ffff ==> 0x0500_0000 <= a && 0x0500_0000 <= (a + 1) as u32
            && (a + 1) as u32 <= 0x05ff_ffff && a + 1 <= u32::MAX)
        && (0x0600_0000 <= addr <= 0x06ff_ffff ==> 0x0600_0000 <= a && 0x0600_0000 <= (a + 1) as u32
            && (a + 1) as u32 <= 0x06ff_ffff && a + 1 <= u32::MAX)) by (bit_vector)
        requires a == addr & !1u32;
}

/// A word written at an aligned address of work RAM reads back unchanged.
pub proof fn lemma_wram_word_round_trip(v: BusView, addr: u32, w: u32)
    requires
        view_wf(v),
        addr & 3 == 0,
        (0x0200_0000 <= addr <= 0x02ff_ffff) || (0x0300_0000 <= addr <= 0x03ff_ffff),
    ensures
        ({
            let n = view_word_written(v, addr, w);
            bytes_word(
                view_byte(n, addr),
                view_byte(n, (addr + 1) as u32),
                view_byte(n, (addr + 2) as u32),
                view_byte(n, (addr + 3) as u32),
            ) == w
        }),
{
    assert(addr & !3u32 == addr && addr & !1u32 == addr && ((addr + 2) as u32) & !1u32 == (addr + 2) as u32
        && (0x0200_0000 <= addr <= 0x02ff_ffff ==> (addr + 3) as u32 <= 0x02ff_ffff && addr + 3 <= u32::MAX)
        && (0x0300_0000 <= addr <= 0x03ff_ffff ==> (addr + 3) as u32 <= 0x03ff_ffff && addr + 3 <= u32::MAX))
        by (bit_vector)
        requires addr & 3 == 0;
    let e = addr & 0x3_ffff;
    let i = addr & 0x7fff;
    assert(((addr + 1) as u32) & 0x3_ffff == e + 1 && ((addr + 2) as u32) & 0x3_ffff == e + 2 && ((addr + 3) as u32) & 0x3_ffff == e + 3
        && ((addr + 1) as u32) & 0x7fff == i + 1 && ((addr + 2) as u32) & 0x7fff == i + 2 && ((addr + 3) as u32) & 0x7fff == i + 3
        && e + 3 < 0x4_0000 && i + 3 < 0x8000) by (bit_vector)
        requires addr & 3 == 0, e == addr & 0x3_ffff, i == addr & 0x7fff;
    let lo = w as u16;
    let hi = (w >> 16u32) as u16;
    assert(bytes_word(lo as u8, (lo >> 8u16) as u8, hi as u8, (hi >> 8u16) as u8) == w) by (bit_vector)
        requires lo == w as u16, hi == (w >> 16u32) as u16;
}


/// The machine: the processor and everything on its bus.
pub struct Gba {
    pub cpu: Cpu,
    pub bus: Bus,
}

/// Whether `b` follows from `a` by delivering interrupts: a pending enabled
/// request wakes the processor, and with the master enable set and
/// interrupts not disabled in the status word it enters the Interrupt
/// exception.
pub open spec fn irq_stepped(a: Cpu, ha: State, b: Cpu, hb: State, irq: Irq) -> bool {
    if irq_pending(irq) {
        &&& hb == State::Running
        &&& if irq.master_enabled && !a.reg.cpsr.irq_disabled {
            exception_entered(a, b, Exception::Interrupt)
        } else {
            b == a
        }
    } else {
        hb == ha && b == a
    }
}

/// Whether some channel is in the middle of a transfer.
pub open spec fn transfer_pending(d: Seq<Channel>) -> bool {
    exists|i: int| 0 <= i < 4 && (#[trigger] d[i]).state != ChannelState::Idle
}

/// The processor's part of a step, from `a` to `m`: one instruction where
/// the processor is running and no transfer is under way; nothing otherwise.
pub open spec fn cpu_phase(a: Gba, m: Gba) -> bool {
    if a.bus.haltcnt.0 == State::Running && !transfer_pending(a.bus.dma.0@) {
        exists|b1: Bus, c: Cpu| #[trigger] cpu_stepped(a.cpu, m.cpu, a.bus, m.bus, b1, c)
    } else {
        m.cpu == a.cpu && m.bus == a.bus
    }
}

/// Whether `md` is `m` with the DMA controller and the interrupt controller
/// after a DMA step of three units that handed back `t`.
pub open spec fn dma_stepped_to(m: Gba, md: Gba, t: Option<Transfer>) -> bool {
    &&& md.cpu == m.cpu
    &&& gb_view(md.bus) == (BusView { dma: md.bus.dma.0@, irq: md.bus.irq, ..gb_view(m.bus) })
    &&& dma_stepped(m.bus.dma.0@, md.bus.dma.0@, m.bus.irq, md.bus.irq, 3, t)
}

/// Whether `n` is `md` after running transfer `t` (if any) against the bus.
pub open spec fn transfer_ran(md: Gba, n: Gba, t: Option<Transfer>) -> bool {
    &&& n.cpu == md.cpu
    &&& match t {
        Some(t) => exists|states: Seq<Bus>|
            #[trigger] transfer_run(states, t) && states[0] == md.bus && states.last() == n.bus,
        None => n.bus == md.bus,
    }
}

/// The DMA part of a step, from `m` to `n`: unless the machine is stopped,
/// a DMA step and the transfer it hands back.
pub open spec fn dma_phase(m: Gba, n: Gba) -> bool {
    if m.bus.haltcnt.0 != State::Stopped {
        exists|md: Gba, t: Option<Transfer>| #[trigger] dma_stepped_to(m, md, t) && transfer_ran(md, n, t)
    } else {
        n.cpu == m.cpu && n.bus == m.bus
    }
}

/// The interrupt part of a step, from `n` to `b`.
pub open spec fn irq_phase(n: Gba, b: Gba) -> bool {
    &&& irq_stepped(n.cpu, n.bus.haltcnt.0, b.cpu, b.bus.haltcnt.0, n.bus.irq)
    &&& gb_view(b.bus) == (BusView { halt: b.bus.haltcnt.0, ..gb_view(n.bus) })
}

/// Whether `b` follows from `a` by the phases of one step through `m` and `n`.
pub open spec fn gba_phases(a: Gba, m: Gba, n: Gba, b: Gba) -> bool {
    cpu_phase(a, m) && dma_phase(m, n) && irq_phase(n, b)
}

impl Gba {
    /// A machine at power-on, with BIOS image `bios` (16 KiB) and cartridge
    /// ROM `rom` (at most 32 MiB); all RAM is zero.
    pub fn new(bios: Vec<u8>, rom: Vec<u8>) -> (r: Gba)
        requires
            bios@.len() == 0x4000,
            rom@.len() <= 0x200_0000,
        ensures
            r.wf(),
            r.cpu.reg.power_on(),
            r.bus.haltcnt.0 == State::Running,
            r.bus.bios@ == bios@,
            r.bus.rom@ == rom@,
            forall|i: int| 0 <= i < 0x4_0000 ==> #[trigger] r.bus.ewram@[i] == 0,
            forall|i: int| 0 <= i < 0x8000 ==> #[trigger] r.bus.iwram@[i] == 0,
            forall|i: int| 0 <= i < 0x2_0000 ==> #[trigger] r.bus.vram@[i] == 0,
            forall|i: int| 0 <= i < 0x400 ==> #[trigger] r.bus.palette_ram@[i] == 0 && r.bus.oam@[i] == 0,
            forall|i: int| 0 <= i < 0x1_0000 ==> #[trigger] r.bus.sram@[i] == 0,
            r.bus.irq == (Irq { master_enabled: false, enabled: 0, requested: 0 }),
            forall|i: int|
                0 <= i < 4 ==> !(#[trigger] r.bus.dma.0@[i]).enabled && r.bus.dma.0@[i].state
                    == ChannelState::Idle,
            r.bus.bios_readable,
    {
        let bus = Bus {
            irq: Irq::new(),
            haltcnt: HaltControl::new(),
            dma: Dma::new(),
            iwram: vec![0u8; 0x8000],
            ewram: vec![0u8; 0x4_0000],
            palette_ram: vec![0u8; 0x400],
            vram: vec![0u8; 0x2_0000],
            oam: vec![0u8; 0x400],
            bios,
            bios_readable: true,
            bios_last_fetch: 0,
            rom,
            sram: vec![0u8; 0x1_0000],
            io_todo: vec![0u8; 0x801],
        };
        Gba { cpu: Cpu::new(), bus }
    }

    pub open spec fn wf(&self) -> bool {
        self.bus.wf()
    }

    /// Resets the processor. With `skip_bios` it also clears the top 512
    /// bytes of internal work RAM and marks the BIOS as last fetched at the
    /// end of its boot code, as the boot sequence would leave them.
    pub fn reset(&mut self, skip_bios: bool)
        requires
            old(self).wf(),
        ensures
            final(self).wf(),
            !skip_bios ==> exception_entered(old(self).cpu, final(self).cpu, Exception::Reset),
            skip_bios ==> {
                &&& final(self).cpu.reg.r@[15] == 0x0800_0008
                &&& final(self).cpu.reg.r@[13] == 0x0300_7f00
                &&& forall|i: int| 0x7e00 <= i < 0x8000 ==> #[trigger] final(self).bus.iwram@[i] == 0
                &&& forall|i: int| 0 <= i < 0x7e00 ==> #[trigger] final(self).bus.iwram@[i] == old(self).bus.iwram@[i]
                &&& !final(self).bus.bios_readable || final(self).bus.bios_last_fetch == 0xdc + 8
            },
    {
        self.cpu.reset(skip_bios);
        if skip_bios {
            let ghost cpu1 = self.cpu;
            let mut i: usize = 0x7e00;
            while i < 0x8000
                invariant
                    0x7e00 <= i <= 0x8000,
                    self.cpu == cpu1,
                    self.bus.wf(),
                    self.bus.iwram@.len() == 0x8000,
                    forall|j: int| 0x7e00 <= j < i ==> #[trigger] self.bus.iwram@[j] == 0,
                    forall|j: int| 0 <= j < 0x7e00 ==> #[trigger] self.bus.iwram@[j] == old(self).bus.iwram@[j],
                decreases 0x8000 - i,
            {
                self.bus.iwram.set(i, 0);
                i = i + 1;
            }
            self.bus.bios_readable = true;
            self.bus.bios_last_fetch = 0xdc + 8;
        }
    }

    /// Delivers interrupts: wakes the processor on a pending enabled request
    /// and enters the Interrupt exception where the processor takes it.
    pub fn step_irq(&mut self)
        ensures
            irq_stepped(old(self).cpu, old(self).bus.haltcnt.0, final(self).cpu, final(self).bus.haltcnt.0, old(self).bus.irq),
            gb_view(final(self).bus) == (BusView { halt: final(self).bus.haltcnt.0, ..gb_view(old(self).bus) }),
    {
        if self.bus.irq.pending() {
            self.bus.haltcnt.0 = State::Running;
            if self.bus.irq.master_enabled && !self.cpu.reg.cpsr.irq_disabled {
                self.cpu.enter_exception(Exception::Interrupt);
            }
        }
    }

    /// Tells the DMA controller of event `event`.
    pub fn notify_dma(&mut self, event: Event)
        requires
            old(self).wf(),
        ensures
            final(self).wf(),
            forall|i: int|
                0 <= i < 4 ==> #[trigger] final(self).bus.dma.0@[i] == if event_starts(old(self).bus.dma.0@, i, event) {
                    chan_started(old(self).bus.dma.0@[i], i, audio_fifo(old(self).bus.dma.0@, i))
                } else {
                    old(self).bus.dma.0@[i]
                },
    {
        self.bus.dma.notify(event);
    }

    /// One host step: the processor executes an instruction unless it is
    /// halted or stopped or a DMA transfer is under way; unless stopped, the
    /// DMA controller runs a step of three units against the bus; then
    /// interrupts are delivered.
    pub fn step(&mut self)
        requires
            old(self).wf(),
        ensures
            final(self).wf(),
            exists|m: Gba, n: Gba| #[trigger] gba_phases(*old(self), m, n, *final(self)),
    {
        if self.bus.haltcnt.0 == State::Running && !self.bus.dma.transfer_in_progress() {
            self.cpu.step(&mut self.bus);
        }
        let ghost m = *self;
        if self.bus.haltcnt.0 != State::Stopped {
            let t = self.bus.dma.step(&mut self.bus.irq, 3);
            let ghost md = *self;
            match t {
                Some(t) => run_transfer(&mut self.bus, t),
                None => {},
            }
            assert(dma_stepped_to(m, md, t) && transfer_ran(md, *self, t));
        }
        let ghost n = *self;
        self.step_irq();
        assert(gba_phases(*old(self), m, n, *self));
    }
}

} // verus!
