//! The DMA controller: four channels that copy half-words or words between
//! bus addresses, started at once, on vblank, on hblank or by an audio FIFO.
use vstd::prelude::*;

use crate::bus::{Bus, hword_at, read_hword, read_word, word_at};
use crate::cpu::{add_wrap, sub_wrap, word_span};
use crate::irq::{Interrupt, Irq, irq_bit};

verus! {

/// Where a channel stands in a transfer.
#[derive(Copy, Clone, PartialEq, Eq, Structural, Debug)]
pub enum ChannelState {
    Idle,
    Starting,
    InProgress,
}

/// One channel: the registers that software writes and the running state.
#[derive(Copy, Clone, PartialEq, Eq, Structural, Debug)]
pub struct Channel {
    pub initial_src_addr: u32,
    pub initial_dst_addr: u32,
    pub initial_blocks: u32,
    pub src_addr_ctrl: u8,
    pub dst_addr_ctrl: u8,
    pub repeat: bool,
    pub transfer_word: bool,
    /// Captured from the control register; game pak DMA requests are not
    /// acted upon.
    pub cart_drq: bool,
    pub timing_mode: u8,
    pub irq_enabled: bool,
    pub enabled: bool,
    pub cached_dmacnt_hi_bits: u16,
    pub src_addr: u32,
    pub dst_addr: u32,
    pub rem_blocks: u32,
    pub state: ChannelState,
}

/// The four channels.
pub struct Dma(pub [Channel; 4]);

/// Events from other devices that can start a transfer.
#[derive(Copy, Clone, PartialEq, Eq, Structural, Debug)]
pub enum Event {
    VBlank,
    HBlank,
    AudioFifoA,
    AudioFifoB,
}

/// One transfer step: `blocks` units of a word (or half-word) from `src` to
/// `dst`, each address moving by its control after every unit.
#[derive(Copy, Clone, PartialEq, Eq, Structural, Debug)]
pub struct Transfer {
    pub src: u32,
    pub dst: u32,
    pub blocks: u32,
    pub word: bool,
    pub src_ctrl: u8,
    pub dst_ctrl: u8,
}

/// The largest block count of channel `i`.
pub open spec fn max_blocks(i: int) -> u32 {
    if i == 3 {
        0x1_0000
    } else {
        0x4000
    }
}

/// A block count as a transfer runs it: 0 and counts past the maximum mean
/// the maximum.
pub open spec fn clamp_blocks(n: u32, i: int) -> u32 {
    if n == 0 || n > max_blocks(i) {
        max_blocks(i)
    } else {
        n
    }
}

/// `a` moved by `n` bytes under address control `ctrl`: 0 and 3 increment, 1
/// decrements, 2 keeps it fixed; all modulo 2^32.
pub open spec fn advance(a: u32, ctrl: u8, n: int) -> u32 {
    if ctrl == 2 {
        a
    } else if ctrl == 1 {
        ((a - n) % word_span()) as u32
    } else {
        ((a + n) % word_span()) as u32
    }
}

/// Whether every channel's remaining block count is within its maximum.
pub open spec fn dma_wf(d: Dma) -> bool {
    forall|i: int| 0 <= i < 4 ==> (#[trigger] d.0@[i]).rem_blocks <= max_blocks(i)
}

/// Whether channel `i` of `chans` is an audio FIFO channel: channel 1 or 2
/// in timing mode 3.
pub open spec fn audio_fifo(chans: Seq<Channel>, i: int) -> bool {
    (i == 1 || i == 2) && chans[i].timing_mode == 3
}

/// Channel `c` (number `i`) after a request to start: an enabled idle
/// channel moves to Starting, with four blocks in audio FIFO mode.
pub open spec fn chan_started(c: Channel, i: int, fifo: bool) -> Channel {
    if !c.enabled || c.state != ChannelState::Idle {
        c
    } else {
        Channel {
            rem_blocks: if fifo { 4 } else { clamp_blocks(c.rem_blocks, i) },
            state: ChannelState::Starting,
            ..c
        }
    }
}

/// `word` with byte `k` (0..3) replaced by `v`.
pub open spec fn with_byte(word: u32, k: u32, v: u32) -> u32 {
    (word & !(0xffu32 << (8 * k))) | (v << (8 * k))
}

/// Channel `c` (number `i`) after a byte write of `v` at offset `off`
/// (0..11) of its registers.
pub open spec fn chan_written(c: Channel, i: int, off: u32, v: u8) -> Channel {
    let top = if i == 0 { (v & 7) as u32 } else { (v & 0xf) as u32 };
    if off < 3 {
        Channel { initial_src_addr: with_byte(c.initial_src_addr, off, v as u32), ..c }
    } else if off == 3 {
        Channel { initial_src_addr: with_byte(c.initial_src_addr, 3, top), ..c }
    } else if off < 7 {
        Channel { initial_dst_addr: with_byte(c.initial_dst_addr, (off - 4) as u32, v as u32), ..c }
    } else if off == 7 {
        Channel { initial_dst_addr: with_byte(c.initial_dst_addr, 3, top), ..c }
    } else if off == 8 {
        Channel { initial_blocks: (c.initial_blocks & !0xffu32) | v as u32, ..c }
    } else if off == 9 {
        Channel { initial_blocks: (c.initial_blocks & 0xff) | ((v as u32) << 8u32), ..c }
    } else if off == 10 {
        Channel {
            cached_dmacnt_hi_bits: (c.cached_dmacnt_hi_bits & 0xff00) | v as u16,
            dst_addr_ctrl: (v >> 5u8) & 3,
            src_addr_ctrl: (c.src_addr_ctrl & 2) | (v >> 7u8),
            ..c
        }
    } else {
        let enabled = (v >> 7u8) & 1 == 1;
        let c2 = Channel {
            cached_dmacnt_hi_bits: (c.cached_dmacnt_hi_bits & 0xff) | ((v as u16) << 8u16),
            src_addr_ctrl: (c.src_addr_ctrl & 1) | ((v & 1) << 1u8),
            repeat: (v >> 1u8) & 1 == 1,
            transfer_word: (v >> 2u8) & 1 == 1,
            cart_drq: (v >> 3u8) & 1 == 1,
            timing_mode: (v >> 4u8) & 3,
            irq_enabled: (v >> 6u8) & 1 == 1,
            enabled: enabled,
            ..c
        };
        if !c.enabled && enabled {
            let c3 = Channel {
                src_addr: c2.initial_src_addr,
                dst_addr: c2.initial_dst_addr,
                rem_blocks: clamp_blocks(c2.initial_blocks, i),
                ..c2
            };
            if c3.timing_mode == 0 {
                chan_started(c3, i, false)
            } else {
                c3
            }
        } else {
            c2
        }
    }
}

/// The byte a read at offset `off` of channel `c`'s registers returns: the
/// control register, with bit 15 showing whether the channel is enabled; the
/// write-only registers read as zero.
pub open spec fn chan_byte(c: Channel, off: u32) -> u8 {
    if off == 10 {
        (c.cached_dmacnt_hi_bits & 0xff) as u8
    } else if off == 11 {
        (((c.cached_dmacnt_hi_bits & 0x7fff) | if c.enabled { 0x8000u16 } else { 0u16 }) >> 8u16) as u8
    } else {
        0
    }
}

/// Whether channel `c` takes part in arbitration.
pub open spec fn chan_active(c: Channel) -> bool {
    c.enabled && c.state != ChannelState::Idle
}

/// The transfer that channel `c` (number `i`) runs in one step of `cycles`.
pub open spec fn chan_transfer(c: Channel, fifo: bool, cycles: u32) -> Transfer {
    Transfer {
        src: c.src_addr,
        dst: c.dst_addr,
        blocks: if c.rem_blocks < cycles { c.rem_blocks } else { cycles },
        word: fifo || c.transfer_word,
        src_ctrl: c.src_addr_ctrl,
        dst_ctrl: if fifo { 2 } else { c.dst_addr_ctrl },
    }
}

/// Bytes per unit of a transfer.
pub open spec fn stride(word: bool) -> int {
    if word {
        4
    } else {
        2
    }
}

/// Channel `c` (number `i`) after running transfer `t` in a step: addresses
/// advanced past it and blocks counted down; at zero the channel goes idle,
/// stays enabled only if it repeats, and then reloads its block count (and
/// its destination, under control 3).
pub open spec fn chan_stepped(c: Channel, i: int, t: Transfer) -> Channel {
    let n = stride(t.word) * t.blocks;
    let rem = (c.rem_blocks - t.blocks) as u32;
    let c2 = Channel {
        src_addr: advance(c.src_addr, t.src_ctrl, n),
        dst_addr: advance(c.dst_addr, t.dst_ctrl, n),
        rem_blocks: rem,
        state: ChannelState::InProgress,
        ..c
    };
    if rem == 0 {
        Channel {
            state: ChannelState::Idle,
            enabled: c.repeat,
            dst_addr: if c.repeat && c.dst_addr_ctrl == 3 { c.initial_dst_addr } else { c2.dst_addr },
            rem_blocks: if c.repeat { clamp_blocks(c.initial_blocks, i) } else { 0 },
            ..c2
        }
    } else {
        c2
    }
}

/// The interrupt of channel `i`.
pub open spec fn dma_irq(i: int) -> Interrupt {
    if i == 0 {
        Interrupt::Dma0
    } else if i == 1 {
        Interrupt::Dma1
    } else if i == 2 {
        Interrupt::Dma2
    } else {
        Interrupt::Dma3
    }
}

/// The timing mode that an event starts.
pub open spec fn event_timing(e: Event) -> u8 {
    match e {
        Event::VBlank => 1,
        Event::HBlank => 2,
        _ => 3,
    }
}

/// Whether event `e` starts channel `i` of `chans`: the channel is enabled
/// in the event's timing mode, and for an audio FIFO event it is an audio
/// FIFO channel whose destination is that FIFO.
pub open spec fn event_starts(chans: Seq<Channel>, i: int, e: Event) -> bool {
    let c = chans[i];
    &&& c.enabled
    &&& c.timing_mode == event_timing(e)
    &&& e == Event::AudioFifoA ==> audio_fifo(chans, i) && c.initial_dst_addr == 0x0400_00a0
    &&& e == Event::AudioFifoB ==> audio_fifo(chans, i) && c.initial_dst_addr == 0x0400_00a4
}


fn clamp_count(n: u32, i: usize) -> (r: u32)
    requires
        i < 4,
    ensures
        r == clamp_blocks(n, i as int),
{
    let max: u32 = if i == 3 { 0x1_0000 } else { 0x4000 };
    if n == 0 || n > max {
        max
    } else {
        n
    }
}

fn set_byte(word: u32, k: u32, v: u32) -> (r: u32)
    requires
        k < 4,
    ensures
        r == with_byte(word, k, v),
{
    (word & !(0xffu32 << (8 * k))) | (v << (8 * k))
}

/// Moves `a` by `n` bytes under address control `ctrl`.
fn advance_addr(a: u32, ctrl: u8, n: u32) -> (r: u32)
    ensures
        r == advance(a, ctrl, n as int),
{
    if ctrl == 2 {
        a
    } else if ctrl == 1 {
        sub_wrap(a, n)
    } else {
        add_wrap(a, n)
    }
}

impl Channel {
    /// A channel with every register zero, idle and disabled.
    pub fn new() -> (r: Channel)
        ensures
            r.rem_blocks == 0,
            r.state == ChannelState::Idle,
            !r.enabled,
    {
        Channel {
            initial_src_addr: 0,
            initial_dst_addr: 0,
            initial_blocks: 0,
            src_addr_ctrl: 0,
            dst_addr_ctrl: 0,
            repeat: false,
            transfer_word: false,
            cart_drq: false,
            timing_mode: 0,
            irq_enabled: false,
            enabled: false,
            cached_dmacnt_hi_bits: 0,
            src_addr: 0,
            dst_addr: 0,
            rem_blocks: 0,
            state: ChannelState::Idle,
        }
    }
}

impl Dma {
    /// Four idle, disabled channels.
    pub fn new() -> (r: Dma)
        ensures
            dma_wf(r),
            forall|i: int| 0 <= i < 4 ==> !(#[trigger] r.0@[i]).enabled && r.0@[i].state == ChannelState::Idle,
    {
        let c = Channel::new();
        Dma([c, c, c, c])
    }

    /// Whether channel `chan_idx` is an audio FIFO channel.
    pub fn in_audio_fifo_mode(&self, chan_idx: usize) -> (r: bool)
        requires
            chan_idx < 4,
        ensures
            r == audio_fifo(self.0@, chan_idx as int),
    {
        (chan_idx == 1 || chan_idx == 2) && self.0[chan_idx].timing_mode == 3
    }

    /// Asks channel `chan_idx` to start a transfer.
    pub fn start_transfer(&mut self, chan_idx: usize)
        requires
            chan_idx < 4,
            dma_wf(*old(self)),
        ensures
            dma_wf(*final(self)),
            final(self).0@ == old(self).0@.update(
                chan_idx as int,
                chan_started(old(self).0@[chan_idx as int], chan_idx as int, audio_fifo(old(self).0@, chan_idx as int)),
            ),
    {
        let fifo = self.in_audio_fifo_mode(chan_idx);
        let mut c = self.0[chan_idx];
        if !c.enabled || c.state != ChannelState::Idle {
            proof {
                assert(self.0@ =~= old(self).0@.update(chan_idx as int, c));
            }
            return ;
        }
        c.rem_blocks = if fifo { 4 } else { clamp_count(c.rem_blocks, chan_idx) };
        c.state = ChannelState::Starting;
        self.0[chan_idx] = c;
    }

    /// Whether some channel is in the middle of a transfer.
    pub fn transfer_in_progress(&self) -> (r: bool)
        ensures
            r == exists|i: int| 0 <= i < 4 && (#[trigger] self.0@[i]).state != ChannelState::Idle,
    {
        let r = self.0[0].state != ChannelState::Idle || self.0[1].state != ChannelState::Idle
            || self.0[2].state != ChannelState::Idle || self.0[3].state != ChannelState::Idle;
        proof {
            if r {
                if self.0@[0].state != ChannelState::Idle {
                    assert(0 <= 0int < 4 && self.0@[0].state != ChannelState::Idle);
                } else if self.0@[1].state != ChannelState::Idle {
                    assert(0 <= 1int < 4 && self.0@[1].state != ChannelState::Idle);
                } else if self.0@[2].state != ChannelState::Idle {
                    assert(0 <= 2int < 4 && self.0@[2].state != ChannelState::Idle);
                } else {
                    assert(0 <= 3int < 4 && self.0@[3].state != ChannelState::Idle);
                }
            }
        }
        r
    }

    /// Starts every channel that event `event` triggers.
    pub fn notify(&mut self, event: Event)
        requires
            dma_wf(*old(self)),
        ensures
            dma_wf(*final(self)),
            forall|i: int|
                0 <= i < 4 ==> #[trigger] final(self).0@[i] == if event_starts(old(self).0@, i, event) {
                    chan_started(old(self).0@[i], i, audio_fifo(old(self).0@, i))
                } else {
                    old(self).0@[i]
                },
    {
        let timing: u8 = match event {
            Event::VBlank => 1,
            Event::HBlank => 2,
            _ => 3,
        };
        let ghost d0 = self.0@;
        let mut i: usize = 0;
        while i < 4
            invariant
                0 <= i <= 4,
                self.0@.len() == 4,
                forall|j: int| 0 <= j < 4 ==> (#[trigger] self.0@[j]).timing_mode == d0[j].timing_mode,
                forall|j: int| 0 <= j < 4 ==> (#[trigger] self.0@[j]).initial_dst_addr == d0[j].initial_dst_addr,
                forall|j: int| 0 <= j < 4 ==> (#[trigger] self.0@[j]).enabled == d0[j].enabled,
                forall|j: int|
                    0 <= j < i ==> #[trigger] self.0@[j] == if event_starts(d0, j, event) {
                        chan_started(d0[j], j, audio_fifo(d0, j))
                    } else {
                        d0[j]
                    },
                forall|j: int| i <= j < 4 ==> #[trigger] self.0@[j] == d0[j],
                d0 == old(self).0@,
                timing == event_timing(event),
                dma_wf(*self),
            decreases 4 - i,
        {
            let c = self.0[i];
            let mut go = c.enabled && c.timing_mode == timing;
            match event {
                Event::AudioFifoA => {
                    if !self.in_audio_fifo_mode(i) || c.initial_dst_addr != 0x0400_00a0 {
                        go = false;
                    }
                },
                Event::AudioFifoB => {
                    if !self.in_audio_fifo_mode(i) || c.initial_dst_addr != 0x0400_00a4 {
                        go = false;
                    }
                },
                _ => {},
            }
            if go {
                self.start_transfer(i);
            }
            i = i + 1;
        }
    }

    /// The byte a read at I/O offset `addr` (0xB0..0xDF) returns.
    pub fn read_byte(&self, addr: u32) -> (r: u8)
        requires
            0xb0 <= addr < 0xe0,
        ensures
            r == chan_byte(self.0@[(addr - 0xb0) / 12], ((addr - 0xb0) % 12) as u32),
    {
        let i = ((addr - 0xb0) / 12) as usize;
        let off = (addr - 0xb0) % 12;
        let c = self.0[i];
        if off == 10 {
            (c.cached_dmacnt_hi_bits & 0xff) as u8
        } else if off == 11 {
            (((c.cached_dmacnt_hi_bits & 0x7fff) | if c.enabled { 0x8000u16 } else { 0u16 }) >> 8u16) as u8
        } else {
            0
        }
    }

    /// Writes byte `value` at I/O offset `addr` (0xB0..0xDF).
    pub fn write_byte(&mut self, addr: u32, value: u8)
        requires
            0xb0 <= addr < 0xe0,
            dma_wf(*old(self)),
        ensures
            dma_wf(*final(self)),
            final(self).0@ == old(self).0@.update(
                (addr - 0xb0) / 12,
                chan_written(old(self).0@[(addr - 0xb0) / 12], (addr - 0xb0) / 12, ((addr - 0xb0) % 12) as u32, value),
            ),
    {
        let i = ((addr - 0xb0) / 12) as usize;
        let off = (addr - 0xb0) % 12;
        let mut c = self.0[i];
        let mut start = false;
        let top: u32 = if i == 0 { (value & 7) as u32 } else { (value & 0xf) as u32 };
        if off < 3 {
            c.initial_src_addr = set_byte(c.initial_src_addr, off, value as u32);
        } else if off == 3 {
            c.initial_src_addr = set_byte(c.initial_src_addr, 3, top);
        } else if off < 7 {
            c.initial_dst_addr = set_byte(c.initial_dst_addr, off - 4, value as u32);
        } else if off == 7 {
            c.initial_dst_addr = set_byte(c.initial_dst_addr, 3, top);
        } else if off == 8 {
            c.initial_blocks = (c.initial_blocks & !0xffu32) | value as u32;
        } else if off == 9 {
            c.initial_blocks = (c.initial_blocks & 0xff) | ((value as u32) << 8u32);
        } else if off == 10 {
            c.cached_dmacnt_hi_bits = (c.cached_dmacnt_hi_bits & 0xff00) | value as u16;
            c.dst_addr_ctrl = (value >> 5u8) & 3;
            c.src_addr_ctrl = (c.src_addr_ctrl & 2) | (value >> 7u8);
        } else {
            let was_enabled = c.enabled;
            let enabled = (value >> 7u8) & 1 == 1;
            c.cached_dmacnt_hi_bits = (c.cached_dmacnt_hi_bits & 0xff) | ((value as u16) << 8u16);
            c.src_addr_ctrl = (c.src_addr_ctrl & 1) | ((value & 1) << 1u8);
            c.repeat = (value >> 1u8) & 1 == 1;
            c.transfer_word = (value >> 2u8) & 1 == 1;
            c.cart_drq = (value >> 3u8) & 1 == 1;
            c.timing_mode = (value >> 4u8) & 3;
            c.irq_enabled = (value >> 6u8) & 1 == 1;
            c.enabled = enabled;
            if !was_enabled && enabled {
                c.src_addr = c.initial_src_addr;
                c.dst_addr = c.initial_dst_addr;
                c.rem_blocks = clamp_count(c.initial_blocks, i);
                start = c.timing_mode == 0;
            }
        }
        self.0[i] = c;
        if start {
            self.start_transfer(i);
        }
    }
}


/// The first channel that takes part in arbitration, if any.
pub open spec fn first_active(chans: Seq<Channel>) -> Option<int> {
    if chan_active(chans[0]) {
        Some(0)
    } else if chan_active(chans[1]) {
        Some(1)
    } else if chan_active(chans[2]) {
        Some(2)
    } else if chan_active(chans[3]) {
        Some(3)
    } else {
        None
    }
}

/// Whether `d1`, `irq1` and the returned transfer `r` follow from one step
/// of `cycles` units of `d0` and `irq0`: the first active channel runs a
/// transfer and, when it completes with its interrupt enabled, requests it.
pub open spec fn dma_stepped(d0: Seq<Channel>, d1: Seq<Channel>, irq0: Irq, irq1: Irq, cycles: u32, r: Option<Transfer>) -> bool {
    match first_active(d0) {
        None => d1 == d0 && irq1 == irq0 && r is None,
        Some(i) => {
            let c = d0[i];
            let t = chan_transfer(c, audio_fifo(d0, i), cycles);
            let c1 = chan_stepped(c, i, t);
            &&& r == Some(t)
            &&& d1 == d0.update(i, c1)
            &&& irq1 == if c1.state == ChannelState::Idle && c.irq_enabled {
                Irq { requested: irq0.requested | irq_bit(dma_irq(i)), ..irq0 }
            } else {
                irq0
            }
        },
    }
}

/// The source address of unit `k` of transfer `t`.
pub open spec fn unit_src(t: Transfer, k: int) -> u32 {
    advance(t.src, t.src_ctrl, stride(t.word) * k)
}

/// The destination address of unit `k` of transfer `t`.
pub open spec fn unit_dst(t: Transfer, k: int) -> u32 {
    advance(t.dst, t.dst_ctrl, stride(t.word) * k)
}

/// Whether `b1` follows from `b0` by unit `k` of `t`: a read at its source
/// and a write of what was read at its destination.
pub open spec fn unit_done<B: Bus>(b0: B, b1: B, t: Transfer, k: int) -> bool {
    if t.word {
        b0.word_stored(b1, unit_dst(t, k), word_at(&b0, unit_src(t, k)))
    } else {
        b0.hword_stored(b1, unit_dst(t, k), hword_at(&b0, unit_src(t, k)))
    }
}

/// Whether `states` runs through the units of `t` one after the other.
pub open spec fn transfer_run<B: Bus>(states: Seq<B>, t: Transfer) -> bool {
    &&& states.len() == t.blocks + 1
    &&& forall|k: int| 0 <= k < t.blocks ==> #[trigger] unit_done(states[k], states[k + 1], t, k)
}

proof fn lemma_advance_step(a: u32, ctrl: u8, s: int, k: int)
    requires
        0 <= k,
        s == 2 || s == 4,
    ensures
        advance(advance(a, ctrl, s * k), ctrl, s) == advance(a, ctrl, s * (k + 1)),
{
    let m = word_span();
    assert(s * (k + 1) == s * k + s) by (nonlinear_arith);
    if ctrl == 1 {
        vstd::arithmetic::div_mod::lemma_sub_mod_noop(a as int - s * k, s, m);
        vstd::arithmetic::div_mod::lemma_mod_twice(a as int - s * k, m);
        assert((((a as int - s * k) % m) - s) % m == ((a as int - s * k) - s) % m) by {
            vstd::arithmetic::div_mod::lemma_sub_mod_noop(a as int - s * k, s, m);
            vstd::arithmetic::div_mod::lemma_small_mod(s as nat, m as nat);
        }
    } else if ctrl != 2 {
        assert((((a as int + s * k) % m) + s) % m == ((a as int + s * k) + s) % m) by {
            vstd::arithmetic::div_mod::lemma_add_mod_noop(a as int + s * k, s, m);
            vstd::arithmetic::div_mod::lemma_small_mod(s as nat, m as nat);
            vstd::arithmetic::div_mod::lemma_mod_twice(a as int + s * k, m);
        }
    }
}

/// Runs transfer `t` against the bus.
pub fn run_transfer<B: Bus>(bus: &mut B, t: Transfer)
    requires
        old(bus).wf(),
    ensures
        final(bus).wf(),
        exists|states: Seq<B>|
            #[trigger] transfer_run(states, t) && states[0] == *old(bus) && states.last() == *final(bus),
{
    let ghost mut states: Seq<B> = seq![*bus];
    let step: u32 = if t.word { 4 } else { 2 };
    let mut src = t.src;
    let mut dst = t.dst;
    let mut k: u32 = 0;
    while k < t.blocks
        invariant
            0 <= k <= t.blocks,
            states.len() == k + 1,
            bus.wf(),
            forall|j: int| 0 <= j < k ==> #[trigger] unit_done(states[j], states[j + 1], t, j),
            states[0] == *old(bus),
            states.last() == *bus,
            src == unit_src(t, k as int),
            dst == unit_dst(t, k as int),
            step == stride(t.word),
        decreases t.blocks - k,
    {
        if t.word {
            let v = read_word(bus, src);
            bus.write_word(dst, v);
        } else {
            let v = read_hword(bus, src);
            bus.write_hword(dst, v);
        }
        proof {
            let ns = states.push(*bus);
            assert forall|j: int| 0 <= j < k + 1 implies #[trigger] unit_done(ns[j], ns[j + 1], t, j) by {
                if j < k {
                    assert(unit_done(states[j], states[j + 1], t, j));
                }
            }
            states = ns;
            lemma_advance_step(t.src, t.src_ctrl, stride(t.word), k as int);
            lemma_advance_step(t.dst, t.dst_ctrl, stride(t.word), k as int);
        }
        src = advance_addr(src, t.src_ctrl, step);
        dst = advance_addr(dst, t.dst_ctrl, step);
        k = k + 1;
    }
    assert(transfer_run(states, t));
}

impl Dma {
    fn step_channel(&mut self, i: usize, irq: &mut Irq, cycles: u32) -> (r: Transfer)
        requires
            i < 4,
            dma_wf(*old(self)),
        ensures
            ({
                let c = old(self).0@[i as int];
                let t = chan_transfer(c, audio_fifo(old(self).0@, i as int), cycles);
                let c1 = chan_stepped(c, i as int, t);
                &&& r == t
                &&& final(self).0@ == old(self).0@.update(i as int, c1)
                &&& *final(irq) == if c1.state == ChannelState::Idle && c.irq_enabled {
                    Irq { requested: old(irq).requested | irq_bit(dma_irq(i as int)), ..*old(irq) }
                } else {
                    *old(irq)
                }
            }),
    {
        let fifo = self.in_audio_fifo_mode(i);
        let mut c = self.0[i];
        let blocks = if c.rem_blocks < cycles { c.rem_blocks } else { cycles };
        let word = fifo || c.transfer_word;
        let t = Transfer {
            src: c.src_addr,
            dst: c.dst_addr,
            blocks,
            word,
            src_ctrl: c.src_addr_ctrl,
            dst_ctrl: if fifo { 2 } else { c.dst_addr_ctrl },
        };
        assert(c.rem_blocks <= max_blocks(i as int));
        let n: u32 = if word { 4 * blocks } else { 2 * blocks };
        c.src_addr = advance_addr(c.src_addr, t.src_ctrl, n);
        c.dst_addr = advance_addr(c.dst_addr, t.dst_ctrl, n);
        c.rem_blocks = c.rem_blocks - blocks;
        c.state = ChannelState::InProgress;
        if c.rem_blocks == 0 {
            c.state = ChannelState::Idle;
            c.enabled = c.repeat;
            if c.repeat {
                if c.dst_addr_ctrl == 3 {
                    c.dst_addr = c.initial_dst_addr;
                }
                c.rem_blocks = clamp_count(c.initial_blocks, i);
            }
            if c.irq_enabled {
                irq.request(
                    if i == 0 {
                        Interrupt::Dma0
                    } else if i == 1 {
                        Interrupt::Dma1
                    } else if i == 2 {
                        Interrupt::Dma2
                    } else {
                        Interrupt::Dma3
                    },
                );
            }
        }
        self.0[i] = c;
        t
    }

    /// Runs one step of `cycles` units: the first enabled channel that is
    /// not idle updates its state and hands back the transfer to run against
    /// the bus.
    pub fn step(&mut self, irq: &mut Irq, cycles: u32) -> (r: Option<Transfer>)
        requires
            dma_wf(*old(self)),
        ensures
            dma_stepped(old(self).0@, final(self).0@, *old(irq), *final(irq), cycles, r),
            dma_wf(*final(self)),
    {
        let ghost d0 = self.0@;
        let r = if self.0[0].enabled && self.0[0].state != ChannelState::Idle {
            Some(self.step_channel(0, irq, cycles))
        } else if self.0[1].enabled && self.0[1].state != ChannelState::Idle {
            Some(self.step_channel(1, irq, cycles))
        } else if self.0[2].enabled && self.0[2].state != ChannelState::Idle {
            Some(self.step_channel(2, irq, cycles))
        } else if self.0[3].enabled && self.0[3].state != ChannelState::Idle {
            Some(self.step_channel(3, irq, cycles))
        } else {
            None
        };
        proof {
            assert forall|i: int| 0 <= i < 4 implies (#[trigger] self.0@[i]).rem_blocks <= max_blocks(i) by {
                assert(d0[i].rem_blocks <= max_blocks(i));
            }
        }
        r
    }
}


/// A write of a 16-bit control word to a channel that leaves the enable bit
/// as it was records the control fields and changes no running state: the
/// current addresses, the remaining block count, the transfer state and the
/// enable bit stay.
pub proof fn lemma_control_write_keeps_running(c: Channel, i: int, w: u16)
    requires
        ((w >> 15u16) & 1 == 1) == c.enabled,
    ensures
        ({
            let c2 = chan_written(chan_written(c, i, 10, w as u8), i, 11, (w >> 8u16) as u8);
            &&& c2.src_addr == c.src_addr
            &&& c2.dst_addr == c.dst_addr
            &&& c2.rem_blocks == c.rem_blocks
            &&& c2.state == c.state
            &&& c2.enabled == c.enabled
            &&& c2.cached_dmacnt_hi_bits == w
        }),
{
    let hi = (w >> 8u16) as u8;
    assert(((hi >> 7u8) & 1 == 1) == ((w >> 15u16) & 1 == 1)) by (bit_vector)
        requires hi == (w >> 8u16) as u8;
    let x = c.cached_dmacnt_hi_bits;
    assert((((x & 0xff00) | (w as u8) as u16) & 0xff) | ((hi as u16) << 8u16) == w) by (bit_vector)
        requires hi == (w >> 8u16) as u8;
}

} // verus!
