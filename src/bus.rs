//! The bus seen by the processor and the DMA controller: byte reads and
//! writes, with half-word and word accesses built on them.
use vstd::prelude::*;

verus! {

/// A device that answers reads and takes writes at 32-bit addresses.
///
/// Reads do not change the device. What a write does is stated by the
/// implementation, as a relation between the state before and after it.
pub trait Bus: Sized {
    /// Whether the state is well formed; every operation keeps it so.
    spec fn wf(&self) -> bool;

    /// The byte a read at `addr` returns.
    spec fn byte_at(&self, addr: u32) -> u8;

    /// Whether `next` is the state after writing byte `value` at `addr`.
    spec fn byte_stored(&self, next: Self, addr: u32, value: u8) -> bool;

    /// Whether `next` is the state after writing half-word `value` at `addr & !1`.
    spec fn hword_stored(&self, next: Self, addr: u32, value: u16) -> bool;

    /// Whether `next` is the state after writing word `value` at `addr & !3`.
    spec fn word_stored(&self, next: Self, addr: u32, value: u32) -> bool;

    /// Whether `next` is the state after an instruction fetch from `addr`.
    spec fn fetch_noted(&self, next: Self, addr: u32) -> bool;

    fn read_byte(&self, addr: u32) -> (r: u8)
        requires
            self.wf(),
        ensures
            r == self.byte_at(addr),
    ;

    fn write_byte(&mut self, addr: u32, value: u8)
        requires
            old(self).wf(),
        ensures
            final(self).wf(),
            old(self).byte_stored(*final(self), addr, value),
    ;

    fn write_hword(&mut self, addr: u32, value: u16)
        requires
            old(self).wf(),
        ensures
            final(self).wf(),
            old(self).hword_stored(*final(self), addr, value),
    ;

    fn write_word(&mut self, addr: u32, value: u32)
        requires
            old(self).wf(),
        ensures
            final(self).wf(),
            old(self).word_stored(*final(self), addr, value),
    ;

    /// Tells the device that an instruction is being fetched from `addr`.
    fn prefetch_instr(&mut self, addr: u32)
        requires
            old(self).wf(),
        ensures
            final(self).wf(),
            old(self).fetch_noted(*final(self), addr),
    ;
}

/// The half-word a read at `addr` returns: the two bytes at `addr & !1`,
/// little-endian.
pub open spec fn hword_at<B: Bus>(bus: &B, addr: u32) -> u16 {
    let a = addr & !1u32;
    (bus.byte_at(a) as u16 | ((bus.byte_at((a + 1) as u32) as u16) << 8u16)) as u16
}

/// The word a read at `addr` returns: the four bytes at `addr & !3`,
/// little-endian.
pub open spec fn word_at<B: Bus>(bus: &B, addr: u32) -> u32 {
    let a = addr & !3u32;
    bytes_word(
        bus.byte_at(a),
        bus.byte_at((a + 1) as u32),
        bus.byte_at((a + 2) as u32),
        bus.byte_at((a + 3) as u32),
    )
}

/// The little-endian word of four bytes.
pub open spec fn bytes_word(b0: u8, b1: u8, b2: u8, b3: u8) -> u32 {
    b0 as u32 | ((b1 as u32) << 8u32) | ((b2 as u32) << 16u32) | ((b3 as u32) << 24u32)
}

proof fn lemma_align_room(addr: u32)
    ensures
        (addr & !1u32) + 1 <= u32::MAX,
        (addr & !3u32) + 3 <= u32::MAX,
        (addr & !1u32) & 1 == 0,
        (addr & !3u32) & 3 == 0,
{
    assert((addr & !1u32) <= 0xFFFF_FFFEu32) by (bit_vector);
    assert((addr & !3u32) <= 0xFFFF_FFFCu32) by (bit_vector);
    assert((addr & !1u32) & 1 == 0) by (bit_vector);
    assert((addr & !3u32) & 3 == 0) by (bit_vector);
}

/// Reads the half-word at `addr & !1`.
pub fn read_hword<B: Bus>(bus: &B, addr: u32) -> (r: u16)
    requires
        bus.wf(),
    ensures
        r == hword_at(bus, addr),
{
    proof {
        lemma_align_room(addr);
    }
    let a = addr & !1u32;
    let lo = bus.read_byte(a);
    let hi = bus.read_byte(a + 1);
    lo as u16 | ((hi as u16) << 8u16)
}

/// Reads the word at `addr & !3`.
pub fn read_word<B: Bus>(bus: &B, addr: u32) -> (r: u32)
    requires
        bus.wf(),
    ensures
        r == word_at(bus, addr),
{
    proof {
        lemma_align_room(addr);
    }
    let a = addr & !3u32;
    let b0 = bus.read_byte(a);
    let b1 = bus.read_byte(a + 1);
    let b2 = bus.read_byte(a + 2);
    let b3 = bus.read_byte(a + 3);
    b0 as u32 | ((b1 as u32) << 8u32) | ((b2 as u32) << 16u32) | ((b3 as u32) << 24u32)
}

/// The byte of a word that starts at bit `shift`.
pub open spec fn word_byte(value: u32, shift: u32) -> u8 {
    ((value >> shift) & 0xff) as u8
}

/// Memory as one flat byte array from address 0; reads past its end return
/// 0xFF and writes there are ignored.
pub struct VecBus(pub Vec<u8>);

/// The bytes of `mem` after writing `value` at `addr`, where it lies inside.
pub open spec fn mem_stored(mem: Seq<u8>, addr: u32, value: u8) -> Seq<u8> {
    if (addr as int) < mem.len() {
        mem.update(addr as int, value)
    } else {
        mem
    }
}

impl VecBus {
    fn store(&mut self, addr: u32, value: u8)
        ensures
            final(self).0@ == mem_stored(old(self).0@, addr, value),
    {
        if (addr as usize) < self.0.len() {
            self.0.set(addr as usize, value);
        }
    }
}

impl Bus for VecBus {
    open spec fn wf(&self) -> bool {
        true
    }

    open spec fn byte_at(&self, addr: u32) -> u8 {
        if (addr as int) < self.0@.len() {
            self.0@[addr as int]
        } else {
            0xff
        }
    }

    open spec fn byte_stored(&self, next: Self, addr: u32, value: u8) -> bool {
        next.0@ == mem_stored(self.0@, addr, value)
    }

    open spec fn hword_stored(&self, next: Self, addr: u32, value: u16) -> bool {
        let a = addr & !1u32;
        next.0@ == mem_stored(
            mem_stored(self.0@, a, value as u8),
            (a + 1) as u32,
            (value >> 8u16) as u8,
        )
    }

    open spec fn word_stored(&self, next: Self, addr: u32, value: u32) -> bool {
        let a = addr & !3u32;
        next.0@ == mem_stored(
            mem_stored(
                mem_stored(mem_stored(self.0@, a, word_byte(value, 0)), (a + 1) as u32, word_byte(value, 8)),
                (a + 2) as u32,
                word_byte(value, 16),
            ),
            (a + 3) as u32,
            word_byte(value, 24),
        )
    }

    open spec fn fetch_noted(&self, next: Self, addr: u32) -> bool {
        next.0@ == self.0@
    }

    fn read_byte(&self, addr: u32) -> (r: u8) {
        if (addr as usize) < self.0.len() {
            self.0[addr as usize]
        } else {
            0xff
        }
    }

    fn write_byte(&mut self, addr: u32, value: u8) {
        self.store(addr, value);
    }

    fn write_hword(&mut self, addr: u32, value: u16) {
        proof {
            lemma_align_room(addr);
        }
        let a = addr & !1u32;
        self.store(a, value as u8);
        self.store(a + 1, (value >> 8u16) as u8);
    }

    fn write_word(&mut self, addr: u32, value: u32) {
        proof {
            lemma_align_room(addr);
        }
        let a = addr & !3u32;
        self.store(a, ((value >> 0u32) & 0xff) as u8);
        self.store(a + 1, ((value >> 8u32) & 0xff) as u8);
        self.store(a + 2, ((value >> 16u32) & 0xff) as u8);
        self.store(a + 3, ((value >> 24u32) & 0xff) as u8);
    }

    fn prefetch_instr(&mut self, addr: u32) {
    }
}

} // verus!
