//! The interrupt controller: master enable, per-source enable mask and
//! latched requests.
use vstd::prelude::*;

verus! {

/// The fourteen interrupt sources, in the order of their request bits.
#[derive(Copy, Clone, PartialEq, Eq, Structural, Debug)]
pub enum Interrupt {
    VBlank,
    HBlank,
    VCount,
    Timer0,
    Timer1,
    Timer2,
    Timer3,
    Serial,
    Dma0,
    Dma1,
    Dma2,
    Dma3,
    Keypad,
    Cartridge,
}

/// The request bit of each source.
pub open spec fn irq_bit(i: Interrupt) -> u16 {
    match i {
        Interrupt::VBlank => 1u16 << 0u16,
        Interrupt::HBlank => 1u16 << 1u16,
        Interrupt::VCount => 1u16 << 2u16,
        Interrupt::Timer0 => 1u16 << 3u16,
        Interrupt::Timer1 => 1u16 << 4u16,
        Interrupt::Timer2 => 1u16 << 5u16,
        Interrupt::Timer3 => 1u16 << 6u16,
        Interrupt::Serial => 1u16 << 7u16,
        Interrupt::Dma0 => 1u16 << 8u16,
        Interrupt::Dma1 => 1u16 << 9u16,
        Interrupt::Dma2 => 1u16 << 10u16,
        Interrupt::Dma3 => 1u16 << 11u16,
        Interrupt::Keypad => 1u16 << 12u16,
        Interrupt::Cartridge => 1u16 << 13u16,
    }
}

/// The interrupt controller's registers.
#[derive(Copy, Clone, PartialEq, Eq, Structural, Debug)]
pub struct Irq {
    pub master_enabled: bool,
    pub enabled: u16,
    pub requested: u16,
}

/// Whether some enabled source has a request pending.
pub open spec fn irq_pending(irq: Irq) -> bool {
    irq.enabled & irq.requested != 0
}

/// The controller after a byte write of `value` at I/O offset `addr`: IE
/// (0x200..0x201) takes the byte; a write to IF (0x202..0x203) clears the
/// request bits that it sets; IME (0x208) takes bit 0 as the master enable.
pub open spec fn irq_written(irq: Irq, addr: u32, value: u8) -> Irq {
    if addr == 0x200 {
        Irq { enabled: (irq.enabled & 0x3f00) | (value as u16), ..irq }
    } else if addr == 0x201 {
        Irq { enabled: (irq.enabled & 0xff) | (((value & 0x3f) as u16) << 8u16), ..irq }
    } else if addr == 0x202 {
        Irq { requested: irq.requested & !(value as u16), ..irq }
    } else if addr == 0x203 {
        Irq { requested: irq.requested & !((value as u16) << 8u16), ..irq }
    } else if addr == 0x208 {
        Irq { master_enabled: value & 1 == 1, ..irq }
    } else {
        irq
    }
}

/// The byte a read at I/O offset `addr` returns.
pub open spec fn irq_byte(irq: Irq, addr: u32) -> u8 {
    if addr == 0x200 {
        (irq.enabled & 0xff) as u8
    } else if addr == 0x201 {
        (irq.enabled >> 8u16) as u8
    } else if addr == 0x202 {
        (irq.requested & 0xff) as u8
    } else if addr == 0x203 {
        (irq.requested >> 8u16) as u8
    } else if addr == 0x208 {
        if irq.master_enabled { 1u8 } else { 0u8 }
    } else {
        0
    }
}

impl Irq {
    pub fn new() -> (r: Irq)
        ensures
            r == (Irq { master_enabled: false, enabled: 0, requested: 0 }),
    {
        Irq { master_enabled: false, enabled: 0, requested: 0 }
    }

    /// Latches a request from source `i`.
    pub fn request(&mut self, i: Interrupt)
        ensures
            *final(self) == (Irq { requested: old(self).requested | irq_bit(i), ..*old(self) }),
    {
        let b: u16 = match i {
            Interrupt::VBlank => 1u16 << 0u16,
            Interrupt::HBlank => 1u16 << 1u16,
            Interrupt::VCount => 1u16 << 2u16,
            Interrupt::Timer0 => 1u16 << 3u16,
            Interrupt::Timer1 => 1u16 << 4u16,
            Interrupt::Timer2 => 1u16 << 5u16,
            Interrupt::Timer3 => 1u16 << 6u16,
            Interrupt::Serial => 1u16 << 7u16,
            Interrupt::Dma0 => 1u16 << 8u16,
            Interrupt::Dma1 => 1u16 << 9u16,
            Interrupt::Dma2 => 1u16 << 10u16,
            Interrupt::Dma3 => 1u16 << 11u16,
            Interrupt::Keypad => 1u16 << 12u16,
            Interrupt::Cartridge => 1u16 << 13u16,
        };
        self.requested = self.requested | b;
    }

    /// Whether some enabled source has a request pending.
    pub fn pending(&self) -> (r: bool)
        ensures
            r == irq_pending(*self),
    {
        self.enabled & self.requested != 0
    }

    pub fn read_byte(&self, addr: u32) -> (r: u8)
        ensures
            r == irq_byte(*self, addr),
    {
        if addr == 0x200 {
            (self.enabled & 0xff) as u8
        } else if addr == 0x201 {
            (self.enabled >> 8u16) as u8
        } else if addr == 0x202 {
            (self.requested & 0xff) as u8
        } else if addr == 0x203 {
            (self.requested >> 8u16) as u8
        } else if addr == 0x208 {
            if self.master_enabled { 1u8 } else { 0u8 }
        } else {
            0
        }
    }

    pub fn write_byte(&mut self, addr: u32, value: u8)
        ensures
            *final(self) == irq_written(*old(self), addr, value),
    {
        if addr == 0x200 {
            self.enabled = (self.enabled & 0x3f00) | (value as u16);
        } else if addr == 0x201 {
            self.enabled = (self.enabled & 0xff) | (((value & 0x3f) as u16) << 8u16);
        } else if addr == 0x202 {
            self.requested = self.requested & !(value as u16);
        } else if addr == 0x203 {
            self.requested = self.requested & !((value as u16) << 8u16);
        } else if addr == 0x208 {
            self.master_enabled = value & 1 == 1;
        }
    }
}

} // verus!
