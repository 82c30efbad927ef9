//! The display control and display status registers of the video unit.
use vstd::prelude::*;

verus! {

/// `1 << n` if `b`, else 0.
pub open spec fn flag8(b: bool, n: u8) -> u8 {
    if b {
        (1u8 << n) as u8
    } else {
        0
    }
}

/// Whether bit `n` of `x` is set.
pub open spec fn bit8(x: u8, n: u8) -> bool {
    (x >> n) & 1 == 1
}

fn put(bits: u8, b: bool, n: u8) -> (r: u8)
    requires
        n < 8,
    ensures
        r == bits | flag8(b, n),
{
    if b {
        bits | (1u8 << n)
    } else {
        assert(bits | 0u8 == bits) by (bit_vector);
        bits
    }
}

fn get(bits: u8, n: u8) -> (r: bool)
    requires
        n < 8,
    ensures
        r == bit8(bits, n),
{
    (bits >> n) & 1 == 1
}

/// DISPCNT: display mode, frame select and which layers are shown.
pub struct DisplayControl {
    pub mode: u8,
    pub frame_select: u8,
    pub hblank_oam_access: bool,
    pub obj_1d: bool,
    pub forced_blank: bool,
    pub display_bg: [bool; 4],
    pub display_obj: bool,
    pub display_window: [bool; 2],
    pub display_obj_window: bool,
}

/// The low byte of DISPCNT.
pub open spec fn dispcnt_lo(d: DisplayControl) -> u8 {
    (d.mode & 7) | flag8(d.frame_select & 1 == 1, 4) | flag8(d.hblank_oam_access, 5) | flag8(
        d.obj_1d,
        6,
    ) | flag8(d.forced_blank, 7)
}

/// The high byte of DISPCNT.
pub open spec fn dispcnt_hi(d: DisplayControl) -> u8 {
    flag8(d.display_bg@[0], 0) | flag8(d.display_bg@[1], 1) | flag8(d.display_bg@[2], 2) | flag8(
        d.display_bg@[3],
        3,
    ) | flag8(d.display_obj, 4) | flag8(d.display_window@[0], 5) | flag8(d.display_window@[1], 6)
        | flag8(d.display_obj_window, 7)
}

impl DisplayControl {
    pub fn new() -> (r: DisplayControl)
        ensures
            r.mode == 0 && r.frame_select == 0,
            !r.hblank_oam_access && !r.obj_1d && !r.forced_blank,
            r.display_bg@ == seq![false, false, false, false],
            r.display_window@ == seq![false, false],
            !r.display_obj && !r.display_obj_window,
    {
        let r = DisplayControl {
            mode: 0,
            frame_select: 0,
            hblank_oam_access: false,
            obj_1d: false,
            forced_blank: false,
            display_bg: [false; 4],
            display_obj: false,
            display_window: [false; 2],
            display_obj_window: false,
        };
        assert(r.display_bg@ =~= seq![false, false, false, false]);
        assert(r.display_window@ =~= seq![false, false]);
        r
    }

    pub fn lo_bits(&self) -> (r: u8)
        ensures
            r == dispcnt_lo(*self),
    {
        let mut bits: u8 = self.mode & 7;
        bits = put(bits, self.frame_select & 1 == 1, 4);
        bits = put(bits, self.hblank_oam_access, 5);
        bits = put(bits, self.obj_1d, 6);
        bits = put(bits, self.forced_blank, 7);
        bits
    }

    pub fn hi_bits(&self) -> (r: u8)
        ensures
            r == dispcnt_hi(*self),
    {
        let mut bits: u8 = 0;
        bits = put(bits, self.display_bg[0], 0);
        assert(0u8 | flag8(self.display_bg@[0], 0) == flag8(self.display_bg@[0], 0)) by {
            let f = flag8(self.display_bg@[0], 0);
            assert(0u8 | f == f) by (bit_vector);
        }
        bits = put(bits, self.display_bg[1], 1);
        bits = put(bits, self.display_bg[2], 2);
        bits = put(bits, self.display_bg[3], 3);
        bits = put(bits, self.display_obj, 4);
        bits = put(bits, self.display_window[0], 5);
        bits = put(bits, self.display_window[1], 6);
        bits = put(bits, self.display_obj_window, 7);
        bits
    }

    pub fn set_lo_bits(&mut self, bits: u8)
        ensures
            final(self).mode == bits & 7,
            final(self).frame_select == (bits >> 4u8) & 1,
            final(self).hblank_oam_access == bit8(bits, 5),
            final(self).obj_1d == bit8(bits, 6),
            final(self).forced_blank == bit8(bits, 7),
            final(self).display_bg == old(self).display_bg,
            final(self).display_obj == old(self).display_obj,
            final(self).display_window == old(self).display_window,
            final(self).display_obj_window == old(self).display_obj_window,
    {
        self.mode = bits & 7;
        self.frame_select = (bits >> 4u8) & 1;
        self.hblank_oam_access = get(bits, 5);
        self.obj_1d = get(bits, 6);
        self.forced_blank = get(bits, 7);
    }

    pub fn set_hi_bits(&mut self, bits: u8)
        ensures
            final(self).display_bg@ == seq![bit8(bits, 0), bit8(bits, 1), bit8(bits, 2), bit8(bits, 3)],
            final(self).display_obj == bit8(bits, 4),
            final(self).display_window@ == seq![bit8(bits, 5), bit8(bits, 6)],
            final(self).display_obj_window == bit8(bits, 7),
            final(self).mode == old(self).mode,
            final(self).frame_select == old(self).frame_select,
            final(self).hblank_oam_access == old(self).hblank_oam_access,
            final(self).obj_1d == old(self).obj_1d,
            final(self).forced_blank == old(self).forced_blank,
    {
        self.display_bg[0] = get(bits, 0);
        self.display_bg[1] = get(bits, 1);
        self.display_bg[2] = get(bits, 2);
        self.display_bg[3] = get(bits, 3);
        self.display_obj = get(bits, 4);
        self.display_window[0] = get(bits, 5);
        self.display_window[1] = get(bits, 6);
        self.display_obj_window = get(bits, 7);
        assert(self.display_bg@ =~= seq![bit8(bits, 0), bit8(bits, 1), bit8(bits, 2), bit8(bits, 3)]);
        assert(self.display_window@ =~= seq![bit8(bits, 5), bit8(bits, 6)]);
    }
}

/// DISPSTAT: interrupt enables and the vertical count target.
pub struct DisplayStatus {
    pub vblank_irq_enabled: bool,
    pub hblank_irq_enabled: bool,
    pub vcount_irq_enabled: bool,
    pub unused_bit7: bool,
    pub vcount_target: u8,
}

/// The low byte of DISPSTAT, given the blanking flags and current line.
pub open spec fn dispstat_lo(d: DisplayStatus, vblanking: bool, hblanking: bool, vcount: u8) -> u8 {
    flag8(vblanking, 0) | flag8(hblanking, 1) | flag8(vcount == d.vcount_target, 2) | flag8(
        d.vblank_irq_enabled,
        3,
    ) | flag8(d.hblank_irq_enabled, 4) | flag8(d.vcount_irq_enabled, 5) | flag8(d.unused_bit7, 7)
}

impl DisplayStatus {
    pub fn new() -> (r: DisplayStatus)
        ensures
            !r.vblank_irq_enabled && !r.hblank_irq_enabled && !r.vcount_irq_enabled,
            !r.unused_bit7 && r.vcount_target == 0,
    {
        DisplayStatus {
            vblank_irq_enabled: false,
            hblank_irq_enabled: false,
            vcount_irq_enabled: false,
            unused_bit7: false,
            vcount_target: 0,
        }
    }

    pub fn lo_bits(&self, vblanking: bool, hblanking: bool, vcount: u8) -> (r: u8)
        ensures
            r == dispstat_lo(*self, vblanking, hblanking, vcount),
    {
        let mut bits: u8 = 0;
        bits = put(bits, vblanking, 0);
        assert(0u8 | flag8(vblanking, 0) == flag8(vblanking, 0)) by {
            let f = flag8(vblanking, 0);
            assert(0u8 | f == f) by (bit_vector);
        }
        bits = put(bits, hblanking, 1);
        bits = put(bits, vcount == self.vcount_target, 2);
        bits = put(bits, self.vblank_irq_enabled, 3);
        bits = put(bits, self.hblank_irq_enabled, 4);
        bits = put(bits, self.vcount_irq_enabled, 5);
        bits = put(bits, self.unused_bit7, 7);
        bits
    }

    /// Sets the writable bits (3, 4, 5 and 7); the status bits are read-only.
    pub fn set_lo_bits(&mut self, bits: u8)
        ensures
            final(self).vblank_irq_enabled == bit8(bits, 3),
            final(self).hblank_irq_enabled == bit8(bits, 4),
            final(self).vcount_irq_enabled == bit8(bits, 5),
            final(self).unused_bit7 == bit8(bits, 7),
            final(self).vcount_target == old(self).vcount_target,
    {
        self.vblank_irq_enabled = get(bits, 3);
        self.hblank_irq_enabled = get(bits, 4);
        self.vcount_irq_enabled = get(bits, 5);
        self.unused_bit7 = get(bits, 7);
    }
}

} // verus!
