use vstd::prelude::*;

verus! {

/// The joypad register (P1): which of the two button groups is selected (bits 4 and 5,
/// 0 selecting) and which buttons are held (1 for held: directions right, left, up and
/// down in bits 0-3; buttons A, B, Select and Start in bits 4-7).
#[derive(Debug, Copy, Clone, PartialEq, Eq, Structural)]
pub struct Joypad {
    pub select: u8,
    pub pressed: u8,
}

/// The byte the register reads as: the two unused bits set, the selection, and the held
/// buttons of the selected groups as 0 bits.
pub open spec fn spec_joypad_read(j: Joypad) -> u8 {
    let directions = if j.select & 0x10 == 0 { j.pressed & 0x0F } else { 0 };
    let actions = if j.select & 0x20 == 0 { j.pressed >> 4u8 } else { 0 };
    (0xC0 | (j.select & 0x30) | (!(directions | actions) & 0x0F)) as u8
}

impl Joypad {
    /// No group selected, no button held.
    pub fn new() -> (r: Joypad)
        ensures
            r == (Joypad { select: 0x30, pressed: 0 }),
    {
        Joypad { select: 0x30, pressed: 0 }
    }

    /// Sets which buttons are held.
    pub fn set_pressed(&mut self, pressed: u8)
        ensures
            *final(self) == (Joypad { pressed, ..*old(self) }),
    {
        self.pressed = pressed;
    }

    pub fn read(&self) -> (r: u8)
        ensures
            r == spec_joypad_read(*self),
    {
        let directions: u8 = if self.select & 0x10 == 0 { self.pressed & 0x0F } else { 0 };
        let actions: u8 = if self.select & 0x20 == 0 { self.pressed >> 4 } else { 0 };
        0xC0 | (self.select & 0x30) | (!(directions | actions) & 0x0F)
    }

    /// Selects the button groups; only bits 4 and 5 are written.
    pub fn write(&mut self, value: u8)
        ensures
            *final(self) == (Joypad { select: value & 0x30, ..*old(self) }),
    {
        self.select = value & 0x30;
    }
}


/// The joypad register reads bits 6 and 7 as 1 and bits 4 and 5 as the selection. Bit
/// `k` of the low four reads 0 exactly when a selected group has its button `k` held:
/// the directions (pressed bit `k`) when bit 4 of the selection is 0, the buttons
/// (pressed bit `k + 4`) when bit 5 is 0.
pub proof fn lemma_joypad_read(j: Joypad, k: u8)
    requires
        k < 4,
    ensures
        spec_joypad_read(j) / 64 == 3,
        (spec_joypad_read(j) / 16) % 4 == (j.select / 16) % 4,
        ((spec_joypad_read(j) >> k) & 1 == 0) == (
            ((j.select / 16) % 2 == 0 && (j.pressed >> k) & 1 == 1)
            || ((j.select / 32) % 2 == 0 && (j.pressed >> ((k + 4) as u8)) & 1 == 1)),
{
    let s = j.select;
    let p = j.pressed;
    assert(({
        let directions: u8 = if s & 0x10 == 0 { p & 0x0F } else { 0 };
        let actions: u8 = if s & 0x20 == 0 { p >> 4u8 } else { 0 };
        let r: u8 = (0xC0 | (s & 0x30) | (!(directions | actions) & 0x0F)) as u8;
        &&& r / 64 == 3
        &&& (r / 16) % 4 == (s / 16) % 4
        &&& ((r >> k) & 1 == 0) == (((s / 16) % 2 == 0 && (p >> k) & 1 == 1)
            || ((s / 32) % 2 == 0 && (p >> ((k + 4) as u8)) & 1 == 1))
    })) by (bit_vector)
        requires
            k < 4,
    ;
}

} // verus!
