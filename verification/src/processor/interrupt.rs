use vstd::prelude::*;
use crate::util::bitflags::Bitflags;
use crate::bus::{Readable, Writable};
use vstd::arithmetic::power2::{pow2, lemma2_to64};

verus! {

/// The five interrupt sources, from the highest priority to the lowest.
#[derive(Copy, Clone, Debug, PartialEq, Eq, Structural)]
pub enum Interrupt {
    VBlank,
    LCDCStat,
    Timer,
    Serial,
    Keypad,
}

/// The bit of an interrupt in the request and enable registers.
pub open spec fn interrupt_bit(interrupt: Interrupt) -> u8 {
    match interrupt {
        Interrupt::VBlank => 1,
        Interrupt::LCDCStat => 2,
        Interrupt::Timer => 4,
        Interrupt::Serial => 8,
        Interrupt::Keypad => 16,
    }
}

/// The address of the routine that serves an interrupt.
pub open spec fn interrupt_address(interrupt: Interrupt) -> u16 {
    match interrupt {
        Interrupt::VBlank => 0x0040,
        Interrupt::LCDCStat => 0x0048,
        Interrupt::Timer => 0x0050,
        Interrupt::Serial => 0x0058,
        Interrupt::Keypad => 0x0060,
    }
}

/// The interrupt of the lowest set bit among the five interrupt bits of `value`.
pub open spec fn highest_priority(value: u8) -> Option<Interrupt> {
    if value & 1 != 0 {
        Some(Interrupt::VBlank)
    } else if value & 2 != 0 {
        Some(Interrupt::LCDCStat)
    } else if value & 4 != 0 {
        Some(Interrupt::Timer)
    } else if value & 8 != 0 {
        Some(Interrupt::Serial)
    } else if value & 16 != 0 {
        Some(Interrupt::Keypad)
    } else {
        None
    }
}

/// The interrupt whose bit is `value`, if any.
pub open spec fn interrupt_of_bit(value: u8) -> Option<Interrupt> {
    if value == 1 {
        Some(Interrupt::VBlank)
    } else if value == 2 {
        Some(Interrupt::LCDCStat)
    } else if value == 4 {
        Some(Interrupt::Timer)
    } else if value == 8 {
        Some(Interrupt::Serial)
    } else if value == 16 {
        Some(Interrupt::Keypad)
    } else {
        None
    }
}

impl Interrupt {
    pub fn address(&self) -> (r: u16)
        ensures
            r == interrupt_address(*self),
    {
        match self {
            Interrupt::VBlank => 0x0040,
            Interrupt::LCDCStat => 0x0048,
            Interrupt::Timer => 0x0050,
            Interrupt::Serial => 0x0058,
            Interrupt::Keypad => 0x0060,
        }
    }

    /// The bit of the interrupt in the request and enable registers.
    pub fn bit(&self) -> (r: u8)
        ensures
            r == interrupt_bit(*self),
    {
        match self {
            Interrupt::VBlank => 1,
            Interrupt::LCDCStat => 2,
            Interrupt::Timer => 4,
            Interrupt::Serial => 8,
            Interrupt::Keypad => 16,
        }
    }

    /// The interrupt whose bit is `value`; `value` must be one of the five bits.
    pub fn from_bit(value: u8) -> (r: Interrupt)
        requires
            interrupt_of_bit(value) is Some,
        ensures
            Some(r) == interrupt_of_bit(value),
            interrupt_bit(r) == value,
    {
        match value {
            1 => Interrupt::VBlank,
            2 => Interrupt::LCDCStat,
            4 => Interrupt::Timer,
            8 => Interrupt::Serial,
            _ => Interrupt::Keypad,
        }
    }
}

/// An 8-bit register with one bit per interrupt.
pub struct InterruptRegister {
    register: u8,
}

impl View for InterruptRegister {
    type V = u8;

    closed spec fn view(&self) -> u8 {
        self.register
    }
}

impl InterruptRegister {
    pub fn new() -> (r: InterruptRegister)
        ensures
            r@ == 0,
    {
        InterruptRegister { register: 0 }
    }

    pub fn from_value(value: u8) -> (r: InterruptRegister)
        ensures
            r@ == value,
    {
        InterruptRegister { register: value }
    }
}

impl Bitflags<Interrupt> for InterruptRegister {
    open spec fn spec_mask(flag: Interrupt) -> u8 {
        interrupt_bit(flag)
    }

    open spec fn spec_register_of(v: u8) -> u8 {
        v
    }

    open spec fn spec_with_register(v: u8, value: u8) -> u8 {
        value
    }

    fn mask(flag: Interrupt) -> (m: u8) {
        flag.bit()
    }

    fn register(&self) -> (r: u8) {
        self.register
    }

    fn set_register(&mut self, value: u8) {
        self.register = value;
    }
}

/// The interrupt request (IF) and enable (IE) registers, and the master enable flag.
pub struct InterruptHandler {
    pub interrupt_request: InterruptRegister,
    pub interrupt_enable: InterruptRegister,
    pub interrupt_master_enable: bool,
}

impl InterruptHandler {
    /// No interrupt requested, all enabled, the master flag on.
    pub fn new() -> (r: InterruptHandler)
        ensures
            r.interrupt_request@ == 0,
            r.interrupt_enable@ == 0xFF,
            r.interrupt_master_enable,
    {
        InterruptHandler {
            interrupt_request: InterruptRegister::new(),
            interrupt_enable: InterruptRegister::from_value(0xFF),
            interrupt_master_enable: true,
        }
    }

    /// The requested and enabled interrupt of highest priority, whatever the master flag.
    pub open spec fn spec_pending(&self) -> Option<Interrupt> {
        highest_priority(self.interrupt_enable@ & self.interrupt_request@)
    }

    /// While the master flag is on, takes the requested and enabled interrupt of highest
    /// priority: its request bit is cleared and the master flag turned off.
    pub fn fetch_interrupt(&mut self) -> (r: Option<Interrupt>)
        ensures
            r == (if old(self).interrupt_master_enable { old(self).spec_pending() } else { None }),
            final(self).interrupt_enable@ == old(self).interrupt_enable@,
            r matches Some(i) ==> {
                &&& final(self).interrupt_request@ == old(self).interrupt_request@ & !interrupt_bit(i)
                &&& !final(self).interrupt_master_enable
            },
            r is None ==> final(self).interrupt_request@ == old(self).interrupt_request@
                && final(self).interrupt_master_enable == old(self).interrupt_master_enable,
    {
        if !self.interrupt_master_enable {
            return None;
        }
        match self.pending_interrupt() {
            Some(interrupt) => {
                self.service_interrupt(interrupt);
                Some(interrupt)
            },
            None => None,
        }
    }

    /// The requested and enabled interrupt of highest priority, whatever the master flag.
    pub fn pending_interrupt(&self) -> (r: Option<Interrupt>)
        ensures
            r == self.spec_pending(),
    {
        let value: u8 = self.interrupt_enable.register() & self.interrupt_request.register();
        if value & 1 != 0 {
            Some(Interrupt::VBlank)
        } else if value & 2 != 0 {
            Some(Interrupt::LCDCStat)
        } else if value & 4 != 0 {
            Some(Interrupt::Timer)
        } else if value & 8 != 0 {
            Some(Interrupt::Serial)
        } else if value & 16 != 0 {
            Some(Interrupt::Keypad)
        } else {
            None
        }
    }

    /// Clears the request bit of `interrupt` and turns the master flag off.
    pub fn service_interrupt(&mut self, interrupt: Interrupt)
        ensures
            final(self).interrupt_request@ == old(self).interrupt_request@ & !interrupt_bit(interrupt),
            final(self).interrupt_enable@ == old(self).interrupt_enable@,
            !final(self).interrupt_master_enable,
    {
        self.interrupt_master_enable = false;
        self.interrupt_request.set_flag(interrupt, false);
    }

    pub fn master_interrupt_enable(&self) -> (r: bool)
        ensures
            r == self.interrupt_master_enable,
    {
        self.interrupt_master_enable
    }

    pub fn toggle_interrupts(&mut self, value: bool)
        ensures
            final(self).interrupt_master_enable == value,
            final(self).interrupt_request@ == old(self).interrupt_request@,
            final(self).interrupt_enable@ == old(self).interrupt_enable@,
    {
        self.interrupt_master_enable = value;
    }

    /// Sets the request bit of `interrupt`.
    pub fn request_interrupt(&mut self, interrupt: Interrupt)
        ensures
            final(self).interrupt_request@ == old(self).interrupt_request@ | interrupt_bit(interrupt),
            final(self).interrupt_enable@ == old(self).interrupt_enable@,
            final(self).interrupt_master_enable == old(self).interrupt_master_enable,
    {
        self.interrupt_request.set_flag(interrupt, true);
    }
}

/// The interrupt vectors are fixed: VBlank 0x40, LCD status 0x48, timer 0x50, serial
/// 0x58, keypad 0x60, with request bits 1, 2, 4, 8 and 16. Each vector is 0x40 plus eight
/// times the position of the interrupt's bit: bit `k`, worth `2^k`, goes with
/// `0x40 + 8k`.
pub proof fn lemma_interrupt_vectors(interrupt: Interrupt)
    ensures
        interrupt == Interrupt::VBlank ==> interrupt_address(interrupt) == 0x40 && interrupt_bit(interrupt) == 1,
        interrupt == Interrupt::LCDCStat ==> interrupt_address(interrupt) == 0x48 && interrupt_bit(interrupt) == 2,
        interrupt == Interrupt::Timer ==> interrupt_address(interrupt) == 0x50 && interrupt_bit(interrupt) == 4,
        interrupt == Interrupt::Serial ==> interrupt_address(interrupt) == 0x58 && interrupt_bit(interrupt) == 8,
        interrupt == Interrupt::Keypad ==> interrupt_address(interrupt) == 0x60 && interrupt_bit(interrupt) == 16,
        0x40 <= interrupt_address(interrupt) <= 0x60,
        interrupt_address(interrupt) % 8 == 0,
        interrupt_bit(interrupt) == pow2(((interrupt_address(interrupt) - 0x40) / 8) as nat),
{
    lemma2_to64();
}

/// The interrupt taken from a set of pending bits is that of the lowest set bit among
/// the five: its bit is set, and every lower bit is clear; there is none exactly when the
/// five low bits are all clear.
pub proof fn lemma_interrupt_priority(value: u8)
    ensures
        highest_priority(value) is None <==> value % 32 == 0,
        highest_priority(value) matches Some(i) ==> (value / interrupt_bit(i)) % 2 == 1
            && value % interrupt_bit(i) == 0,
{
    assert(
        ((value & 1 != 0) == ((value / 1) % 2 == 1))
        && (value & 1 == 0 ==> (value & 2 != 0) == ((value / 2) % 2 == 1) && value % 2 == 0)
        && (value & 1 == 0 && value & 2 == 0 ==> (value & 4 != 0) == ((value / 4) % 2 == 1) && value % 4 == 0)
        && (value & 1 == 0 && value & 2 == 0 && value & 4 == 0 ==> (value & 8 != 0) == ((value / 8) % 2 == 1)
            && value % 8 == 0)
        && (value & 1 == 0 && value & 2 == 0 && value & 4 == 0 && value & 8 == 0 ==> (value & 16 != 0) == ((value
            / 16) % 2 == 1) && value % 16 == 0)
        && ((value & 1 == 0 && value & 2 == 0 && value & 4 == 0 && value & 8 == 0 && value & 16 == 0) == (value
            % 32 == 0))
    ) by (bit_vector);
}

} // verus!

verus! {

impl View for InterruptHandler {
    /// The request register, the enable register and the master flag.
    type V = (u8, u8, bool);

    open spec fn view(&self) -> (u8, u8, bool) {
        (self.interrupt_request@, self.interrupt_enable@, self.interrupt_master_enable)
    }
}

impl Readable for InterruptHandler {
    /// 0xFFFF reads the master flag as 0 or 1, 0xFF0F the request register, anything
    /// else 0.
    open spec fn spec_read(v: (u8, u8, bool), address: u16) -> u8 {
        if address == 0xFFFF {
            if v.2 { 1 } else { 0 }
        } else if address == 0xFF0F {
            v.0
        } else {
            0
        }
    }

    fn read(&self, address: u16) -> (r: u8) {
        match address {
            0xFFFF => if self.interrupt_master_enable { 1 } else { 0 },
            0xFF0F => self.interrupt_request.register,
            _ => 0,
        }
    }
}

impl Writable for InterruptHandler {
    /// 0xFFFF sets the master flag to whether the value is 1, 0xFF0F sets the request
    /// register, anything else is ignored.
    open spec fn spec_write(v: (u8, u8, bool), address: u16, value: u8) -> (u8, u8, bool) {
        if address == 0xFFFF {
            (v.0, v.1, value == 1)
        } else if address == 0xFF0F {
            (value, v.1, v.2)
        } else {
            v
        }
    }

    fn write(&mut self, address: u16, value: u8) {
        match address {
            0xFFFF => self.interrupt_master_enable = value == 1,
            0xFF0F => self.interrupt_request.register = value,
            _ => {},
        }
    }
}

} // verus!
