use vstd::prelude::*;
use crate::processor::interrupt::{Interrupt, InterruptHandler};
use crate::video::request_if;

verus! {

/// The counter periods, in cycles, that the timer control selects with its two low bits.
pub open spec fn clock_speed(selector: u8) -> usize {
    if selector & 0b11 == 0 {
        1024
    } else if selector & 0b11 == 1 {
        16
    } else if selector & 0b11 == 2 {
        64
    } else {
        256
    }
}

/// The period of `selector` (its two low bits).
fn clock_speed_of(selector: u8) -> (r: usize)
    ensures
        r == clock_speed(selector),
{
    let bits: u8 = selector & 0b11;
    if bits == 0 {
        1024
    } else if bits == 1 {
        16
    } else if bits == 2 {
        64
    } else {
        256
    }
}

/// The selector of a counter period.
pub open spec fn speed_selector(cycles_per_tick: usize) -> u8 {
    if cycles_per_tick == 16 {
        1
    } else if cycles_per_tick == 64 {
        2
    } else if cycles_per_tick == 256 {
        3
    } else {
        0
    }
}

/// Whether the timer control can select this period.
pub open spec fn valid_speed(cycles_per_tick: usize) -> bool {
    cycles_per_tick == 1024 || cycles_per_tick == 16 || cycles_per_tick == 64 || cycles_per_tick == 256
}

/// What a tick of a counter tells.
#[derive(Debug, Copy, Clone, PartialEq, Eq, Structural)]
pub enum ClockResult {
    /// The value went past 255 and back to 0.
    Overflow,
    /// The value did not wrap.
    NoOverflow,
}

/// An 8-bit counter that counts up once every `cycles_per_tick` cycles.
#[derive(Debug, Copy, Clone, PartialEq, Eq, Structural)]
pub struct Counter {
    pub cycles_per_tick: usize,
    pub cycles_left: usize,
    pub value: u8,
}

/// One cycle of a counter: the cycles left count down, and when they run out the value
/// goes up by one (wrapping) and the period starts again. The flag tells whether it
/// wrapped.
pub open spec fn spec_counter_clock(c: Counter) -> (Counter, bool) {
    let left = if c.cycles_left > 0 { (c.cycles_left - 1) as usize } else { 0usize };
    if left == 0 {
        (Counter { cycles_left: c.cycles_per_tick, value: ((c.value + 1) % 256) as u8, ..c }, c.value == 255)
    } else {
        (Counter { cycles_left: left, ..c }, false)
    }
}

/// A counter after `k` cycles.
pub open spec fn counter_clocks(c: Counter, k: nat) -> Counter
    decreases k,
{
    if k == 0 {
        c
    } else {
        spec_counter_clock(counter_clocks(c, (k - 1) as nat)).0
    }
}

/// Within a full period the counter only counts down its cycles.
proof fn lemma_counter_countdown(c: Counter, k: nat)
    requires
        c.cycles_left == c.cycles_per_tick,
        k < c.cycles_per_tick,
    ensures
        counter_clocks(c, k) == (Counter { cycles_left: (c.cycles_per_tick - k) as usize, ..c }),
    decreases k,
{
    if k > 0 {
        lemma_counter_countdown(c, (k - 1) as nat);
    }
}

/// A counter started on a full period of `n` cycles (`n` at least 1) keeps its value for
/// the first `n - 1` cycles, none of which reports a wrap; the `n`-th cycle adds one to
/// the value, reports a wrap exactly when the value was 255, and starts a full period
/// again.
pub proof fn lemma_counter_period(c: Counter, k: nat)
    requires
        c.cycles_per_tick >= 1,
        c.cycles_left == c.cycles_per_tick,
        1 <= k <= c.cycles_per_tick,
    ensures
        k < c.cycles_per_tick ==> counter_clocks(c, k) == (Counter { cycles_left: (c.cycles_per_tick - k) as usize, ..c })
            && !spec_counter_clock(counter_clocks(c, (k - 1) as nat)).1,
        k == c.cycles_per_tick ==> counter_clocks(c, k) == (Counter { value: ((c.value + 1) % 256) as u8, ..c })
            && spec_counter_clock(counter_clocks(c, (k - 1) as nat)).1 == (c.value == 255),
{
    lemma_counter_countdown(c, (k - 1) as nat);
    if k < c.cycles_per_tick {
        lemma_counter_countdown(c, k);
    }
}

impl Counter {
    /// A counter at 0 with a full period ahead.
    pub fn new(cycles_per_tick: usize) -> (r: Self)
        ensures
            r == (Counter { cycles_per_tick, cycles_left: cycles_per_tick, value: 0 }),
    {
        Counter { cycles_per_tick, cycles_left: cycles_per_tick, value: 0 }
    }

    /// One cycle of the counter.
    pub fn clock(&mut self) -> (r: ClockResult)
        ensures
            (*final(self), r == ClockResult::Overflow) == spec_counter_clock(*old(self)),
    {
        self.cycles_left = if self.cycles_left > 0 { self.cycles_left - 1 } else { 0 };
        if self.cycles_left == 0 {
            self.cycles_left = self.cycles_per_tick;
            let overflow = self.value == 255;
            self.value = if overflow { 0 } else { self.value + 1 };
            if overflow {
                ClockResult::Overflow
            } else {
                ClockResult::NoOverflow
            }
        } else {
            ClockResult::NoOverflow
        }
    }

    pub fn cycles_per_tick(&self) -> (r: usize)
        ensures
            r == self.cycles_per_tick,
    {
        self.cycles_per_tick
    }

    /// Changes the period; the cycles left in the current one are kept.
    pub fn set_cycles_per_tick(&mut self, value: usize)
        ensures
            *final(self) == (Counter { cycles_per_tick: value, ..*old(self) }),
    {
        self.cycles_per_tick = value;
    }
}

/// The timer as plain values.
pub struct TimerView {
    pub counter_enabled: bool,
    pub divider: Counter,
    pub counter: Counter,
    pub modulo: u8,
}

/// The timer: the divider register, and a counter that restarts from the modulo and
/// requests the timer interrupt when it wraps.
pub struct Timer {
    counter_enabled: bool,
    divider: Counter,
    counter: Counter,
    modulo: u8,
}

impl View for Timer {
    type V = TimerView;

    closed spec fn view(&self) -> TimerView {
        TimerView {
            counter_enabled: self.counter_enabled,
            divider: self.divider,
            counter: self.counter,
            modulo: self.modulo,
        }
    }
}

/// One cycle of the timer.
pub open spec fn spec_timer_clock(t: TimerView, ih: (u8, u8, bool)) -> (TimerView, (u8, u8, bool)) {
    let (divider, _) = spec_counter_clock(t.divider);
    if t.counter_enabled {
        let (counter, overflow) = spec_counter_clock(t.counter);
        let counter = if overflow { Counter { value: t.modulo, ..counter } } else { counter };
        (TimerView { divider, counter, ..t }, request_if(ih, overflow, Interrupt::Timer))
    } else {
        (TimerView { divider, ..t }, ih)
    }
}

/// The byte the timer answers at one of its four registers.
pub open spec fn spec_timer_read(t: TimerView, address: u16) -> u8 {
    if address == 0xFF04 {
        t.divider.value
    } else if address == 0xFF05 {
        t.counter.value
    } else if address == 0xFF06 {
        t.modulo
    } else {
        (speed_selector(t.counter.cycles_per_tick) | (if t.counter_enabled { 4u8 } else { 0u8 })) as u8
    }
}

/// The timer after a write at one of its four registers; a write of the divider resets
/// it to 0.
pub open spec fn spec_timer_write(t: TimerView, address: u16, value: u8) -> TimerView {
    if address == 0xFF04 {
        TimerView { divider: Counter { value: 0, ..t.divider }, ..t }
    } else if address == 0xFF05 {
        TimerView { counter: Counter { value: value, ..t.counter }, ..t }
    } else if address == 0xFF06 {
        TimerView { modulo: value, ..t }
    } else {
        TimerView {
            counter_enabled: value & 0b100 != 0,
            counter: Counter { cycles_per_tick: clock_speed(value), ..t.counter },
            ..t
        }
    }
}

/// Whether an address is one of the timer's registers.
pub open spec fn is_timer_address(address: u16) -> bool {
    0xFF04 <= address <= 0xFF07
}

impl Timer {
    /// The timer at power-on.
    pub open spec fn new_view() -> TimerView {
        TimerView {
            counter_enabled: true,
            divider: Counter { cycles_per_tick: 256, cycles_left: 256, value: 0 },
            counter: Counter { cycles_per_tick: 1024, cycles_left: 1024, value: 0 },
            modulo: 0,
        }
    }

    /// The counter period is one that the control can select.
    #[verifier::type_invariant]
    closed spec fn inv(&self) -> bool {
        valid_speed(self.counter.cycles_per_tick)
    }

    /// The timer at power-on: enabled, the divider every 256 cycles, the counter every
    /// 1024, both at 0, the modulo 0.
    pub fn new() -> (r: Timer)
        ensures
            r@ == Timer::new_view(),
    {
        Timer {
            counter_enabled: true,
            divider: Counter::new(256),
            counter: Counter::new(1024),
            modulo: 0,
        }
    }

    /// One cycle of the timer.
    pub fn clock(&mut self, interrupt_handler: &mut InterruptHandler)
        ensures
            (final(self)@, final(interrupt_handler)@) == spec_timer_clock(old(self)@, old(interrupt_handler)@),
    {
        proof {
            use_type_invariant(&*self);
        }
        if self.counter_enabled {
            let mut counter = self.counter;
            let result = counter.clock();
            if result == ClockResult::Overflow {
                counter.value = self.modulo;
                interrupt_handler.request_interrupt(Interrupt::Timer);
            }
            self.counter = counter;
        }
        let mut divider = self.divider;
        divider.clock();
        self.divider = divider;
    }

    /// The timer control byte: the period selector and the enable bit.
    fn control(&self) -> (r: u8)
        ensures
            r == spec_timer_read(self@, 0xFF07),
    {
        proof {
            use_type_invariant(self);
        }
        let cycles = self.counter.cycles_per_tick();
        let clock_speed: u8 = if cycles == 1024 {
            0
        } else if cycles == 16 {
            1
        } else if cycles == 64 {
            2
        } else {
            3
        };
        let enabled: u8 = if self.counter_enabled { 1 } else { 0 };
        assert(clock_speed | (enabled << 2u8) == clock_speed | (if enabled == 1 { 4u8 } else { 0u8 })) by (bit_vector)
            requires
                enabled == 0 || enabled == 1,
        ;
        clock_speed | (enabled << 2)
    }

    /// Sets the enable bit and the period from a control byte.
    fn set_control(&mut self, value: u8)
        ensures
            final(self)@ == spec_timer_write(old(self)@, 0xFF07, value),
    {
        proof {
            use_type_invariant(&*self);
        }
        let mut counter = self.counter;
        counter.set_cycles_per_tick(clock_speed_of(value));
        self.counter = counter;
        self.counter_enabled = (value & 0b100) != 0;
    }

    /// Reads a register of the timer.
    pub fn read(&self, address: u16) -> (r: u8)
        requires
            is_timer_address(address),
        ensures
            r == spec_timer_read(self@, address),
    {
        if address == 0xFF04 {
            self.divider.value
        } else if address == 0xFF05 {
            self.counter.value
        } else if address == 0xFF06 {
            self.modulo
        } else {
            self.control()
        }
    }

    /// Writes a register of the timer.
    pub fn write(&mut self, address: u16, value: u8)
        requires
            is_timer_address(address),
        ensures
            final(self)@ == spec_timer_write(old(self)@, address, value),
    {
        proof {
            use_type_invariant(&*self);
        }
        if address == 0xFF04 {
            self.divider.value = 0;
        } else if address == 0xFF05 {
            self.counter.value = value;
        } else if address == 0xFF06 {
            self.modulo = value;
        } else {
            self.set_control(value);
        }
    }
}

/// The timer control reads back the enable bit and the period selector written to it.
pub proof fn lemma_control_round_trip(t: TimerView, value: u8)
    ensures
        spec_timer_read(spec_timer_write(t, 0xFF07, value), 0xFF07) == value & 0b111,
{
    let s = value & 0b11;
    assert(value & 0b111 == (s | (if value & 0b100 != 0 { 4u8 } else { 0u8 }))
        && (s == 0 || s == 1 || s == 2 || s == 3)) by (bit_vector)
        requires
            s == value & 0b11,
    ;
}

/// A write of the divider sets it to 0, whatever is written.
pub proof fn lemma_divider_reset(t: TimerView, value: u8)
    ensures
        spec_timer_read(spec_timer_write(t, 0xFF04, value), 0xFF04) == 0,
{
}


/// The counter periods, in cycles, that the two low bits of the timer control select.
pub open spec fn control_periods() -> Seq<int> {
    seq![1024, 16, 64, 256]
}

/// After a write of `value` to the timer control (0xFF07), the counter counts once every
/// `[1024, 16, 64, 256][value % 4]` cycles and runs exactly when bit 2 of the value is
/// set; the control then reads back as the three low bits of the value. The counter's
/// value and the cycles left in its period, the divider and the modulo are kept.
pub proof fn lemma_timer_control_write(t: TimerView, value: u8)
    ensures
        spec_timer_write(t, 0xFF07, value).counter.cycles_per_tick == control_periods()[(value % 4) as int],
        spec_timer_write(t, 0xFF07, value).counter_enabled == ((value / 4) % 2 == 1),
        spec_timer_read(spec_timer_write(t, 0xFF07, value), 0xFF07) == value % 8,
        spec_timer_write(t, 0xFF07, value).counter.value == t.counter.value,
        spec_timer_write(t, 0xFF07, value).counter.cycles_left == t.counter.cycles_left,
        spec_timer_write(t, 0xFF07, value).divider == t.divider,
        spec_timer_write(t, 0xFF07, value).modulo == t.modulo,
{
    assert(value & 0b11 == value % 4) by (bit_vector);
    assert((value & 0b100 != 0) == ((value / 4) % 2 == 1)) by (bit_vector);
    let low: u8 = value & 0b11;
    let high: u8 = if value & 0b100 != 0 { 4u8 } else { 0u8 };
    assert((low | high) == value % 8) by (bit_vector)
        requires
            low == value & 0b11,
            high == (if value & 0b100 != 0 { 4u8 } else { 0u8 }),
    ;
}


/// On the cycle where an enabled counter wraps (its value is 255 and its period runs
/// out), it restarts from the modulo and the timer interrupt is requested: bit 2 (worth
/// 4) of the request register is set and its other bits are kept. On every other cycle
/// the interrupt registers are kept.
pub proof fn lemma_timer_overflow(t: TimerView, ih: (u8, u8, bool))
    requires
        t.counter_enabled,
    ensures
        ({
            let (t2, ih2) = spec_timer_clock(t, ih);
            let wraps = t.counter.value == 255 && t.counter.cycles_left <= 1;
            &&& wraps ==> t2.counter.value == t.modulo && (ih2.0 / 4) % 2 == 1 && ih2.0 % 4 == ih.0 % 4
                && ih2.0 / 8 == ih.0 / 8
            &&& !wraps ==> ih2.0 == ih.0
            &&& ih2.1 == ih.1 && ih2.2 == ih.2
        }),
{
    crate::processor::interrupt::lemma_interrupt_vectors(Interrupt::Timer);
    let r = ih.0;
    assert(((r | 4) as u8 / 4) % 2 == 1 && (r | 4) as u8 % 4 == r % 4 && (r | 4) as u8 / 8 == r / 8) by (bit_vector);
}

} // verus!
