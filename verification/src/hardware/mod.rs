pub mod joypad;
pub mod timer;

use vstd::prelude::*;
use crate::bus::{Bus, Readable, Writable};
use crate::cartridge::{Cartridge, CartridgeView};
use crate::config::Config;
use crate::hardware::joypad::{Joypad, spec_joypad_read};
use crate::hardware::timer::{Timer, TimerView, is_timer_address, spec_timer_read, spec_timer_write};
use crate::processor::interrupt::{Interrupt, InterruptHandler, highest_priority, interrupt_bit};
use crate::video::{Video, VideoView, is_video_address, spec_video_read, spec_video_write};

verus! {

/// The hardware around the processor, as plain values.
pub struct HardwareView {
    pub cartridge: CartridgeView,
    /// The request register, the enable register and the master flag.
    pub interrupts: (u8, u8, bool),
    pub joypad: Joypad,
    pub timer: TimerView,
    pub video: VideoView,
    pub internal_ram: Seq<u8>,
    pub high_ram: Seq<u8>,
}

/// The hardware around the processor: the cartridge, the interrupt registers, the
/// joypad, the timer, the video hardware and the two RAMs. It maps the address space.
pub struct Hardware {
    pub cartridge: Cartridge,
    pub interrupt_handler: InterruptHandler,
    pub joypad: Joypad,
    pub timer: Timer,
    pub video: Video,
    pub internal_ram: [u8; 8192],
    pub high_ram: [u8; 127],
}

impl View for Hardware {
    type V = HardwareView;

    open spec fn view(&self) -> HardwareView {
        HardwareView {
            cartridge: self.cartridge@,
            interrupts: self.interrupt_handler@,
            joypad: self.joypad,
            timer: self.timer@,
            video: self.video@,
            internal_ram: self.internal_ram@,
            high_ram: self.high_ram@,
        }
    }
}

/// Whether the cartridge answers at an address: its ROM and its RAM.
pub open spec fn is_cartridge_address(address: u16) -> bool {
    address <= 0x7FFF || (0xA000 <= address <= 0xBFFF)
}

/// The byte at an address of the memory map. The DMA register (0xFF46) reads as 0, and
/// so does every address that nothing answers at.
pub open spec fn spec_hardware_read(v: HardwareView, address: u16) -> u8 {
    if is_cartridge_address(address) {
        Cartridge::spec_read(v.cartridge, address)
    } else if address == 0xFF46 {
        0
    } else if is_video_address(address) {
        spec_video_read(v.video, address)
    } else if 0xC000 <= address <= 0xDFFF {
        v.internal_ram[address - 0xC000]
    } else if 0xE000 <= address <= 0xFDFF {
        v.internal_ram[address - 0xE000]
    } else if address == 0xFF00 {
        spec_joypad_read(v.joypad)
    } else if is_timer_address(address) {
        spec_timer_read(v.timer, address)
    } else if address == 0xFF0F || address == 0xFFFF {
        InterruptHandler::spec_read(v.interrupts, address)
    } else if 0xFF80 <= address <= 0xFFFE {
        v.high_ram[address - 0xFF80]
    } else {
        0
    }
}

/// The hardware after a write at an address other than the DMA register; a write where
/// nothing answers changes nothing.
pub open spec fn spec_hardware_store(v: HardwareView, address: u16, value: u8) -> HardwareView {
    if is_cartridge_address(address) {
        HardwareView { cartridge: Cartridge::spec_write(v.cartridge, address, value), ..v }
    } else if address == 0xFF46 {
        v
    } else if is_video_address(address) {
        HardwareView { video: spec_video_write(v.video, address, value), ..v }
    } else if 0xC000 <= address <= 0xDFFF {
        HardwareView { internal_ram: v.internal_ram.update(address - 0xC000, value), ..v }
    } else if 0xE000 <= address <= 0xFDFF {
        HardwareView { internal_ram: v.internal_ram.update(address - 0xE000, value), ..v }
    } else if address == 0xFF00 {
        HardwareView { joypad: Joypad { select: value & 0x30, ..v.joypad }, ..v }
    } else if is_timer_address(address) {
        HardwareView { timer: spec_timer_write(v.timer, address, value), ..v }
    } else if address == 0xFF0F || address == 0xFFFF {
        HardwareView { interrupts: InterruptHandler::spec_write(v.interrupts, address, value), ..v }
    } else if 0xFF80 <= address <= 0xFFFE {
        HardwareView { high_ram: v.high_ram.update(address - 0xFF80, value), ..v }
    } else {
        v
    }
}

/// The first `n` bytes of a DMA transfer: byte `i` read at `from + i` and stored at
/// `to + i`, one after the other.
pub open spec fn spec_dma(v: HardwareView, from: u16, to: u16, n: nat) -> HardwareView
    decreases n,
{
    if n == 0 {
        v
    } else {
        let i = (n - 1) as int;
        let previous = spec_dma(v, from, to, (n - 1) as nat);
        spec_hardware_store(previous, (to + i) as u16, spec_hardware_read(previous, (from + i) as u16))
    }
}

/// The hardware after a write at an address: a write of the DMA register copies the 160
/// bytes at `value * 0x100` into the object attribute memory.
pub open spec fn spec_hardware_write(v: HardwareView, address: u16, value: u8) -> HardwareView {
    if address == 0xFF46 {
        spec_dma(v, (value as u16 * 0x100) as u16, 0xFE00, 0xA0)
    } else {
        spec_hardware_store(v, address, value)
    }
}

/// One cycle of the timer, then `cycles` cycles of the video hardware. The flag tells
/// whether VBlank was entered.
pub open spec fn spec_hardware_clock(v: HardwareView, cycles: u8) -> (HardwareView, bool) {
    let (timer, ih1) = crate::hardware::timer::spec_timer_clock(v.timer, v.interrupts);
    let (video, ih2, vblank) = crate::video::spec_video_clock(v.video, ih1, cycles);
    (HardwareView { timer, video, interrupts: ih2, ..v }, vblank)
}

impl Hardware {
    /// The hardware at power-on around the cartridge of the configuration.
    pub fn new(config: Config) -> (r: Hardware)
        ensures
            r.cartridge@ == config.cartridge@,
            r.interrupt_handler@ == (0u8, 0xFFu8, true),
            r.timer@ == Timer::new_view(),
            r@.joypad == (Joypad { select: 0x30, pressed: 0 }),
            r@.video == crate::video::initial_video(),
            r@.internal_ram == Seq::new(8192, |i: int| 0u8),
            r@.high_ram == Seq::new(127, |i: int| 0u8),
    {
        let r = Hardware {
            cartridge: config.cartridge,
            interrupt_handler: InterruptHandler::new(),
            joypad: Joypad::new(),
            timer: Timer::new(),
            video: Video::new(),
            internal_ram: [0; 8192],
            high_ram: [0; 127],
        };
        assert(r@.internal_ram =~= Seq::new(8192, |i: int| 0u8));
        assert(r@.high_ram =~= Seq::new(127, |i: int| 0u8));
        r
    }

    /// One cycle of the timer and `cycles` cycles of the video hardware; returns whether
    /// VBlank was entered.
    pub fn clock(&mut self, cycles: u8) -> (r: bool)
        ensures
            (final(self)@, r) == spec_hardware_clock(old(self)@, cycles),
    {
        self.timer.clock(&mut self.interrupt_handler);
        self.video.clock(&mut self.interrupt_handler, cycles)
    }

    pub fn video(&self) -> (r: &Video)
        ensures
            r@ == self.video@,
    {
        &self.video
    }

    pub fn interrupt_handler(&self) -> (r: &InterruptHandler)
        ensures
            r@ == self.interrupt_handler@,
    {
        &self.interrupt_handler
    }

    /// A write at an address other than the DMA register.
    fn store(&mut self, address: u16, value: u8)
        requires
            address != 0xFF46,
        ensures
            final(self)@ == spec_hardware_store(old(self)@, address, value),
    {
        if address <= 0x7FFF || (0xA000 <= address && address <= 0xBFFF) {
            self.cartridge.write(address, value);
        } else if (0xFE00 <= address && address <= 0xFE9F) || (0x8000 <= address && address <= 0x9FFF)
            || (0xFF40 <= address && address <= 0xFF4B) {
            self.video.write(address, value);
        } else if 0xC000 <= address && address <= 0xDFFF {
            self.internal_ram[(address - 0xC000) as usize] = value;
        } else if 0xE000 <= address && address <= 0xFDFF {
            self.internal_ram[(address - 0xE000) as usize] = value;
        } else if address == 0xFF00 {
            self.joypad.write(value);
        } else if 0xFF04 <= address && address <= 0xFF07 {
            self.timer.write(address, value);
        } else if address == 0xFF0F || address == 0xFFFF {
            self.interrupt_handler.write(address, value);
        } else if 0xFF80 <= address && address <= 0xFFFE {
            self.high_ram[(address - 0xFF80) as usize] = value;
        }
    }

    /// Copies `size + 1` bytes from `from` to `to`, one after the other.
    pub fn dma_transfer(&mut self, from: u16, to: u16, size: u16)
        requires
            from + size <= 0xFFFF,
            to + size <= 0xFFFF,
            to + size < 0xFF46 || to > 0xFF46,
        ensures
            final(self)@ == spec_dma(old(self)@, from, to, (size + 1) as nat),
    {
        let mut i: u16 = 0;
        while i <= size
            invariant
                from + size <= 0xFFFF,
                to + size <= 0xFFFF,
                to + size < 0xFF46 || to > 0xFF46,
                i <= size + 1,
                self@ == spec_dma(old(self)@, from, to, i as nat),
            decreases size + 1 - i,
        {
            let value = self.read(from + i);
            self.store(to + i, value);
            if i == size {
                return;
            }
            i = i + 1;
        }
    }
}

impl Readable for Hardware {
    open spec fn spec_read(v: HardwareView, address: u16) -> u8 {
        spec_hardware_read(v, address)
    }

    fn read(&self, address: u16) -> (r: u8) {
        if address <= 0x7FFF || (0xA000 <= address && address <= 0xBFFF) {
            self.cartridge.read(address)
        } else if address == 0xFF46 {
            0
        } else if (0xFE00 <= address && address <= 0xFE9F) || (0x8000 <= address && address <= 0x9FFF)
            || (0xFF40 <= address && address <= 0xFF4B) {
            self.video.read(address)
        } else if 0xC000 <= address && address <= 0xDFFF {
            self.internal_ram[(address - 0xC000) as usize]
        } else if 0xE000 <= address && address <= 0xFDFF {
            self.internal_ram[(address - 0xE000) as usize]
        } else if address == 0xFF00 {
            self.joypad.read()
        } else if 0xFF04 <= address && address <= 0xFF07 {
            self.timer.read(address)
        } else if address == 0xFF0F || address == 0xFFFF {
            self.interrupt_handler.read(address)
        } else if 0xFF80 <= address && address <= 0xFFFE {
            self.high_ram[(address - 0xFF80) as usize]
        } else {
            0
        }
    }
}

impl Writable for Hardware {
    open spec fn spec_write(v: HardwareView, address: u16, value: u8) -> HardwareView {
        spec_hardware_write(v, address, value)
    }

    fn write(&mut self, address: u16, value: u8) {
        if address == 0xFF46 {
            self.dma_transfer(value as u16 * 0x100, 0xFE00, 0x9F);
        } else {
            self.store(address, value);
        }
    }
}

impl Bus for Hardware {
    open spec fn spec_pending_interrupt(v: HardwareView) -> Option<Interrupt> {
        highest_priority(v.interrupts.1 & v.interrupts.0)
    }

    open spec fn spec_master_interrupt_enable(v: HardwareView) -> bool {
        v.interrupts.2
    }

    open spec fn spec_toggle_interrupts(v: HardwareView, value: bool) -> HardwareView {
        HardwareView { interrupts: (v.interrupts.0, v.interrupts.1, value), ..v }
    }

    open spec fn spec_service_interrupt(v: HardwareView, interrupt: Interrupt) -> HardwareView {
        HardwareView { interrupts: ((v.interrupts.0 & !interrupt_bit(interrupt)) as u8, v.interrupts.1, false), ..v }
    }

    open spec fn spec_request_interrupt(v: HardwareView, interrupt: Interrupt) -> HardwareView {
        HardwareView { interrupts: ((v.interrupts.0 | interrupt_bit(interrupt)) as u8, v.interrupts.1, v.interrupts.2), ..v }
    }

    fn pending_interrupt(&self) -> (r: Option<Interrupt>) {
        self.interrupt_handler.pending_interrupt()
    }

    fn master_interrupt_enable(&self) -> (r: bool) {
        self.interrupt_handler.master_interrupt_enable()
    }

    fn toggle_interrupts(&mut self, value: bool) {
        self.interrupt_handler.toggle_interrupts(value);
    }

    fn service_interrupt(&mut self, interrupt: Interrupt) {
        self.interrupt_handler.service_interrupt(interrupt);
    }

    fn request_interrupt(&mut self, interrupt: Interrupt) {
        self.interrupt_handler.request_interrupt(interrupt);
    }
}

/// The echo area 0xE000-0xFDFF reads the internal RAM at 0xC000-0xDDFF.
pub proof fn lemma_echo_ram(v: HardwareView, offset: u16)
    requires
        offset < 0x1E00,
    ensures
        spec_hardware_read(v, (0xE000 + offset) as u16) == spec_hardware_read(v, (0xC000 + offset) as u16),
{
}

/// A write in the internal RAM or the high RAM is read back.
pub proof fn lemma_ram_read_after_write(v: HardwareView, address: u16, value: u8)
    requires
        (0xC000 <= address <= 0xFDFF) || (0xFF80 <= address <= 0xFFFE),
        v.internal_ram.len() == 8192,
        v.high_ram.len() == 127,
    ensures
        spec_hardware_read(spec_hardware_write(v, address, value), address) == value,
{
}

/// The RAM byte an address reaches: `(false, i)` for byte `i` of the internal RAM, at
/// 0xC000-0xDFFF and again at 0xE000-0xFDFF; `(true, i)` for byte `i` of the high RAM, at
/// 0xFF80-0xFFFE; none elsewhere.
pub open spec fn ram_cell(address: u16) -> Option<(bool, int)> {
    if 0xC000 <= address <= 0xDFFF {
        Some((false, address - 0xC000))
    } else if 0xE000 <= address <= 0xFDFF {
        Some((false, address - 0xE000))
    } else if 0xFF80 <= address <= 0xFFFE {
        Some((true, address - 0xFF80))
    } else {
        None
    }
}

/// The hardware after a run of writes, in order.
pub open spec fn spec_writes(v: HardwareView, writes: Seq<(u16, u8)>) -> HardwareView
    decreases writes.len(),
{
    if writes.len() == 0 {
        v
    } else {
        let previous = spec_writes(v, writes.drop_last());
        spec_hardware_write(previous, writes.last().0, writes.last().1)
    }
}

/// A DMA transfer into the object attribute memory leaves both RAMs as they are.
proof fn lemma_dma_keeps_ram(v: HardwareView, from: u16, n: nat)
    requires
        n <= 0xA0,
    ensures
        spec_dma(v, from, 0xFE00, n).internal_ram == v.internal_ram,
        spec_dma(v, from, 0xFE00, n).high_ram == v.high_ram,
    decreases n,
{
    if n > 0 {
        lemma_dma_keeps_ram(v, from, (n - 1) as nat);
    }
}

/// A write leaves the sizes of the two RAMs as they are.
pub proof fn lemma_write_keeps_ram_sizes(v: HardwareView, address: u16, value: u8)
    requires
        v.internal_ram.len() == 8192,
        v.high_ram.len() == 127,
    ensures
        spec_hardware_write(v, address, value).internal_ram.len() == v.internal_ram.len(),
        spec_hardware_write(v, address, value).high_ram.len() == v.high_ram.len(),
{
    if address == 0xFF46 {
        lemma_dma_keeps_ram(v, (value as u16 * 0x100) as u16, 0xA0);
    }
}

/// A write leaves every RAM byte other than the one it reaches as it is, whatever it
/// writes (a DMA transfer included): a read there gives what it gave before.
pub proof fn lemma_ram_frame(v: HardwareView, address: u16, value: u8, other: u16)
    requires
        ram_cell(other) is Some,
        ram_cell(address) != ram_cell(other),
        v.internal_ram.len() == 8192,
        v.high_ram.len() == 127,
    ensures
        spec_hardware_read(spec_hardware_write(v, address, value), other) == spec_hardware_read(v, other),
{
    if address == 0xFF46 {
        lemma_dma_keeps_ram(v, (value as u16 * 0x100) as u16, 0xA0);
    }
}

/// What is written at a RAM address is read back there, and at its echo, however many
/// writes follow, as long as none of them reaches the same RAM byte.
pub proof fn lemma_ram_read_back(v: HardwareView, address: u16, value: u8, later: Seq<(u16, u8)>, at: u16)
    requires
        ram_cell(address) is Some,
        ram_cell(at) == ram_cell(address),
        forall|i: int| 0 <= i < later.len() ==> ram_cell(#[trigger] later[i].0) != ram_cell(address),
        v.internal_ram.len() == 8192,
        v.high_ram.len() == 127,
    ensures
        spec_hardware_read(spec_writes(spec_hardware_write(v, address, value), later), at) == value,
    decreases later.len(),
{
    lemma_write_keeps_ram_sizes(v, address, value);
    if later.len() == 0 {
        lemma_ram_read_after_write(v, address, value);
    } else {
        let first = spec_hardware_write(v, address, value);
        let previous = later.drop_last();
        assert forall|i: int| 0 <= i < previous.len() implies
            ram_cell(#[trigger] previous[i].0) != ram_cell(address) by {
            assert(previous[i] == later[i]);
        }
        lemma_ram_read_back(v, address, value, previous, at);
        lemma_writes_keep_ram_sizes(first, previous);
        assert(ram_cell(later[later.len() - 1].0) != ram_cell(address));
        lemma_ram_frame(spec_writes(first, previous), later.last().0, later.last().1, at);
    }
}

/// A run of writes leaves the sizes of the two RAMs as they are.
pub proof fn lemma_writes_keep_ram_sizes(v: HardwareView, writes: Seq<(u16, u8)>)
    requires
        v.internal_ram.len() == 8192,
        v.high_ram.len() == 127,
    ensures
        spec_writes(v, writes).internal_ram.len() == v.internal_ram.len(),
        spec_writes(v, writes).high_ram.len() == v.high_ram.len(),
    decreases writes.len(),
{
    if writes.len() > 0 {
        lemma_writes_keep_ram_sizes(v, writes.drop_last());
        lemma_write_keeps_ram_sizes(spec_writes(v, writes.drop_last()), writes.last().0, writes.last().1);
    }
}

} // verus!
