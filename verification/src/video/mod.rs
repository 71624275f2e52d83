pub mod color;
pub mod control_register;
pub mod memory;
pub mod palette;
pub mod register;
pub mod screen;
pub mod status_register;
pub mod tile;

use vstd::prelude::*;
use crate::processor::interrupt::{Interrupt, InterruptHandler, interrupt_bit};
use crate::util::bits::bit_set;
use crate::video::control_register::{ControlRegister, spec_addressing, spec_adjust_address};
use crate::video::memory::{VideoMemory, VideoMemoryView, spec_vram_read, spec_vram_write};
use crate::video::memory::sprite_attribute_table::is_oam_address;
use crate::video::palette::Palette;
use crate::video::register::Register;
use crate::video::screen::Screen;
use crate::video::status_register::{StatusMode, StatusRegister, spec_generate};

verus! {

/// The video hardware as plain values.
pub struct VideoView {
    pub control: u8,
    pub status: u8,
    pub mode: StatusMode,
    /// (x, y)
    pub scroll: (u8, u8),
    /// (x, y)
    pub window: (u8, u8),
    pub ly: u8,
    pub lyc: u8,
    pub bg_palette: u8,
    pub obj_palette0: u8,
    pub obj_palette1: u8,
    pub vram: VideoMemoryView,
    pub cycles_left: u16,
}

/// The video hardware: its registers, its memory and the mode it is in.
pub struct Video {
    pub(crate) control: ControlRegister,
    pub(crate) status: StatusRegister,
    pub(crate) mode: StatusMode,
    /// (x, y)
    pub(crate) scroll: (u8, u8),
    /// (x, y)
    pub(crate) window: (u8, u8),
    pub(crate) ly: u8,
    pub(crate) lyc: u8,
    pub(crate) bg_palette: Palette,
    pub(crate) obj_palette0: Palette,
    pub(crate) obj_palette1: Palette,
    pub(crate) vram: VideoMemory,
    pub(crate) screen: Screen,
    pub(crate) cycles_left: u16,
}

impl View for Video {
    type V = VideoView;

    closed spec fn view(&self) -> VideoView {
        VideoView {
            control: self.control.register,
            status: self.status.register,
            mode: self.mode,
            scroll: self.scroll,
            window: self.window,
            ly: self.ly,
            lyc: self.lyc,
            bg_palette: self.bg_palette.register,
            obj_palette0: self.obj_palette0.register,
            obj_palette1: self.obj_palette1.register,
            vram: self.vram@,
            cycles_left: self.cycles_left,
        }
    }
}

/// The video hardware at power-on: OAM reading at line 0, every register 0 but the
/// background palette (0xFC) and the object palettes (0xFF), the memory blank.
pub open spec fn initial_video() -> VideoView {
    VideoView {
        control: 0,
        status: 0,
        mode: StatusMode::ReadingOAM,
        scroll: (0, 0),
        window: (0, 0),
        ly: 0,
        lyc: 0,
        bg_palette: 0xFC,
        obj_palette0: 0xFF,
        obj_palette1: 0xFF,
        vram: crate::video::memory::blank_vram(),
        cycles_left: 0,
    }
}

/// The interrupt handler state with `interrupt` requested.
pub open spec fn with_request(ih: (u8, u8, bool), interrupt: Interrupt) -> (u8, u8, bool) {
    ((ih.0 | interrupt_bit(interrupt)) as u8, ih.1, ih.2)
}

/// `with_request` where `cond` holds, the state as it is elsewhere.
pub open spec fn request_if(ih: (u8, u8, bool), cond: bool, interrupt: Interrupt) -> (u8, u8, bool) {
    if cond { with_request(ih, interrupt) } else { ih }
}

/// The lines are counted up to 144, and only HBlank is ever at line 144.
pub open spec fn video_wf(v: VideoView) -> bool {
    &&& v.ly <= 144
    &&& v.mode != StatusMode::HBlank ==> v.ly < 144
}

/// The addresses the video hardware answers: the object attribute memory, the video
/// memory and its registers (0xFF40-0xFF4B but 0xFF46).
pub open spec fn is_video_address(address: u16) -> bool {
    is_oam_address(address) || (0x8000 <= address <= 0x9FFF) || (0xFF40 <= address <= 0xFF4B
        && address != 0xFF46)
}

/// Whether the processor can reach the object attribute memory: not while the hardware
/// reads it or draws.
pub open spec fn oam_accessible(mode: StatusMode) -> bool {
    mode != StatusMode::LCDTransfer && mode != StatusMode::ReadingOAM
}

/// The address at which a video memory access lands: tile data addresses go through the
/// background addressing mode.
pub open spec fn vram_target(control: u8, address: u16) -> u16 {
    if 0x8000 <= address <= 0x97FF {
        spec_adjust_address(spec_addressing(control), address)
    } else {
        address
    }
}

/// The byte the video hardware answers at an address; 0xFF for memory it holds.
pub open spec fn spec_video_read(v: VideoView, address: u16) -> u8 {
    if is_oam_address(address) {
        if oam_accessible(v.mode) { spec_vram_read(v.vram, address) } else { 0xFF }
    } else if 0x8000 <= address <= 0x9FFF {
        if v.mode != StatusMode::LCDTransfer {
            spec_vram_read(v.vram, vram_target(v.control, address))
        } else {
            0xFF
        }
    } else if address == 0xFF40 {
        v.control
    } else if address == 0xFF41 {
        spec_generate(v.status, v.mode, v.ly, v.lyc)
    } else if address == 0xFF42 {
        v.scroll.1
    } else if address == 0xFF43 {
        v.scroll.0
    } else if address == 0xFF44 {
        v.ly
    } else if address == 0xFF45 {
        v.lyc
    } else if address == 0xFF47 {
        v.bg_palette
    } else if address == 0xFF48 {
        v.obj_palette0
    } else if address == 0xFF49 {
        v.obj_palette1
    } else if address == 0xFF4A {
        v.window.1
    } else {
        v.window.0
    }
}

/// The video hardware after a write at an address; memory it holds is left as it is, and
/// a write of LY sets it to 0.
pub open spec fn spec_video_write(v: VideoView, address: u16, value: u8) -> VideoView {
    if is_oam_address(address) {
        if oam_accessible(v.mode) { VideoView { vram: spec_vram_write(v.vram, address, value), ..v } } else { v }
    } else if 0x8000 <= address <= 0x9FFF {
        if v.mode != StatusMode::LCDTransfer {
            VideoView { vram: spec_vram_write(v.vram, vram_target(v.control, address), value), ..v }
        } else {
            v
        }
    } else if address == 0xFF40 {
        VideoView { control: value, ..v }
    } else if address == 0xFF41 {
        VideoView { status: value & 0x78, ..v }
    } else if address == 0xFF42 {
        VideoView { scroll: (v.scroll.0, value), ..v }
    } else if address == 0xFF43 {
        VideoView { scroll: (value, v.scroll.1), ..v }
    } else if address == 0xFF44 {
        VideoView { ly: 0, ..v }
    } else if address == 0xFF45 {
        VideoView { lyc: value, ..v }
    } else if address == 0xFF47 {
        VideoView { bg_palette: value, ..v }
    } else if address == 0xFF48 {
        VideoView { obj_palette0: value, ..v }
    } else if address == 0xFF49 {
        VideoView { obj_palette1: value, ..v }
    } else if address == 0xFF4A {
        VideoView { window: (v.window.0, value), ..v }
    } else {
        VideoView { window: (value, v.window.1), ..v }
    }
}

/// One change of mode: OAM reading goes to drawing; drawing ends a line (LY counts up, and
/// the LCD status interrupt is requested where LY reaching LYC or HBlank is selected);
/// HBlank below line 144 and VBlank go to OAM reading; HBlank at line 144 goes to VBlank,
/// with LY back to 0 and the VBlank interrupt requested.
pub open spec fn spec_video_step(v: VideoView, ih: (u8, u8, bool)) -> (VideoView, (u8, u8, bool)) {
    if v.mode == StatusMode::ReadingOAM {
        (VideoView { mode: StatusMode::LCDTransfer, ..v }, ih)
    } else if v.mode == StatusMode::LCDTransfer {
        let ly = (v.ly + 1) as u8;
        let ih1 = request_if(ih, bit_set(v.status, 6) && ly == v.lyc, Interrupt::LCDCStat);
        let ih2 = request_if(ih1, bit_set(v.status, 3), Interrupt::LCDCStat);
        (VideoView { ly: ly, mode: StatusMode::HBlank, ..v }, ih2)
    } else if v.mode == StatusMode::VBlank || (v.mode == StatusMode::HBlank && v.ly < 144) {
        (VideoView { mode: StatusMode::ReadingOAM, ..v }, request_if(ih, bit_set(v.status, 5), Interrupt::LCDCStat))
    } else {
        let ih1 = with_request(ih, Interrupt::VBlank);
        (VideoView { ly: 0, mode: StatusMode::VBlank, ..v }, request_if(ih1, bit_set(v.status, 4), Interrupt::LCDCStat))
    }
}

/// How many cycles a mode lasts.
pub open spec fn spec_mode_cycle_length(mode: StatusMode) -> u16 {
    match mode {
        StatusMode::ReadingOAM => 80,
        StatusMode::VBlank => 4560,
        StatusMode::LCDTransfer => 172,
        StatusMode::HBlank => 204,
    }
}

/// `cycles` cycles of the video hardware: when the cycles left in the mode run out, one
/// change of mode, and the new mode's length. The flag tells whether VBlank was entered.
pub open spec fn spec_video_clock(v: VideoView, ih: (u8, u8, bool), cycles: u8) -> (VideoView, (u8, u8, bool), bool) {
    let left = if v.cycles_left >= cycles { (v.cycles_left - cycles) as u16 } else { 0u16 };
    if left == 0 {
        let (v1, ih1) = spec_video_step(v, ih);
        (VideoView { cycles_left: spec_mode_cycle_length(v1.mode), ..v1 }, ih1, v1.mode == StatusMode::VBlank)
    } else {
        (VideoView { cycles_left: left, ..v }, ih, false)
    }
}

impl Video {
    /// The lines never go past 144.
    #[verifier::type_invariant]
    closed spec fn inv(&self) -> bool {
        video_wf(self@)
    }

    /// The video hardware at power-on: OAM reading at line 0, the background palette
    /// 0xFC, the object palettes 0xFF.
    pub fn new() -> (r: Video)
        ensures
            r@ == initial_video(),
            r.spec_screen().dimensions == (160u8, 144u8),
    {
        let mut bg_palette = Palette::new();
        bg_palette.set(0xFC);
        let mut obj_palette0 = Palette::new();
        obj_palette0.set(0xFF);
        let mut obj_palette1 = Palette::new();
        obj_palette1.set(0xFF);
        Video {
            control: ControlRegister::new(),
            status: StatusRegister::new(),
            mode: StatusMode::ReadingOAM,
            scroll: (0, 0),
            window: (0, 0),
            ly: 0,
            lyc: 0,
            bg_palette,
            obj_palette0,
            obj_palette1,
            vram: VideoMemory::new(),
            screen: Screen::new(),
            cycles_left: 0,
        }
    }

    pub fn memory(&self) -> (r: &VideoMemory)
        ensures
            r@ == self@.vram,
    {
        &self.vram
    }

    /// The LCD control register.
    pub fn control(&self) -> (r: &ControlRegister)
        ensures
            r.register == self@.control,
    {
        &self.control
    }

    pub fn mode(&self) -> (r: StatusMode)
        ensures
            r == self@.mode,
    {
        self.mode
    }

    pub closed spec fn spec_screen(&self) -> Screen {
        self.screen
    }

    pub fn screen(&self) -> (r: &Screen)
        ensures
            r.dimensions == self.spec_screen().dimensions,
    {
        &self.screen
    }

    pub fn obj_palette0(&self) -> (r: &Palette)
        ensures
            r.register == self@.obj_palette0,
    {
        &self.obj_palette0
    }

    pub fn obj_palette1(&self) -> (r: &Palette)
        ensures
            r.register == self@.obj_palette1,
    {
        &self.obj_palette1
    }

    /// Runs `cycles` cycles; returns whether VBlank was entered.
    pub fn clock(&mut self, interrupt_handler: &mut InterruptHandler, cycles: u8) -> (r: bool)
        ensures
            (final(self)@, final(interrupt_handler)@, r) == spec_video_clock(old(self)@, old(interrupt_handler)@, cycles),
            final(self).spec_screen() == old(self).spec_screen(),
    {
        proof {
            use_type_invariant(&*self);
        }
        self.cycles_left = if self.cycles_left >= cycles as u16 { self.cycles_left - cycles as u16 } else { 0 };
        if self.cycles_left == 0 {
            self.step(interrupt_handler);
            self.cycles_left = self.mode_cycle_length();
            self.mode == StatusMode::VBlank
        } else {
            false
        }
    }

    /// One change of mode.
    fn step(&mut self, interrupt_handler: &mut InterruptHandler)
        ensures
            (final(self)@, final(interrupt_handler)@) == spec_video_step(old(self)@, old(interrupt_handler)@),
            final(self).spec_screen() == old(self).spec_screen(),
    {
        proof {
            use_type_invariant(&*self);
        }
        if self.mode == StatusMode::ReadingOAM {
            self.mode = StatusMode::LCDTransfer;
            self.render_scanline();
        } else if self.mode == StatusMode::LCDTransfer {
            self.mode = StatusMode::HBlank;
            self.ly = self.ly + 1;
            if self.check_lyc() {
                interrupt_handler.request_interrupt(Interrupt::LCDCStat);
            }
            if self.status.hblank_interrupt_enabled() {
                interrupt_handler.request_interrupt(Interrupt::LCDCStat);
            }
        } else if self.mode == StatusMode::VBlank || (self.mode == StatusMode::HBlank && self.ly < 144) {
            self.mode = StatusMode::ReadingOAM;
            if self.status.oam_interrupt_enabled() {
                interrupt_handler.request_interrupt(Interrupt::LCDCStat);
            }
        } else {
            self.ly = 0;
            self.mode = StatusMode::VBlank;
            interrupt_handler.request_interrupt(Interrupt::VBlank);
            if self.status.vblank_interrupt_enabled() {
                interrupt_handler.request_interrupt(Interrupt::LCDCStat);
            }
        }
    }

    /// How many cycles the current mode lasts.
    fn mode_cycle_length(&self) -> (r: u16)
        ensures
            r == spec_mode_cycle_length(self.mode),
    {
        match self.mode {
            StatusMode::ReadingOAM => 80,
            StatusMode::VBlank => 4560,
            StatusMode::LCDTransfer => 172,
            StatusMode::HBlank => 204,
        }
    }

    /// Whether the LY = LYC interrupt is selected and LY is LYC.
    fn check_lyc(&self) -> (r: bool)
        ensures
            r == (bit_set(self.status.register, 6) && self.ly == self.lyc),
    {
        self.status.lyc_interrupt_enabled() && self.ly == self.lyc
    }

    /// Draws the current line; the screen is drawn whole by `Screen::draw` instead.
    fn render_scanline(&mut self)
        ensures
            final(self)@ == old(self)@,
            final(self).spec_screen() == old(self).spec_screen(),
    {
    }

    /// Reads a register or the memory of the video hardware.
    pub fn read(&self, address: u16) -> (r: u8)
        requires
            is_video_address(address),
        ensures
            r == spec_video_read(self@, address),
    {
        if 0xFE00 <= address && address <= 0xFE9F {
            if self.mode != StatusMode::LCDTransfer && self.mode != StatusMode::ReadingOAM {
                self.vram.read(address)
            } else {
                0xFF
            }
        } else if 0x8000 <= address && address <= 0x9FFF {
            if self.mode != StatusMode::LCDTransfer {
                let mut address = address;
                if 0x8000 <= address && address <= 0x97FF {
                    let addressing_mode = self.control.bg_tile_data_addressing();
                    address = addressing_mode.adjust_address(address);
                }
                self.vram.read(address)
            } else {
                0xFF
            }
        } else if address == 0xFF40 {
            self.control.get()
        } else if address == 0xFF41 {
            self.status.generate(self.mode, self.ly, self.lyc)
        } else if address == 0xFF42 {
            self.scroll.1
        } else if address == 0xFF43 {
            self.scroll.0
        } else if address == 0xFF44 {
            self.ly
        } else if address == 0xFF45 {
            self.lyc
        } else if address == 0xFF47 {
            self.bg_palette.get()
        } else if address == 0xFF48 {
            self.obj_palette0.get()
        } else if address == 0xFF49 {
            self.obj_palette1.get()
        } else if address == 0xFF4A {
            self.window.1
        } else {
            self.window.0
        }
    }

    /// Writes a register or the memory of the video hardware.
    pub fn write(&mut self, address: u16, value: u8)
        requires
            is_video_address(address),
        ensures
            final(self)@ == spec_video_write(old(self)@, address, value),
            final(self).spec_screen() == old(self).spec_screen(),
    {
        proof {
            use_type_invariant(&*self);
        }
        if 0xFE00 <= address && address <= 0xFE9F {
            if self.mode != StatusMode::LCDTransfer && self.mode != StatusMode::ReadingOAM {
                let mut vram = self.vram;
                vram.write(address, value);
                self.vram = vram;
            }
        } else if 0x8000 <= address && address <= 0x9FFF {
            if self.mode != StatusMode::LCDTransfer {
                let mut address = address;
                if 0x8000 <= address && address <= 0x97FF {
                    let addressing_mode = self.control.bg_tile_data_addressing();
                    address = addressing_mode.adjust_address(address);
                }
                let mut vram = self.vram;
                vram.write(address, value);
                self.vram = vram;
            }
        } else if address == 0xFF40 {
            self.control = ControlRegister { register: value };
        } else if address == 0xFF41 {
            let mut status = self.status;
            status.set(value);
            self.status = status;
        } else if address == 0xFF42 {
            self.scroll.1 = value
        } else if address == 0xFF43 {
            self.scroll.0 = value
        } else if address == 0xFF44 {
            self.ly = 0
        } else if address == 0xFF45 {
            self.lyc = value
        } else if address == 0xFF47 {
            let mut palette = self.bg_palette;
            palette.set(value);
            self.bg_palette = palette;
        } else if address == 0xFF48 {
            let mut palette = self.obj_palette0;
            palette.set(value);
            self.obj_palette0 = palette;
        } else if address == 0xFF49 {
            let mut palette = self.obj_palette1;
            palette.set(value);
            self.obj_palette1 = palette;
        } else if address == 0xFF4A {
            self.window.1 = value
        } else {
            self.window.0 = value
        }
    }
}

/// LY never goes past 144, and no line is drawn at 144: each change of mode and each
/// write keeps it so.
pub proof fn lemma_video_lines_bounded(v: VideoView, ih: (u8, u8, bool), cycles: u8, address: u16, value: u8)
    requires
        video_wf(v),
    ensures
        video_wf(spec_video_step(v, ih).0),
        video_wf(spec_video_clock(v, ih, cycles).0),
        video_wf(spec_video_write(v, address, value)),
{
}

/// A step from HBlank at line 144 enters VBlank and requests the VBlank interrupt.
pub proof fn lemma_vblank_requested(v: VideoView, ih: (u8, u8, bool))
    requires
        video_wf(v),
        v.mode == StatusMode::HBlank,
        v.ly == 144,
    ensures
        spec_video_step(v, ih).0.mode == StatusMode::VBlank,
        spec_video_step(v, ih).0.ly == 0,
        spec_video_step(v, ih).1.0 & interrupt_bit(Interrupt::VBlank) != 0,
{
    let x = ih.0;
    assert(((x | 1u8) as u8) & 1u8 != 0 && ((((x | 1u8) as u8) | 2u8) as u8) & 1u8 != 0) by (bit_vector);
}

} // verus!
