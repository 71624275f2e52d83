use vstd::prelude::*;
use crate::config::Config;
use crate::hardware::{Hardware, HardwareView};
use crate::processor::{Processor, ProcessorView};
use crate::processor::lr35902::{InstructionError, spec_step};

verus! {

/// The Game Boy models.
#[derive(Debug, Copy, Clone, PartialEq, Eq, Structural)]
pub enum DeviceType {
    GameBoy,
    GameBoyColor,
}

/// A Game Boy: the processor and the hardware around it.
pub struct Gameboy {
    pub processor: Processor,
    pub hardware: Hardware,
}

/// One cycle of a Game Boy: a cycle of the processor, then a cycle of the hardware. The
/// flag tells whether the video hardware entered VBlank. Where the processor fails, the
/// hardware does not run.
pub open spec fn spec_gameboy_step(p: ProcessorView, h: HardwareView) -> (ProcessorView, HardwareView, Result<bool, InstructionError>) {
    let (p1, h1, r) = spec_step::<Hardware>(p, h);
    match r {
        Err(e) => (p1, h1, Err(e)),
        Ok(_) => {
            let (h2, vblank) = crate::hardware::spec_hardware_clock(h1, 1);
            (p1, h2, Ok(vblank))
        },
    }
}

impl Gameboy {
    /// A Game Boy at power-on with the cartridge of the configuration.
    pub fn new(config: Config) -> (r: Gameboy)
        ensures
            r.processor@ == Processor::new_view(),
            r.hardware.cartridge@ == config.cartridge@,
            r.hardware.interrupt_handler@ == (0u8, 0xFFu8, true),
            r.hardware@.video == crate::video::initial_video(),
            r.hardware@.timer == crate::hardware::timer::Timer::new_view(),
            r.hardware@.joypad == (crate::hardware::joypad::Joypad { select: 0x30, pressed: 0 }),
            r.hardware@.internal_ram == Seq::new(8192, |i: int| 0u8),
            r.hardware@.high_ram == Seq::new(127, |i: int| 0u8),
    {
        Gameboy { processor: Processor::new(), hardware: Hardware::new(config) }
    }

    /// Runs one cycle; returns whether the video hardware entered VBlank, or the error of
    /// an instruction that could not complete.
    pub fn step(&mut self) -> (r: Result<bool, InstructionError>)
        ensures
            (final(self).processor@, final(self).hardware@, r) == spec_gameboy_step(old(self).processor@, old(self).hardware@),
    {
        match self.processor.step(&mut self.hardware) {
            Err(e) => Err(e),
            Ok(()) => Ok(self.hardware.clock(1)),
        }
    }

    pub fn hardware(&self) -> (r: &Hardware)
        ensures
            r@ == self.hardware@,
    {
        &self.hardware
    }
}

} // verus!
