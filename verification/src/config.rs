use vstd::prelude::*;
use crate::cartridge::Cartridge;
use crate::debugger::DebuggerState;
use crate::gameboy::DeviceType;

verus! {

/// What a Game Boy is started with: the cartridge, the model, and the debugger state
/// where the debugger is on.
pub struct Config {
    pub cartridge: Cartridge,
    pub device_type: DeviceType,
    pub debugger_config: Option<DebuggerState>,
}

} // verus!
