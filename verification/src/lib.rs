pub mod bus;
pub mod cartridge;
pub mod config;
pub mod debugger;
pub mod gameboy;
pub mod hardware;
pub mod memory;
pub mod processor;
pub mod util;
pub mod video;
