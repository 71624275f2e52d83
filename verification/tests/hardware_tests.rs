use rustyboy::bus::{Bus, Readable, Writable};
use rustyboy::cartridge::Cartridge;
use rustyboy::config::Config;
use rustyboy::gameboy::{DeviceType, Gameboy};
use rustyboy::hardware::joypad::Joypad;
use rustyboy::hardware::timer::{ClockResult, Counter, Timer};
use rustyboy::hardware::Hardware;
use rustyboy::processor::interrupt::{Interrupt, InterruptHandler};
use rustyboy::util::bitflags::Bitflags;

fn cartridge() -> Cartridge {
    let mut buffer = vec![0u8; 0x8000];
    buffer[0x14B] = 0x33;
    Cartridge::from_buffer(buffer).unwrap()
}

fn hardware() -> Hardware {
    Hardware::new(Config { cartridge: cartridge(), device_type: DeviceType::GameBoy, debugger_config: None })
}

#[test]
fn counter_ticks_and_wraps() {
    let mut counter = Counter::new(2);
    assert_eq!(counter.clock(), ClockResult::NoOverflow);
    assert_eq!(counter.value, 0);
    assert_eq!(counter.clock(), ClockResult::NoOverflow);
    assert_eq!(counter.value, 1);
    counter.value = 255;
    counter.clock();
    assert_eq!(counter.clock(), ClockResult::Overflow);
    assert_eq!(counter.value, 0);
    counter.set_cycles_per_tick(16);
    assert_eq!(counter.cycles_per_tick(), 16);
}

#[test]
fn timer_registers() {
    let mut timer = Timer::new();
    assert_eq!(timer.read(0xFF07), 0b100);
    timer.write(0xFF07, 0b101);
    assert_eq!(timer.read(0xFF07), 0b101);
    timer.write(0xFF06, 0xAB);
    assert_eq!(timer.read(0xFF06), 0xAB);
    timer.write(0xFF05, 0xFF);
    let mut interrupts = InterruptHandler::new();
    // the period changes, the cycles left in the current one (1024) are kept
    for _ in 0..1023 {
        timer.clock(&mut interrupts);
    }
    assert_eq!(timer.read(0xFF05), 0xFF);
    timer.clock(&mut interrupts);
    // the counter wrapped and restarted from the modulo
    assert_eq!(timer.read(0xFF05), 0xAB);
    assert!(interrupts.interrupt_request.flag(Interrupt::Timer));
}

#[test]
fn joypad_register() {
    let mut joypad = Joypad::new();
    assert_eq!(joypad.read(), 0xFF);
    joypad.set_pressed(0b0001_0001);
    joypad.write(0x20);
    // directions selected: right held
    assert_eq!(joypad.read(), 0xC0 | 0x20 | 0x0E);
    joypad.write(0x10);
    // buttons selected: A held
    assert_eq!(joypad.read(), 0xC0 | 0x10 | 0x0E);
}

#[test]
fn hardware_memory_map() {
    let mut hardware = hardware();
    hardware.write(0xC000, 1);
    assert_eq!(hardware.read(0xC000), 1);
    assert_eq!(hardware.read(0xE000), 1);
    hardware.write(0xFDFF, 2);
    assert_eq!(hardware.read(0xDDFF), 2);
    hardware.write(0xFF80, 3);
    assert_eq!(hardware.read(0xFF80), 3);
    hardware.write(0xFF10, 3);
    assert_eq!(hardware.read(0xFF10), 0);
    assert_eq!(hardware.read(0xFF46), 0);
    hardware.write(0xFF0F, 0x04);
    assert_eq!(hardware.pending_interrupt(), Some(Interrupt::Timer));
    hardware.service_interrupt(Interrupt::Timer);
    assert_eq!(hardware.read(0xFF0F), 0);
    assert!(!hardware.master_interrupt_enable());
}

#[test]
fn dma_copies_to_oam() {
    let mut hardware = hardware();
    for i in 0..0xA0u16 {
        hardware.write(0xC000 + i, i as u8);
    }
    // let the video leave OAM reading and drawing
    while hardware.video().mode() != rustyboy::video::status_register::StatusMode::HBlank {
        hardware.clock(1);
    }
    hardware.write(0xFF46, 0xC0);
    assert_eq!(hardware.read(0xFE00), 0);
    assert_eq!(hardware.read(0xFE05), 5);
    assert_eq!(hardware.read(0xFE9F), 0x9F);
}

#[test]
fn gameboy_runs_nops_to_vblank() {
    let mut gameboy = Gameboy::new(Config { cartridge: cartridge(), device_type: DeviceType::GameBoy, debugger_config: None });
    let mut vblank = false;
    for _ in 0..100000 {
        if gameboy.step().unwrap() {
            vblank = true;
            break;
        }
    }
    assert!(vblank);
    assert!(gameboy.hardware().interrupt_handler().interrupt_request.flag(Interrupt::VBlank));
}

#[test]
fn ram_keeps_writes_across_other_writes() {
    let mut hardware = hardware();
    hardware.write(0xC123, 0x11);
    hardware.write(0xFF90, 0x22);
    hardware.write(0xC124, 0x33);
    hardware.write(0xFF46, 0xC1);
    hardware.write(0xFF91, 0x44);
    assert_eq!(hardware.read(0xC123), 0x11);
    assert_eq!(hardware.read(0xE123), 0x11);
    assert_eq!(hardware.read(0xFF90), 0x22);
    hardware.write(0xE123, 0x55);
    assert_eq!(hardware.read(0xC123), 0x55);
}

#[test]
fn counter_ticks_once_per_period() {
    let mut counter = Counter::new(4);
    counter.value = 0xFF;
    for _ in 0..3 {
        assert_eq!(counter.clock(), ClockResult::NoOverflow);
        assert_eq!(counter.value, 0xFF);
    }
    assert_eq!(counter.clock(), ClockResult::Overflow);
    assert_eq!(counter.value, 0);
    assert_eq!(counter.cycles_per_tick(), 4);
    for _ in 0..3 {
        assert_eq!(counter.clock(), ClockResult::NoOverflow);
    }
    assert_eq!(counter.clock(), ClockResult::NoOverflow);
    assert_eq!(counter.value, 1);
}
