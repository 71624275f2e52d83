use rustyboy::bus::{Readable, Writable};
use rustyboy::processor::interrupt::{Interrupt, InterruptHandler, InterruptRegister};
use rustyboy::util::bitflags::Bitflags;

#[test]
fn fetch_interrupt_ime_false() {
    let mut interrupt_handler = InterruptHandler::new();
    interrupt_handler.interrupt_master_enable = false;
    interrupt_handler.interrupt_request.set_flag(Interrupt::Keypad, true);
    assert!(interrupt_handler.fetch_interrupt().is_none())
}

#[test]
fn fetch_interrupt_ie_false() {
    let mut interrupt_handler = InterruptHandler::new();
    interrupt_handler.interrupt_enable.set_flag(Interrupt::Serial, false);
    interrupt_handler.interrupt_request.set_flag(Interrupt::Serial, true);
    assert!(interrupt_handler.fetch_interrupt().is_none())
}

#[test]
fn fetch_interrupt_none() {
    let mut interrupt_handler = InterruptHandler::new();
    assert!(interrupt_handler.fetch_interrupt().is_none())
}

#[test]
fn fetch_interrupt_one() {
    let mut interrupt_handler = InterruptHandler::new();
    interrupt_handler.interrupt_request.set_flag(Interrupt::LCDCStat, true);
    let interrupt = interrupt_handler.fetch_interrupt().unwrap();
    assert_eq!(interrupt, Interrupt::LCDCStat);
}

#[test]
fn fetch_interrupt_multiple() {
    let mut interrupt_handler = InterruptHandler::new();
    interrupt_handler.interrupt_request.set_register(0xFF);
    assert_eq!(interrupt_handler.fetch_interrupt().unwrap(), Interrupt::VBlank);
    interrupt_handler.interrupt_master_enable = true;
    assert_eq!(interrupt_handler.fetch_interrupt().unwrap(), Interrupt::LCDCStat);
    interrupt_handler.interrupt_master_enable = true;
    assert_eq!(interrupt_handler.fetch_interrupt().unwrap(), Interrupt::Timer);
    interrupt_handler.interrupt_master_enable = true;
    assert_eq!(interrupt_handler.fetch_interrupt().unwrap(), Interrupt::Serial);
    interrupt_handler.interrupt_master_enable = true;
    assert_eq!(interrupt_handler.fetch_interrupt().unwrap(), Interrupt::Keypad);
    interrupt_handler.interrupt_master_enable = true;
    assert!(interrupt_handler.fetch_interrupt().is_none());
}

#[test]
fn fetch_clears_request_and_master_flag() {
    let mut interrupt_handler = InterruptHandler::new();
    interrupt_handler.request_interrupt(Interrupt::Timer);
    interrupt_handler.request_interrupt(Interrupt::Keypad);
    assert_eq!(interrupt_handler.fetch_interrupt(), Some(Interrupt::Timer));
    assert_eq!(interrupt_handler.interrupt_request.register(), 0x10);
    assert!(!interrupt_handler.master_interrupt_enable());
    assert_eq!(interrupt_handler.fetch_interrupt(), None);
}

#[test]
fn interrupt_registers_on_the_bus() {
    let mut interrupt_handler = InterruptHandler::new();
    interrupt_handler.write(0xFF0F, 0x05);
    assert_eq!(interrupt_handler.read(0xFF0F), 0x05);
    interrupt_handler.write(0xFFFF, 0x00);
    assert_eq!(interrupt_handler.read(0xFFFF), 0);
    interrupt_handler.write(0xFFFF, 0x01);
    assert_eq!(interrupt_handler.read(0xFFFF), 1);
    assert_eq!(interrupt_handler.read(0x1234), 0);
}

#[test]
fn interrupt_addresses() {
    assert_eq!(Interrupt::VBlank.address(), 0x40);
    assert_eq!(Interrupt::Keypad.address(), 0x60);
    assert_eq!(InterruptRegister::from_value(3).register(), 3);
}
