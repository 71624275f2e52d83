use rustyboy::processor::register::{DualRegister, SingleRegister};

#[test]
fn get_high() {
    let mut register = DualRegister::new();
    register.set(0b1010101001010101);
    assert_eq!(register.high.get(), 0b10101010);
}

#[test]
fn get_low() {
    let mut register = DualRegister::new();
    register.set(0b1010101001010101);
    assert_eq!(register.low.get(), 0b01010101);
}

#[test]
fn set_high() {
    let mut register = DualRegister::new();
    register.high.set(0b01010101);
    assert_eq!(register.high.get(), 0b01010101);
}

#[test]
fn set_low() {
    let mut register = DualRegister::new();
    register.low.set(0b01010101);
    assert_eq!(register.low.get(), 0b01010101);
}

#[test]
fn set() {
    let mut register = SingleRegister::new();
    register.set(0b10101010);
    register.set_bit(1, false);
    assert_eq!(register.get(), 0b10101000);
}

#[test]
fn dual_register_round_trip() {
    let mut register = DualRegister::new();
    register.set(0xBEEF);
    assert_eq!(register.get(), 0xBEEF);
    register.increment();
    assert_eq!(register.get(), 0xBEF0);
    register.set(0xFFFF);
    register.increment();
    assert_eq!(register.get(), 0);
    register.decrement();
    assert_eq!(register.get(), 0xFFFF);
}
