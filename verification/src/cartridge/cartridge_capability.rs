use vstd::prelude::*;

verus! {

/// The hardware a cartridge holds besides its ROM.
#[derive(Debug, Copy, Clone, PartialEq, Eq, Structural)]
pub enum CartridgeCapability {
    ROM,
    MBC1,
    MBC2,
    MBC3,
    MBC4,
    MBC5,
    RAM,
    Battery,
    Timer,
    MMM01,
    Rumble,
    PocketCamera,
    BandaiTama5,
    HuC1,
    HuC3,
}

/// The capabilities that a cartridge type byte stands for, if it is a known type.
pub open spec fn spec_capabilities(value: u8) -> Option<Seq<CartridgeCapability>> {
    match value {
        0x00 => Some(seq![CartridgeCapability::ROM]),
        0x01 => Some(seq![CartridgeCapability::MBC1]),
        0x02 => Some(seq![CartridgeCapability::MBC1, CartridgeCapability::RAM]),
        0x03 => Some(seq![CartridgeCapability::MBC1, CartridgeCapability::RAM, CartridgeCapability::Battery]),
        0x05 => Some(seq![CartridgeCapability::MBC2]),
        0x06 => Some(seq![CartridgeCapability::MBC2, CartridgeCapability::Battery]),
        0x08 => Some(seq![CartridgeCapability::ROM, CartridgeCapability::RAM]),
        0x09 => Some(seq![CartridgeCapability::ROM, CartridgeCapability::RAM, CartridgeCapability::Battery]),
        0x0B => Some(seq![CartridgeCapability::MMM01]),
        0x0C => Some(seq![CartridgeCapability::MMM01, CartridgeCapability::RAM]),
        0x0D => Some(seq![CartridgeCapability::MMM01, CartridgeCapability::RAM, CartridgeCapability::Battery]),
        0x0F => Some(seq![CartridgeCapability::MBC3, CartridgeCapability::Timer, CartridgeCapability::Battery]),
        0x10 => Some(seq![CartridgeCapability::MBC3, CartridgeCapability::Timer, CartridgeCapability::RAM, CartridgeCapability::Battery]),
        0x11 => Some(seq![CartridgeCapability::MBC3]),
        0x12 => Some(seq![CartridgeCapability::MBC3, CartridgeCapability::RAM]),
        0x13 => Some(seq![CartridgeCapability::MBC3, CartridgeCapability::RAM, CartridgeCapability::Battery]),
        0x15 => Some(seq![CartridgeCapability::MBC4]),
        0x16 => Some(seq![CartridgeCapability::MBC4, CartridgeCapability::RAM]),
        0x17 => Some(seq![CartridgeCapability::MBC4, CartridgeCapability::RAM, CartridgeCapability::Battery]),
        0x19 => Some(seq![CartridgeCapability::MBC5]),
        0x1A => Some(seq![CartridgeCapability::MBC5, CartridgeCapability::RAM]),
        0x1B => Some(seq![CartridgeCapability::MBC5, CartridgeCapability::RAM, CartridgeCapability::Battery]),
        0x1C => Some(seq![CartridgeCapability::MBC5, CartridgeCapability::Rumble]),
        0x1D => Some(seq![CartridgeCapability::MBC5, CartridgeCapability::Rumble, CartridgeCapability::RAM]),
        0x1E => Some(seq![CartridgeCapability::MBC5, CartridgeCapability::Rumble, CartridgeCapability::RAM, CartridgeCapability::Battery]),
        0xFC => Some(seq![CartridgeCapability::PocketCamera]),
        0xFD => Some(seq![CartridgeCapability::BandaiTama5]),
        0xFE => Some(seq![CartridgeCapability::HuC3]),
        0xFF => Some(seq![CartridgeCapability::HuC1, CartridgeCapability::RAM, CartridgeCapability::Battery]),
        _ => None,
    }
}

/// A vector holding one capability.
fn single(capability: CartridgeCapability) -> (v: Vec<CartridgeCapability>)
    ensures
        v@ == seq![capability],
{
    let mut v = Vec::new();
    v.push(capability);
    v
}

impl CartridgeCapability {
    /// The capabilities of a cartridge type byte; an error for an unknown type.
    pub fn from_byte(value: u8) -> (r: Result<Vec<CartridgeCapability>, String>)
        ensures
            match r {
                Ok(v) => spec_capabilities(value) == Some(v@),
                Err(e) => spec_capabilities(value) is None && e@ == "invalid cartridge type value"@,
            },
    {
        match value {
            0x00 => Ok(single(CartridgeCapability::ROM)),
            0x01 => Ok(single(CartridgeCapability::MBC1)),
            0x02 => Ok(vec![CartridgeCapability::MBC1, CartridgeCapability::RAM]),
            0x03 => Ok(vec![CartridgeCapability::MBC1, CartridgeCapability::RAM, CartridgeCapability::Battery]),
            0x05 => Ok(single(CartridgeCapability::MBC2)),
            0x06 => Ok(vec![CartridgeCapability::MBC2, CartridgeCapability::Battery]),
            0x08 => Ok(vec![CartridgeCapability::ROM, CartridgeCapability::RAM]),
            0x09 => Ok(vec![CartridgeCapability::ROM, CartridgeCapability::RAM, CartridgeCapability::Battery]),
            0x0B => Ok(single(CartridgeCapability::MMM01)),
            0x0C => Ok(vec![CartridgeCapability::MMM01, CartridgeCapability::RAM]),
            0x0D => Ok(vec![CartridgeCapability::MMM01, CartridgeCapability::RAM, CartridgeCapability::Battery]),
            0x0F => Ok(vec![CartridgeCapability::MBC3, CartridgeCapability::Timer, CartridgeCapability::Battery]),
            0x10 => Ok(vec![CartridgeCapability::MBC3, CartridgeCapability::Timer, CartridgeCapability::RAM, CartridgeCapability::Battery]),
            0x11 => Ok(single(CartridgeCapability::MBC3)),
            0x12 => Ok(vec![CartridgeCapability::MBC3, CartridgeCapability::RAM]),
            0x13 => Ok(vec![CartridgeCapability::MBC3, CartridgeCapability::RAM, CartridgeCapability::Battery]),
            0x15 => Ok(single(CartridgeCapability::MBC4)),
            0x16 => Ok(vec![CartridgeCapability::MBC4, CartridgeCapability::RAM]),
            0x17 => Ok(vec![CartridgeCapability::MBC4, CartridgeCapability::RAM, CartridgeCapability::Battery]),
            0x19 => Ok(single(CartridgeCapability::MBC5)),
            0x1A => Ok(vec![CartridgeCapability::MBC5, CartridgeCapability::RAM]),
            0x1B => Ok(vec![CartridgeCapability::MBC5, CartridgeCapability::RAM, CartridgeCapability::Battery]),
            0x1C => Ok(vec![CartridgeCapability::MBC5, CartridgeCapability::Rumble]),
            0x1D => Ok(vec![CartridgeCapability::MBC5, CartridgeCapability::Rumble, CartridgeCapability::RAM]),
            0x1E => Ok(vec![CartridgeCapability::MBC5, CartridgeCapability::Rumble, CartridgeCapability::RAM, CartridgeCapability::Battery]),
            0xFC => Ok(single(CartridgeCapability::PocketCamera)),
            0xFD => Ok(single(CartridgeCapability::BandaiTama5)),
            0xFE => Ok(single(CartridgeCapability::HuC3)),
            0xFF => Ok(vec![CartridgeCapability::HuC1, CartridgeCapability::RAM, CartridgeCapability::Battery]),
            _ => Err(String::from_str("invalid cartridge type value")),
        }
    }
}


/// Whether a cartridge type byte is in the table: 0x00-0x03, 0x05-0x06, 0x08-0x09,
/// 0x0B-0x0D, 0x0F-0x13, 0x15-0x17, 0x19-0x1E and 0xFC-0xFF.
pub open spec fn known_type(value: u8) -> bool {
    value <= 0x03 || value == 0x05 || value == 0x06 || value == 0x08 || value == 0x09
        || (0x0B <= value <= 0x0D) || (0x0F <= value <= 0x13) || (0x15 <= value <= 0x17)
        || (0x19 <= value <= 0x1E) || value >= 0xFC
}

/// The chip that drives a cartridge of a known type, by the ranges of the table: none
/// (plain ROM) for 0x00, 0x08 and 0x09; MBC1 for 0x01-0x03; MBC2 for 0x05-0x06; MMM01
/// for 0x0B-0x0D; MBC3 for 0x0F-0x13; MBC4 for 0x15-0x17; MBC5 for 0x19-0x1E; then the
/// pocket camera, Bandai TAMA5, HuC3 and HuC1 at 0xFC to 0xFF.
pub open spec fn type_chip(value: u8) -> CartridgeCapability {
    if value == 0x00 || value == 0x08 || value == 0x09 {
        CartridgeCapability::ROM
    } else if value <= 0x03 {
        CartridgeCapability::MBC1
    } else if value <= 0x06 {
        CartridgeCapability::MBC2
    } else if value <= 0x0D {
        CartridgeCapability::MMM01
    } else if value <= 0x13 {
        CartridgeCapability::MBC3
    } else if value <= 0x17 {
        CartridgeCapability::MBC4
    } else if value <= 0x1E {
        CartridgeCapability::MBC5
    } else if value == 0xFC {
        CartridgeCapability::PocketCamera
    } else if value == 0xFD {
        CartridgeCapability::BandaiTama5
    } else if value == 0xFE {
        CartridgeCapability::HuC3
    } else {
        CartridgeCapability::HuC1
    }
}

/// The known types with cartridge RAM.
pub open spec fn type_has_ram(value: u8) -> bool {
    value == 0x02 || value == 0x03 || value == 0x08 || value == 0x09 || value == 0x0C || value == 0x0D
        || value == 0x10 || value == 0x12 || value == 0x13 || value == 0x16 || value == 0x17
        || value == 0x1A || value == 0x1B || value == 0x1D || value == 0x1E || value == 0xFF
}

/// The known types with a battery.
pub open spec fn type_has_battery(value: u8) -> bool {
    value == 0x03 || value == 0x06 || value == 0x09 || value == 0x0D || value == 0x0F || value == 0x10
        || value == 0x13 || value == 0x17 || value == 0x1B || value == 0x1E || value == 0xFF
}

/// The known types with a real-time clock: 0x0F and 0x10.
pub open spec fn type_has_timer(value: u8) -> bool {
    value == 0x0F || value == 0x10
}

/// The known types with a rumble motor: 0x1C to 0x1E.
pub open spec fn type_has_rumble(value: u8) -> bool {
    0x1C <= value <= 0x1E
}

/// One capability where `present` holds, none elsewhere.
pub open spec fn optional(present: bool, capability: CartridgeCapability) -> Seq<CartridgeCapability> {
    if present {
        seq![capability]
    } else {
        seq![]
    }
}

/// The cartridge type byte follows the hardware table: a known type names its chip
/// first, then, where it has them, its clock, its rumble motor, its RAM and its battery;
/// an unknown type names nothing.
pub proof fn lemma_cartridge_types(value: u8)
    ensures
        spec_capabilities(value) is Some <==> known_type(value),
        known_type(value) ==> spec_capabilities(value) == Some(
            seq![type_chip(value)]
                + optional(type_has_timer(value), CartridgeCapability::Timer)
                + optional(type_has_rumble(value), CartridgeCapability::Rumble)
                + optional(type_has_ram(value), CartridgeCapability::RAM)
                + optional(type_has_battery(value), CartridgeCapability::Battery),
        ),
{
    if known_type(value) {
        let c = seq![type_chip(value)]
            + optional(type_has_timer(value), CartridgeCapability::Timer)
            + optional(type_has_rumble(value), CartridgeCapability::Rumble)
            + optional(type_has_ram(value), CartridgeCapability::RAM)
            + optional(type_has_battery(value), CartridgeCapability::Battery);
        assert(spec_capabilities(value)->0 =~= c);
    }
}

} // verus!
