use rustyboy::cartridge::cartridge_capability::CartridgeCapability;
use rustyboy::cartridge::cartridge_metadata::{CGBFlag, CartridgeMetadata, Destination, MetadataError};
use rustyboy::cartridge::mbc::mbc1::{MBC1, MBC1Mode};
use rustyboy::cartridge::mbc::mbc2::MBC2;
use rustyboy::cartridge::mbc::mbc3::MBC3;
use rustyboy::cartridge::mbc::mbc5::MBC5;
use rustyboy::cartridge::mbc::{Controller, MBCFactory, MBCVariant, MemoryBankController};
use rustyboy::cartridge::Cartridge;
use rustyboy::bus::{Readable, Writable};

#[test]
fn mbc2_rom_bank_switching() {
    let mut mbc = MBC2::new(&vec![]);

    // shouldn't work
    mbc.write_rom(0x2000, 15);
    assert_ne!(mbc.rom_bank(), 15);

    // should work
    mbc.write_rom(0x2100, 15);
    assert_eq!(mbc.rom_bank(), 15);
}

#[test]
fn mbc2_rom_bank_switching_zero() {
    let mut mbc = MBC2::new(&vec![]);
    mbc.write_rom(0x2100, 0);
    assert_eq!(mbc.rom_bank(), 1);
}

#[test]
fn mbc2_enable_ram() {
    let mut mbc = MBC2::new(&vec![]);

    // shouldn't work, bad address
    mbc.write_rom(0x0100, 0x0A);
    assert!(!mbc.ram_enabled());

    // shouldn't work, bad value
    mbc.write_rom(0x0000, 0x0B);
    assert!(!mbc.ram_enabled());

    // should work
    mbc.write_rom(0x0000, 0x0A);
    assert!(mbc.ram_enabled());
}

#[test]
fn mbc5_rom_bank_switching() {
    let mut mbc = MBC5::new(&vec![]);
    mbc.write_rom(0x2000, 4);
    assert_eq!(mbc.rom_bank(), 4);
}

#[test]
fn mbc5_rom_bank_switching_zero() {
    let mut mbc = MBC5::new(&vec![]);
    mbc.write_rom(0x2000, 0);
    assert_eq!(mbc.rom_bank(), 0);
}

#[test]
fn mbc5_enable_ram() {
    let mut mbc = MBC5::new(&vec![]);
    mbc.write_rom(0, 0x0A);
    assert!(mbc.ram_enabled());
}

#[test]
fn ram_bank_default() {
    let mbc = MBC5::new(&vec![]);
    assert_eq!(mbc.relative_ram_address(0xA000), 0);
}

#[test]
fn ram_bank_switching() {
    let mut mbc = MBC5::new(&vec![]);
    mbc.set_ram_enabled(true);
    mbc.write_rom(0x4000, 0);
    assert_eq!(mbc.ram_bank(), 0);

    mbc.write_rom(0x4000, 0x1F);
    assert_eq!(mbc.ram_bank(), 0x0F);
}

#[test]
fn rom_bank_defaults() {
    let variants = [MBCVariant::MBC1, MBCVariant::MBC2, MBCVariant::MBC3, MBCVariant::MBC5];
    for variant in variants.iter() {
        if let Some(mbc) = MBCFactory::from_variant(variant, &vec![]) {
            assert_eq!(mbc.relative_rom_address(0x4000), 0x4000);
        }
    }
}

#[test]
fn mbc5_high_rom_bank_bits() {
    let mut mbc = MBC5::new(&vec![]);
    mbc.write_rom(0x2000, 0x34);
    mbc.write_rom(0x3000, 0x01);
    assert_eq!(mbc.rom_bank(), 0x0134);
    assert_eq!(mbc.relative_rom_address(0x4000), 0x4000 + 0x133 * 0x4000);
}

#[test]
fn mbc5_ram_bank_needs_ram_enabled() {
    let mut mbc = MBC5::new(&vec![]);
    mbc.write_rom(0x4000, 3);
    assert_eq!(mbc.ram_bank(), 0);
    mbc.write_rom(0x0000, 0x0A);
    mbc.write_rom(0x4000, 3);
    assert_eq!(mbc.ram_bank(), 3);
    assert_eq!(mbc.relative_ram_address(0xA001), 1 + 3 * 0xFF);
}

#[test]
fn mbc1_rom_bank_never_zero() {
    let mut mbc = MBC1::new(&vec![]);
    assert_eq!(mbc.rom_bank(), 1);
    mbc.write_rom(0x2000, 0);
    assert_eq!(mbc.rom_bank(), 1);
    mbc.write_rom(0x3FFF, 0xE5);
    assert_eq!(mbc.rom_bank(), 0x05);
    assert_eq!(mbc.relative_rom_address(0x4000), 0x4000 + 4 * 0x4000);
}

#[test]
fn mbc1_ram_only_in_ram_mode() {
    let mut mbc = MBC1::new(&vec![]);
    mbc.write_rom(0x0000, 0x0A);
    assert!(!mbc.ram_enabled());
    mbc.write_rom(0x6000, 0x80);
    assert_eq!(mbc.mode, MBC1Mode::MaxRAM);
    mbc.write_rom(0x0000, 0x0A);
    assert!(mbc.ram_enabled());
    mbc.write_rom(0x4000, 0x80);
    assert_eq!(mbc.ram_bank(), 1);
    mbc.write_rom(0x4000, 0x82);
    assert_eq!(mbc.ram_bank(), 2);
    assert_eq!(mbc.mode, MBC1Mode::MaxRAM);
    // bit 7 clear at 0x4000 selects ROM banking mode, and the RAM bank stays
    mbc.write_rom(0x4000, 3);
    assert_eq!(mbc.mode, MBC1Mode::MaxROM);
    assert_eq!(mbc.ram_bank(), 2);
}

#[test]
fn mbc1_windows_start_at_decimal_bounds() {
    let mut mbc = MBC1::new(&vec![]);
    mbc.write_rom(1999, 7);
    assert_eq!(mbc.rom_bank(), 1);
    mbc.write_rom(2000, 7);
    assert_eq!(mbc.rom_bank(), 7);
    mbc.write_rom(0x6000, 0x80);
    mbc.write_rom(0x1000, 0x0A);
    assert_eq!(mbc.rom_bank(), 0x0A);
    assert!(mbc.ram_enabled());
    mbc.write_rom(0x2000, 0x03);
    assert_eq!(mbc.rom_bank(), 3);
    assert_eq!(mbc.ram_bank(), 3);
}

#[test]
fn mbc3_bank_switching() {
    let mut mbc = MBC3::new(&[]);
    assert_eq!(mbc.rom_bank(), 1);
    assert_eq!(mbc.ram_bank(), 0);
    assert!(!mbc.ram_enabled());
    mbc.write_rom(0x2000, 0x55);
    assert_eq!(mbc.rom_bank(), 0x55);
    mbc.write_rom(0x3FFF, 0x80);
    assert_eq!(mbc.rom_bank(), 1);
    mbc.write_rom(0x0000, 0x0A);
    assert!(mbc.ram_enabled());
    mbc.write_rom(0x4000, 3);
    assert_eq!(mbc.ram_bank(), 3);
    // a clock register select leaves the RAM bank as it is
    mbc.write_rom(0x5FFF, 0x08);
    assert_eq!(mbc.ram_bank(), 3);
    mbc.write_rom(0x6000, 1);
    assert_eq!(mbc.rom_bank(), 1);
    mbc.write_rom(0x1FFF, 0x00);
    assert!(!mbc.ram_enabled());
    assert_eq!(mbc.relative_rom_address(0x4000), 0x4000);
}

#[test]
fn variant_from_capabilities() {
    assert_eq!(MBCVariant::from_capabilities(&vec![CartridgeCapability::ROM]), None);
    assert_eq!(
        MBCVariant::from_capabilities(&vec![CartridgeCapability::MBC5, CartridgeCapability::RAM]),
        Some(MBCVariant::MBC5)
    );
    assert_eq!(
        MBCVariant::from_capabilities(&vec![CartridgeCapability::MBC3, CartridgeCapability::MBC1]),
        Some(MBCVariant::MBC1)
    );
    assert_eq!(MBCFactory::from_variant(&MBCVariant::MBC3, &vec![]), Some(Controller::MBC3(MBC3::new(&[]))));
    assert_eq!(MBCFactory::from_variant(&MBCVariant::MBC2, &vec![]), Some(Controller::MBC2(MBC2::new(&[]))));
}

#[test]
fn capabilities_from_byte() {
    assert_eq!(
        CartridgeCapability::from_byte(0x03).unwrap(),
        vec![CartridgeCapability::MBC1, CartridgeCapability::RAM, CartridgeCapability::Battery]
    );
    assert_eq!(CartridgeCapability::from_byte(0x04), Err(String::from("invalid cartridge type value")));
}

/// A header of a ROM-only cartridge titled "TETRIS", 32 KiB of ROM and no RAM.
fn header() -> Vec<u8> {
    let mut buffer = vec![0u8; 0x8000];
    for (i, b) in "TETRIS".bytes().enumerate() {
        buffer[0x134 + i] = b;
    }
    buffer[0x14A] = 0x01;
    buffer[0x14B] = 0x33;
    buffer[0x14C] = 0x02;
    buffer[0x14D] = 0x77;
    buffer
}

#[test]
fn reads_metadata() {
    let buffer = header();
    let metadata = CartridgeMetadata::from_buffer(&buffer).unwrap();
    assert_eq!(metadata.title, "TETRIS");
    assert_eq!(metadata.manufacturer_code, None);
    assert_eq!(metadata.cgb_flag, None);
    assert_eq!(metadata.new_licensee_code, None);
    assert!(!metadata.sgb_enhanced);
    assert_eq!(metadata.capabilities, vec![CartridgeCapability::ROM]);
    assert_eq!(metadata.rom_size, 32768);
    assert_eq!(metadata.ram_size, 0);
    assert_eq!(metadata.destination, Destination::NonJapanese);
    assert_eq!(metadata.old_licensee_code, None);
    assert_eq!(metadata.version, 2);
    assert_eq!(metadata.header_checksum, 0x77);
}

#[test]
fn reads_color_metadata() {
    let mut buffer = header();
    for (i, b) in "ABCD".bytes().enumerate() {
        buffer[0x13F + i] = b;
    }
    buffer[0x143] = 0xC0;
    buffer[0x144] = b'0';
    buffer[0x145] = b'1';
    buffer[0x146] = 0x03;
    buffer[0x148] = 0x52;
    buffer[0x149] = 0x03;
    buffer[0x14B] = 0x01;
    let metadata = CartridgeMetadata::from_buffer(&buffer).unwrap();
    assert_eq!(metadata.title, "TETRIS");
    assert_eq!(metadata.manufacturer_code, Some(String::from("ABCD")));
    assert_eq!(metadata.cgb_flag, Some(CGBFlag::SupportsCGB));
    assert_eq!(metadata.new_licensee_code, Some(String::from("01")));
    assert!(metadata.sgb_enhanced);
    assert_eq!(metadata.rom_size, 1153433);
    assert_eq!(metadata.ram_size, 32768);
    assert_eq!(metadata.old_licensee_code, Some(1));
}

#[test]
fn metadata_errors() {
    let mut buffer = header();
    buffer[0x147] = 0x04;
    assert_eq!(CartridgeMetadata::from_buffer(&buffer).err(), Some(MetadataError::InvalidCartridgeType));
    let mut buffer = header();
    buffer[0x148] = 0x08;
    assert_eq!(CartridgeMetadata::from_buffer(&buffer).err(), Some(MetadataError::InvalidRomSize));
    let mut buffer = header();
    buffer[0x149] = 0x04;
    assert_eq!(CartridgeMetadata::from_buffer(&buffer).err(), Some(MetadataError::InvalidRamSize));
    let mut buffer = header();
    buffer[0x14A] = 0x02;
    assert_eq!(CartridgeMetadata::from_buffer(&buffer).err(), Some(MetadataError::InvalidDestination));
    let mut buffer = header();
    buffer[0x134] = 0xFF;
    assert_eq!(CartridgeMetadata::from_buffer(&buffer).err(), Some(MetadataError::InvalidText));
    // a bad title comes before a bad cartridge type
    buffer[0x147] = 0x04;
    assert_eq!(CartridgeMetadata::from_buffer(&buffer).err(), Some(MetadataError::InvalidText));
}

#[test]
fn flags_from_bytes() {
    assert_eq!(CGBFlag::from(0x80), Some(CGBFlag::CGBOnly));
    assert_eq!(CGBFlag::from(0x81), None);
    assert_eq!(Destination::from(0x00), Ok(Destination::Japanese));
    assert_eq!(Destination::from(0x07), Err(String::from("invalid destination code")));
}

#[test]
fn cartridge_reads_and_banks() {
    let mut buffer = header();
    buffer[0x147] = 0x19; // MBC5
    buffer[0x148] = 0x01; // 64 KiB
    buffer.resize(0x10000, 0);
    buffer[0x0100] = 0x11;
    buffer[0x4000] = 0x22;
    buffer[0x8000] = 0x33;
    let mut cartridge = Cartridge::from_buffer(buffer).unwrap();
    assert_eq!(cartridge.read(0x0100), 0x11);
    assert_eq!(cartridge.read(0x4000), 0x22);
    cartridge.write(0x2000, 2);
    assert_eq!(cartridge.read(0x4000), 0x33);
    // ROM is never written
    cartridge.write(0x0100, 0x99);
    assert_eq!(cartridge.read(0x0100), 0x11);
    // RAM reads 0 until enabled
    assert_eq!(cartridge.read(0xA000), 0);
    assert_eq!(cartridge.read(0xC000), 0);
}

#[test]
fn cartridge_without_controller() {
    let buffer = header();
    let cartridge = Cartridge::from_buffer(buffer).unwrap();
    assert!(cartridge.mbc.is_none());
    assert_eq!(cartridge.read(0x7FFF), 0);
    assert_eq!(cartridge.read(0x0134), b'T');
}

fn metadata_with(capabilities: Vec<CartridgeCapability>) -> CartridgeMetadata {
    CartridgeMetadata {
        title: String::from("TEST"),
        manufacturer_code: None,
        cgb_flag: None,
        new_licensee_code: None,
        sgb_enhanced: false,
        capabilities,
        rom_size: 32768,
        ram_size: 0,
        destination: Destination::Japanese,
        old_licensee_code: None,
        version: 0,
        header_checksum: 0,
        global_checksum: 0,
    }
}

#[test]
fn controller_from_metadata() {
    assert_eq!(
        MBCFactory::from_metadata(&metadata_with(vec![CartridgeCapability::MBC3, CartridgeCapability::RAM])),
        Some(Controller::MBC3(MBC3::new(&[])))
    );
    assert!(MBCFactory::from_metadata(&metadata_with(vec![CartridgeCapability::MBC1])).is_some());
    assert!(MBCFactory::from_metadata(&metadata_with(vec![CartridgeCapability::ROM])).is_none());
    assert!(MBCFactory::from_metadata(&metadata_with(vec![CartridgeCapability::ROM, CartridgeCapability::RAM])).is_none());
    assert!(MBCFactory::from_metadata(&metadata_with(vec![CartridgeCapability::MBC4])).is_none());
}
