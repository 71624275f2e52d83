use vstd::prelude::*;
use vstd::utf8::{valid_utf8, decode_utf8};
use crate::cartridge::cartridge_capability::{CartridgeCapability, spec_capabilities};
use crate::util::{ut8_decode_trim, without_zeros};

verus! {

/// Where the game's title starts, in ASCII uppercase characters.
pub const GAME_TITLE_OFFSET: usize = 0x0134;

/// Where the manufacturer code of newer cartridges starts (4 uppercase characters).
pub const MANUFACTURER_CODE_START: usize = 0x013F;

/// Where the manufacturer code ends (exclusive).
pub const MANUFACTURER_CODE_END: usize = 0x0143;

/// The byte that tells which Game Boy Color functions a cartridge supports.
pub const CGB_FLAG_OFFSET: usize = 0x0143;

/// Where the publisher code of post-SGB cartridges starts (2 characters).
pub const NEW_LICENSEE_CODE_START: usize = 0x0144;

/// Where the publisher code ends (exclusive).
pub const NEW_LICENSEE_CODE_END: usize = 0x0146;

/// The byte that tells whether the game has Super Game Boy functions.
pub const SGB_FLAG_OFFSET: usize = 0x0146;

/// The value of that byte when it does.
pub const SGB_FLAG_ENABLED: u8 = 0x03;

/// The byte that tells the cartridge type.
pub const CARTRIDGE_TYPE_OFFSET: usize = 0x0147;

/// The byte that tells the ROM size.
pub const ROM_SIZE_OFFSET: usize = 0x0148;

/// The byte that tells the size of the external RAM.
pub const RAM_SIZE_OFFSET: usize = 0x0149;

/// The byte that tells the destination market.
pub const DESTINATION_OFFSET: usize = 0x014A;

/// The publisher code of pre-SGB cartridges.
pub const OLD_LICENSEE_CODE_OFFSET: usize = 0x014B;

/// The game's version number.
pub const VERSION_OFFSET: usize = 0x014C;

/// The checksum of the header bytes 0x0134-0x014C.
pub const HEADER_CHECKSUM_OFFSET: usize = 0x014D;

/// Why a cartridge header could not be read.
#[derive(Debug, Copy, Clone, PartialEq, Eq, Structural)]
pub enum MetadataError {
    /// A text field (title, manufacturer or publisher code) is not valid UTF-8.
    InvalidText,
    /// The cartridge type byte is not a known type.
    InvalidCartridgeType,
    /// The ROM size byte is not a known size.
    InvalidRomSize,
    /// The RAM size byte is not a known size.
    InvalidRamSize,
    /// The destination byte is neither Japanese nor non-Japanese.
    InvalidDestination,
}

/// Which Game Boy Color functions a cartridge supports.
#[derive(Debug, Copy, Clone, PartialEq, Eq, Structural)]
pub enum CGBFlag {
    CGBOnly,
    SupportsCGB,
}

/// The market a cartridge was made for.
#[derive(Debug, Copy, Clone, PartialEq, Eq, Structural)]
pub enum Destination {
    Japanese,
    NonJapanese,
}

pub open spec fn spec_cgb_flag(value: u8) -> Option<CGBFlag> {
    if value == 0x80 {
        Some(CGBFlag::CGBOnly)
    } else if value == 0xC0 {
        Some(CGBFlag::SupportsCGB)
    } else {
        None
    }
}

pub open spec fn spec_destination(value: u8) -> Option<Destination> {
    if value == 0 {
        Some(Destination::Japanese)
    } else if value == 1 {
        Some(Destination::NonJapanese)
    } else {
        None
    }
}

/// The ROM size in bytes that a size code stands for.
pub open spec fn spec_rom_size(value: u8) -> Option<usize> {
    match value {
        0x00 => Some(32768usize),
        0x01 => Some(65536usize),
        0x02 => Some(131072usize),
        0x03 => Some(262144usize),
        0x04 => Some(524288usize),
        0x05 => Some(1048576usize),
        0x06 => Some(2097152usize),
        0x07 => Some(4194304usize),
        0x52 => Some(1153433usize),
        0x53 => Some(1258291usize),
        0x54 => Some(1572864usize),
        _ => None,
    }
}

/// The RAM size in bytes that a size code stands for.
pub open spec fn spec_ram_size(value: u8) -> Option<usize> {
    match value {
        0x00 => Some(0usize),
        0x01 => Some(2048usize),
        0x02 => Some(8192usize),
        0x03 => Some(32768usize),
        _ => None,
    }
}

/// Whether a text field, zero bytes left out, is valid UTF-8.
pub open spec fn text_ok(bytes: Seq<u8>) -> bool {
    valid_utf8(without_zeros(bytes))
}

/// The characters of a text field, zero bytes left out.
pub open spec fn text_of(bytes: Seq<u8>) -> Seq<char> {
    decode_utf8(without_zeros(bytes))
}

/// A code field: its text where it has exactly `len` nonzero bytes.
pub open spec fn code_of(bytes: Seq<u8>, len: nat) -> Option<Seq<char>> {
    if without_zeros(bytes).len() == len {
        Some(text_of(bytes))
    } else {
        None
    }
}

pub open spec fn manufacturer_bytes(b: Seq<u8>) -> Seq<u8> {
    b.subrange(MANUFACTURER_CODE_START as int, MANUFACTURER_CODE_END as int)
}

pub open spec fn new_licensee_bytes(b: Seq<u8>) -> Seq<u8> {
    b.subrange(NEW_LICENSEE_CODE_START as int, NEW_LICENSEE_CODE_END as int)
}

/// Where the title ends: before the CGB flag, and before the manufacturer code too on a
/// color cartridge that has one.
pub open spec fn title_end(b: Seq<u8>) -> int {
    if spec_cgb_flag(b[CGB_FLAG_OFFSET as int]) is Some {
        if without_zeros(manufacturer_bytes(b)).len() == 4 {
            0x013E
        } else {
            0x0142
        }
    } else {
        0x0143
    }
}

pub open spec fn title_bytes(b: Seq<u8>) -> Seq<u8> {
    b.subrange(GAME_TITLE_OFFSET as int, title_end(b))
}

/// The first thing wrong with a header, in the order in which it is read.
pub open spec fn metadata_error(b: Seq<u8>) -> Option<MetadataError> {
    if !text_ok(manufacturer_bytes(b)) || !text_ok(title_bytes(b)) || !text_ok(new_licensee_bytes(b)) {
        Some(MetadataError::InvalidText)
    } else if spec_capabilities(b[CARTRIDGE_TYPE_OFFSET as int]) is None {
        Some(MetadataError::InvalidCartridgeType)
    } else if spec_rom_size(b[ROM_SIZE_OFFSET as int]) is None {
        Some(MetadataError::InvalidRomSize)
    } else if spec_ram_size(b[RAM_SIZE_OFFSET as int]) is None {
        Some(MetadataError::InvalidRamSize)
    } else if spec_destination(b[DESTINATION_OFFSET as int]) is None {
        Some(MetadataError::InvalidDestination)
    } else {
        None
    }
}

/// The header fields as plain values.
pub struct MetadataView {
    pub title: Seq<char>,
    pub manufacturer_code: Option<Seq<char>>,
    pub cgb_flag: Option<CGBFlag>,
    pub new_licensee_code: Option<Seq<char>>,
    pub sgb_enhanced: bool,
    pub capabilities: Seq<CartridgeCapability>,
    pub rom_size: usize,
    pub ram_size: usize,
    pub destination: Destination,
    pub old_licensee_code: Option<u8>,
    pub version: u8,
    pub header_checksum: u8,
    pub global_checksum: u8,
}

/// The old publisher code; none where it says that the new one is used (0x33).
pub open spec fn spec_old_licensee_code(value: u8) -> Option<u8> {
    if value == 0x33 {
        None
    } else {
        Some(value)
    }
}

/// The fields of a header that has nothing wrong with it.
pub open spec fn spec_metadata(b: Seq<u8>) -> MetadataView {
    MetadataView {
        title: text_of(title_bytes(b)),
        manufacturer_code: code_of(manufacturer_bytes(b), 4),
        cgb_flag: spec_cgb_flag(b[CGB_FLAG_OFFSET as int]),
        new_licensee_code: code_of(new_licensee_bytes(b), 2),
        sgb_enhanced: b[SGB_FLAG_OFFSET as int] == SGB_FLAG_ENABLED,
        capabilities: spec_capabilities(b[CARTRIDGE_TYPE_OFFSET as int]).unwrap(),
        rom_size: spec_rom_size(b[ROM_SIZE_OFFSET as int]).unwrap(),
        ram_size: spec_ram_size(b[RAM_SIZE_OFFSET as int]).unwrap(),
        destination: spec_destination(b[DESTINATION_OFFSET as int]).unwrap(),
        old_licensee_code: spec_old_licensee_code(b[OLD_LICENSEE_CODE_OFFSET as int]),
        version: b[VERSION_OFFSET as int],
        header_checksum: b[HEADER_CHECKSUM_OFFSET as int],
        global_checksum: 0,
    }
}

pub open spec fn string_option_view(s: Option<String>) -> Option<Seq<char>> {
    match s {
        Some(s) => Some(s@),
        None => None,
    }
}

/// What the header of a cartridge says.
pub struct CartridgeMetadata {
    pub title: String,
    pub manufacturer_code: Option<String>,
    pub cgb_flag: Option<CGBFlag>,
    pub new_licensee_code: Option<String>,
    pub sgb_enhanced: bool,
    pub capabilities: Vec<CartridgeCapability>,
    pub rom_size: usize,
    pub ram_size: usize,
    pub destination: Destination,
    pub old_licensee_code: Option<u8>,
    pub version: u8,
    pub header_checksum: u8,
    pub global_checksum: u8,
}

impl View for CartridgeMetadata {
    type V = MetadataView;

    open spec fn view(&self) -> MetadataView {
        MetadataView {
            title: self.title@,
            manufacturer_code: string_option_view(self.manufacturer_code),
            cgb_flag: self.cgb_flag,
            new_licensee_code: string_option_view(self.new_licensee_code),
            sgb_enhanced: self.sgb_enhanced,
            capabilities: self.capabilities@,
            rom_size: self.rom_size,
            ram_size: self.ram_size,
            destination: self.destination,
            old_licensee_code: self.old_licensee_code,
            version: self.version,
            header_checksum: self.header_checksum,
            global_checksum: self.global_checksum,
        }
    }
}

/// The bytes of `buffer` from `start` (inclusive) to `end` (exclusive).
fn bytes_between(buffer: &[u8], start: usize, end: usize) -> (r: Vec<u8>)
    requires
        start <= end <= buffer@.len(),
    ensures
        r@ == buffer@.subrange(start as int, end as int),
{
    let mut r: Vec<u8> = Vec::new();
    let mut i: usize = start;
    while i < end
        invariant
            start <= i <= end <= buffer@.len(),
            r@ == buffer@.subrange(start as int, i as int),
        decreases end - i,
    {
        r.push(buffer[i]);
        i = i + 1;
    }
    r
}

/// Decodes a text field from `start` to `end`; also returns how many nonzero bytes it has.
fn decode_field(buffer: &[u8], start: usize, end: usize) -> (r: Result<(String, usize), MetadataError>)
    requires
        start <= end <= buffer@.len(),
    ensures
        r is Ok <==> text_ok(buffer@.subrange(start as int, end as int)),
        r matches Ok((s, n)) ==> s@ == text_of(buffer@.subrange(start as int, end as int))
            && n == without_zeros(buffer@.subrange(start as int, end as int)).len(),
        r matches Err(e) ==> e == MetadataError::InvalidText,
{
    let bytes = bytes_between(buffer, start, end);
    let trimmed = crate::util::trim_zeros(bytes.as_slice());
    let n = trimmed.len();
    match ut8_decode_trim(bytes) {
        Ok(s) => Ok((s, n)),
        Err(_) => Err(MetadataError::InvalidText),
    }
}

impl CGBFlag {
    /// The CGB flag that a header byte stands for, if any.
    pub fn from(value: u8) -> (r: Option<CGBFlag>)
        ensures
            r == spec_cgb_flag(value),
    {
        match value {
            0x80 => Some(CGBFlag::CGBOnly),
            0xC0 => Some(CGBFlag::SupportsCGB),
            _ => None,
        }
    }
}

impl Destination {
    /// The destination that a header byte stands for; an error for any other byte.
    pub fn from(value: u8) -> (r: Result<Destination, String>)
        ensures
            match r {
                Ok(d) => spec_destination(value) == Some(d),
                Err(e) => spec_destination(value) is None && e@ == "invalid destination code"@,
            },
    {
        match value {
            0x00 => Ok(Destination::Japanese),
            0x01 => Ok(Destination::NonJapanese),
            _ => Err(String::from_str("invalid destination code")),
        }
    }
}

impl CartridgeMetadata {
    /// Reads the header of a cartridge image: its fields, or the first thing wrong with it.
    pub fn from_buffer(buffer: &[u8]) -> (r: Result<CartridgeMetadata, MetadataError>)
        requires
            buffer@.len() > HEADER_CHECKSUM_OFFSET,
        ensures
            r is Err <==> metadata_error(buffer@) is Some,
            r matches Err(e) ==> metadata_error(buffer@) == Some(e),
            r matches Ok(m) ==> m@ == spec_metadata(buffer@),
    {
        let (title, manufacturer_code, cgb_flag) = Self::parse_title_section(buffer)?;
        let new_licensee_code = Self::parse_new_licensee_code(buffer)?;
        let capabilities = match CartridgeCapability::from_byte(buffer[CARTRIDGE_TYPE_OFFSET]) {
            Ok(c) => c,
            Err(_) => return Err(MetadataError::InvalidCartridgeType),
        };
        let rom_size = Self::parse_rom_size(buffer)?;
        let ram_size = Self::parse_ram_size(buffer)?;
        let destination = match Destination::from(buffer[DESTINATION_OFFSET]) {
            Ok(d) => d,
            Err(_) => return Err(MetadataError::InvalidDestination),
        };
        Ok(CartridgeMetadata {
            title,
            manufacturer_code,
            cgb_flag,
            new_licensee_code,
            sgb_enhanced: buffer[SGB_FLAG_OFFSET] == SGB_FLAG_ENABLED,
            capabilities,
            rom_size,
            ram_size,
            destination,
            old_licensee_code: Self::parse_old_licensee_code(buffer),
            version: buffer[VERSION_OFFSET],
            header_checksum: buffer[HEADER_CHECKSUM_OFFSET],
            global_checksum: 0,
        })
    }

    /// Reads the title, the manufacturer code and the CGB flag.
    fn parse_title_section(buffer: &[u8]) -> (r: Result<(String, Option<String>, Option<CGBFlag>), MetadataError>)
        requires
            buffer@.len() > HEADER_CHECKSUM_OFFSET,
        ensures
            r is Ok <==> text_ok(manufacturer_bytes(buffer@)) && text_ok(title_bytes(buffer@)),
            r matches Ok((t, m, c)) ==> t@ == text_of(title_bytes(buffer@))
                && string_option_view(m) == code_of(manufacturer_bytes(buffer@), 4)
                && c == spec_cgb_flag(buffer@[CGB_FLAG_OFFSET as int]),
            r matches Err(e) ==> e == MetadataError::InvalidText,
    {
        let mut title_end_offset: usize = CGB_FLAG_OFFSET;
        let cgb_flag = CGBFlag::from(buffer[CGB_FLAG_OFFSET]);
        let manufacturer_code = Self::parse_manufacturer_code(buffer)?;
        if cgb_flag.is_some() {
            title_end_offset = title_end_offset - 1;
            if manufacturer_code.is_some() {
                title_end_offset = title_end_offset - 4;
            }
        }
        let (title, _) = decode_field(buffer, GAME_TITLE_OFFSET, title_end_offset)?;
        Ok((title, manufacturer_code, cgb_flag))
    }

    /// Reads the manufacturer code: none unless it has exactly 4 nonzero bytes.
    fn parse_manufacturer_code(buffer: &[u8]) -> (r: Result<Option<String>, MetadataError>)
        requires
            buffer@.len() > HEADER_CHECKSUM_OFFSET,
        ensures
            r is Ok <==> text_ok(manufacturer_bytes(buffer@)),
            r matches Ok(c) ==> string_option_view(c) == code_of(manufacturer_bytes(buffer@), 4),
            r matches Err(e) ==> e == MetadataError::InvalidText,
    {
        let (code, n) = decode_field(buffer, MANUFACTURER_CODE_START, MANUFACTURER_CODE_END)?;
        if n == 4 {
            return Ok(Some(code));
        }
        Ok(None)
    }

    /// Reads the new publisher code: none unless it has exactly 2 nonzero bytes.
    fn parse_new_licensee_code(buffer: &[u8]) -> (r: Result<Option<String>, MetadataError>)
        requires
            buffer@.len() > HEADER_CHECKSUM_OFFSET,
        ensures
            r is Ok <==> text_ok(new_licensee_bytes(buffer@)),
            r matches Ok(c) ==> string_option_view(c) == code_of(new_licensee_bytes(buffer@), 2),
            r matches Err(e) ==> e == MetadataError::InvalidText,
    {
        let (code, n) = decode_field(buffer, NEW_LICENSEE_CODE_START, NEW_LICENSEE_CODE_END)?;
        if n == 2 {
            return Ok(Some(code));
        }
        Ok(None)
    }

    /// The ROM size in bytes.
    fn parse_rom_size(buffer: &[u8]) -> (r: Result<usize, MetadataError>)
        requires
            buffer@.len() > HEADER_CHECKSUM_OFFSET,
        ensures
            match r {
                Ok(s) => spec_rom_size(buffer@[ROM_SIZE_OFFSET as int]) == Some(s),
                Err(e) => spec_rom_size(buffer@[ROM_SIZE_OFFSET as int]) is None
                    && e == MetadataError::InvalidRomSize,
            },
    {
        match buffer[ROM_SIZE_OFFSET] {
            0x00 => Ok(32768),
            0x01 => Ok(65536),
            0x02 => Ok(131072),
            0x03 => Ok(262144),
            0x04 => Ok(524288),
            0x05 => Ok(1048576),
            0x06 => Ok(2097152),
            0x07 => Ok(4194304),
            0x52 => Ok(1153433),
            0x53 => Ok(1258291),
            0x54 => Ok(1572864),
            _ => Err(MetadataError::InvalidRomSize),
        }
    }

    /// The external RAM size in bytes.
    fn parse_ram_size(buffer: &[u8]) -> (r: Result<usize, MetadataError>)
        requires
            buffer@.len() > HEADER_CHECKSUM_OFFSET,
        ensures
            match r {
                Ok(s) => spec_ram_size(buffer@[RAM_SIZE_OFFSET as int]) == Some(s),
                Err(e) => spec_ram_size(buffer@[RAM_SIZE_OFFSET as int]) is None
                    && e == MetadataError::InvalidRamSize,
            },
    {
        match buffer[RAM_SIZE_OFFSET] {
            0x00 => Ok(0),
            0x01 => Ok(2048),
            0x02 => Ok(8192),
            0x03 => Ok(32768),
            _ => Err(MetadataError::InvalidRamSize),
        }
    }

    /// The old publisher code; none where it says that the new one is used.
    fn parse_old_licensee_code(buffer: &[u8]) -> (r: Option<u8>)
        requires
            buffer@.len() > HEADER_CHECKSUM_OFFSET,
        ensures
            r == spec_old_licensee_code(buffer@[OLD_LICENSEE_CODE_OFFSET as int]),
    {
        let value = buffer[OLD_LICENSEE_CODE_OFFSET];
        match value {
            0x33 => None,
            _ => Some(value),
        }
    }
}


/// ROM size codes 0 to 7 stand for 32 KiB doubled `code` times; RAM size codes stand for
/// no RAM, 2 KiB, 8 KiB and 32 KiB, each size after the first four times the one before.
pub proof fn lemma_size_codes(code: u8)
    ensures
        code <= 7 ==> spec_rom_size(code) == Some((32768 * vstd::arithmetic::power2::pow2(code as nat)) as usize),
        code > 7 && code < 0x52 ==> spec_rom_size(code) is None,
        code == 0 ==> spec_ram_size(code) == Some(0usize),
        1 <= code <= 3 ==> spec_ram_size(code) == Some((512 * vstd::arithmetic::power::pow(4, code as nat)) as usize),
        code > 3 ==> spec_ram_size(code) is None,
{
    vstd::arithmetic::power2::lemma2_to64();
    vstd::arithmetic::power::lemma_pow1(4);
    vstd::arithmetic::power::lemma_pow_adds(4, 1, 1);
    vstd::arithmetic::power::lemma_pow_adds(4, 2, 1);
}


/// Where the header fields are: the title from 0x134 (up to 0x143 on a cartridge without
/// a color flag), the color flag at 0x143 (0x80 color only, 0xC0 color supported), the
/// Super Game Boy flag at 0x146 (0x03 enhanced), the cartridge type at 0x147, the ROM and
/// RAM size codes at 0x148 and 0x149, the destination at 0x14A (0 Japanese, 1 other
/// markets), the old publisher code at 0x14B (0x33 meaning the new one is used), the
/// version at 0x14C and the header checksum at 0x14D.
pub proof fn lemma_header_layout(b: Seq<u8>)
    requires
        b.len() >= 0x150,
    ensures
        spec_metadata(b).cgb_flag == (if b[0x143] == 0x80 {
            Some(CGBFlag::CGBOnly)
        } else if b[0x143] == 0xC0 {
            Some(CGBFlag::SupportsCGB)
        } else {
            None
        }),
        b[0x143] != 0x80 && b[0x143] != 0xC0 ==> title_bytes(b) == b.subrange(0x134, 0x143),
        spec_metadata(b).sgb_enhanced == (b[0x146] == 3),
        spec_metadata(b).capabilities == spec_capabilities(b[0x147]).unwrap(),
        spec_metadata(b).rom_size == spec_rom_size(b[0x148]).unwrap(),
        spec_metadata(b).ram_size == spec_ram_size(b[0x149]).unwrap(),
        b[0x14A] == 0 ==> spec_metadata(b).destination == Destination::Japanese,
        b[0x14A] == 1 ==> spec_metadata(b).destination == Destination::NonJapanese,
        spec_metadata(b).old_licensee_code == (if b[0x14B] == 0x33 { None } else { Some(b[0x14B]) }),
        spec_metadata(b).version == b[0x14C],
        spec_metadata(b).header_checksum == b[0x14D],
        metadata_error(b) is None ==> spec_capabilities(b[0x147]) is Some && spec_rom_size(b[0x148]) is Some
            && spec_ram_size(b[0x149]) is Some && b[0x14A] <= 1,
        text_ok(manufacturer_bytes(b)) && text_ok(title_bytes(b)) && text_ok(new_licensee_bytes(b))
            && spec_capabilities(b[0x147]) is None ==> metadata_error(b) == Some(MetadataError::InvalidCartridgeType),
{
}

} // verus!
