use vstd::prelude::*;
use vstd::arithmetic::power2::{lemma2_to64, lemma_pow2_strictly_increases, lemma_pow2_unfold, pow2};
use vstd::slice::slice_subrange;

verus! {

/// Offset of the 20-byte title in the first bank of the image.
pub const TITLE_OFFSET: usize = 0x7FC0;
pub const TITLE_LEN: usize = 20;
pub const MAP_MODE_OFFSET: usize = 0x7FD5;
pub const CHIPSET_OFFSET: usize = 0x7FD6;
pub const ROM_SIZE_OFFSET: usize = 0x7FD7;
pub const RAM_SIZE_OFFSET: usize = 0x7FD8;
pub const REGION_OFFSET: usize = 0x7FD9;
/// Size of the legacy pre-header that some images start with.
pub const COPIER_HEADER_LEN: usize = 512;

/// The memory model that the header declares.
#[derive(Debug, Clone, Copy, PartialEq, Eq, Structural)]
pub enum MapMode {
    LoRom2_68MHz,
    HiRom2_68MHz,
    SA1,
    ExHiRom2_68MHz,
    LoRom3_58MHz,
    HiRom3_58MHz,
    ExHiRom3_58MHz,
}

/// The chips that the cartridge carries.
#[derive(Debug, Clone, Copy, PartialEq, Eq, Structural)]
pub enum ChipsetType {
    ROM,
    ROMRAM,
    ROMRAMBATTERY,
    ROMSA1,
    ROMSA1RAM,
    ROMSA1RAMBATTERY,
    ROMSA1BATTERY,
}

#[derive(Debug, Clone, Copy, PartialEq, Eq, Structural)]
pub enum Region {
    Japan,
    USA,
    Europe,
}

/// Why an image was refused.
#[derive(Debug, Clone, Copy, PartialEq, Eq, Structural)]
pub enum RomError {
    /// The image ends before the header does.
    TooShort,
    /// The title is not valid UTF-8.
    InvalidTitle,
    InvalidMapMode(u8),
    InvalidChipset(u8),
    InvalidRegion(u8),
    /// A ROM or RAM size exponent of 32 or more: `1 << exponent` does not
    /// fit the 32-bit size fields.
    InvalidSize(u8),
}

/// The header of a cartridge image.
pub struct Cartdrige {
    pub headered: bool,
    pub game_title: String,
    pub fast_rom: bool,
    pub rom_mode: MapMode,
    pub chipset: ChipsetType,
    pub rom_size: u32,
    pub ram_size: u32,
    pub region: Region,
}

/// What `std::str::from_utf8` makes of some bytes: the characters when they
/// are valid UTF-8.
pub uninterp spec fn utf8_text(b: Seq<u8>) -> Option<Seq<char>>;

/// Whether `c` has the Unicode White_Space property, which is what
/// `char::is_whitespace` tests.
pub open spec fn is_white_space(c: char) -> bool {
    let u = c as u32;
    (0x09 <= u && u <= 0x0D) || u == 0x20 || u == 0x85 || u == 0xA0 || u == 0x1680 || (0x2000 <= u
        && u <= 0x200A) || u == 0x2028 || u == 0x2029 || u == 0x202F || u == 0x205F || u == 0x3000
}

/// `s` without its trailing white space.
pub open spec fn trimmed_end(s: Seq<char>) -> Seq<char>
    decreases s.len(),
{
    if s.len() > 0 && is_white_space(s.last()) {
        trimmed_end(s.drop_last())
    } else {
        s
    }
}

/// Relies on `std::str::from_utf8`: it succeeds exactly on valid UTF-8, and
/// its result depends on the bytes alone.
#[verifier::external_body]
fn decode_utf8(b: &[u8]) -> (r: Option<String>)
    ensures
        r is Some <==> utf8_text(b@) is Some,
        r matches Some(s) ==> utf8_text(b@) == Some(s@),
{
    match std::str::from_utf8(b) {
        Ok(s) => Some(s.to_string()),
        Err(_) => None,
    }
}

/// Relies on `str::trim_end`: it drops the trailing characters that
/// `char::is_whitespace` accepts.
#[verifier::external_body]
fn trim_end(s: &str) -> (r: String)
    ensures
        r@ == trimmed_end(s@),
{
    s.trim_end().to_string()
}

/// Whether an image of `len` bytes starts with the legacy pre-header.
pub open spec fn is_headered(len: int) -> bool {
    len % 1024 == 512
}

/// Where the image proper starts in a file of `len` bytes.
pub open spec fn image_start(len: int) -> int {
    if is_headered(len) {
        512
    } else {
        0
    }
}

/// The byte at `offset` of the image proper.
pub open spec fn header_byte(file: Seq<u8>, offset: int) -> u8 {
    file[image_start(file.len() as int) + offset]
}

/// The title bytes of the image.
pub open spec fn title_bytes(file: Seq<u8>) -> Seq<u8> {
    let start = image_start(file.len() as int) + TITLE_OFFSET;
    file.subrange(start, start + TITLE_LEN)
}

pub open spec fn map_mode_of(b: u8) -> Option<MapMode> {
    if b == 0x20 {
        Some(MapMode::LoRom2_68MHz)
    } else if b == 0x21 {
        Some(MapMode::HiRom2_68MHz)
    } else if b == 0x23 {
        Some(MapMode::SA1)
    } else if b == 0x25 {
        Some(MapMode::ExHiRom2_68MHz)
    } else if b == 0x30 {
        Some(MapMode::LoRom3_58MHz)
    } else if b == 0x31 {
        Some(MapMode::HiRom3_58MHz)
    } else if b == 0x35 {
        Some(MapMode::ExHiRom3_58MHz)
    } else {
        None
    }
}

pub open spec fn chipset_of(b: u8) -> Option<ChipsetType> {
    if b == 0x00 {
        Some(ChipsetType::ROM)
    } else if b == 0x01 {
        Some(ChipsetType::ROMRAM)
    } else if b == 0x02 {
        Some(ChipsetType::ROMRAMBATTERY)
    } else if b == 0x33 {
        Some(ChipsetType::ROMSA1)
    } else if b == 0x34 {
        Some(ChipsetType::ROMSA1RAM)
    } else if b == 0x35 {
        Some(ChipsetType::ROMSA1RAMBATTERY)
    } else if b == 0x36 {
        Some(ChipsetType::ROMSA1BATTERY)
    } else {
        None
    }
}

pub open spec fn region_of(b: u8) -> Option<Region> {
    if b == 0 {
        Some(Region::Japan)
    } else if b == 1 {
        Some(Region::USA)
    } else if b == 2 {
        Some(Region::Europe)
    } else {
        None
    }
}

fn decode_map_mode(b: u8) -> (r: Option<MapMode>)
    ensures
        r == map_mode_of(b),
{
    match b {
        0x20 => Some(MapMode::LoRom2_68MHz),
        0x21 => Some(MapMode::HiRom2_68MHz),
        0x23 => Some(MapMode::SA1),
        0x25 => Some(MapMode::ExHiRom2_68MHz),
        0x30 => Some(MapMode::LoRom3_58MHz),
        0x31 => Some(MapMode::HiRom3_58MHz),
        0x35 => Some(MapMode::ExHiRom3_58MHz),
        _ => None,
    }
}

fn decode_chipset(b: u8) -> (r: Option<ChipsetType>)
    ensures
        r == chipset_of(b),
{
    match b {
        0x00 => Some(ChipsetType::ROM),
        0x01 => Some(ChipsetType::ROMRAM),
        0x02 => Some(ChipsetType::ROMRAMBATTERY),
        0x33 => Some(ChipsetType::ROMSA1),
        0x34 => Some(ChipsetType::ROMSA1RAM),
        0x35 => Some(ChipsetType::ROMSA1RAMBATTERY),
        0x36 => Some(ChipsetType::ROMSA1BATTERY),
        _ => None,
    }
}

fn decode_region(b: u8) -> (r: Option<Region>)
    ensures
        r == region_of(b),
{
    match b {
        0 => Some(Region::Japan),
        1 => Some(Region::USA),
        2 => Some(Region::Europe),
        _ => None,
    }
}

/// `1 << e` for an exponent below 32.
fn size_from_exponent(e: u8) -> (r: u32)
    requires
        e < 32,
    ensures
        r == pow2(e as nat),
{
    let mut r: u32 = 1;
    let mut i: u8 = 0;
    proof {
        lemma2_to64();
    }
    while i < e
        invariant
            i <= e < 32,
            r == pow2(i as nat),
        decreases e - i,
    {
        proof {
            lemma_pow2_unfold((i + 1) as nat);
            lemma_pow2_strictly_increases((i + 1) as nat, 32);
            lemma2_to64();
        }
        r = r * 2;
        i = i + 1;
    }
    r
}

/// The first reason to refuse `file`, if any, in the order the header is
/// read: length, title, map mode, chipset, ROM and RAM size, region.
pub open spec fn header_error(file: Seq<u8>) -> Option<RomError> {
    let hb = |o: usize| header_byte(file, o as int);
    if file.len() < image_start(file.len() as int) + REGION_OFFSET + 1 {
        Some(RomError::TooShort)
    } else if utf8_text(title_bytes(file)) is None {
        Some(RomError::InvalidTitle)
    } else if map_mode_of(hb(MAP_MODE_OFFSET)) is None {
        Some(RomError::InvalidMapMode(hb(MAP_MODE_OFFSET)))
    } else if chipset_of(hb(CHIPSET_OFFSET)) is None {
        Some(RomError::InvalidChipset(hb(CHIPSET_OFFSET)))
    } else if hb(ROM_SIZE_OFFSET) >= 32 {
        Some(RomError::InvalidSize(hb(ROM_SIZE_OFFSET)))
    } else if hb(RAM_SIZE_OFFSET) >= 32 {
        Some(RomError::InvalidSize(hb(RAM_SIZE_OFFSET)))
    } else if region_of(hb(REGION_OFFSET)) is None {
        Some(RomError::InvalidRegion(hb(REGION_OFFSET)))
    } else {
        None
    }
}

/// `c` holds what the header of `file` says.
pub open spec fn header_matches(file: Seq<u8>, c: Cartdrige) -> bool {
    let hb = |o: usize| header_byte(file, o as int);
    &&& c.headered == is_headered(file.len() as int)
    &&& c.game_title@ == trimmed_end(utf8_text(title_bytes(file)).unwrap())
    &&& c.fast_rom == (hb(MAP_MODE_OFFSET) & 0x10 != 0)
    &&& Some(c.rom_mode) == map_mode_of(hb(MAP_MODE_OFFSET))
    &&& Some(c.chipset) == chipset_of(hb(CHIPSET_OFFSET))
    &&& c.rom_size == pow2(hb(ROM_SIZE_OFFSET) as nat)
    &&& c.ram_size == pow2(hb(RAM_SIZE_OFFSET) as nat)
    &&& Some(c.region) == region_of(hb(REGION_OFFSET))
}

/// Reads the header of a cartridge file: a 512-byte pre-header, when the
/// length says there is one, is skipped. Besides the refusals of unknown
/// map mode, chipset and region bytes and of a title that is not UTF-8, a
/// file too short to hold the header and a size exponent whose size does
/// not fit 32 bits are refused too.
pub fn parse_header(file: &Vec<u8>) -> (r: Result<Cartdrige, RomError>)
    ensures
        match r {
            Ok(c) => header_error(file@) is None && header_matches(file@, c),
            Err(e) => header_error(file@) == Some(e),
        },
{
    let headered = file.len() % 1024 == 512;
    let start: usize = if headered {
        COPIER_HEADER_LEN
    } else {
        0
    };
    if file.len() < start + REGION_OFFSET + 1 {
        return Err(RomError::TooShort);
    }
    let title_raw = slice_subrange(file.as_slice(), start + TITLE_OFFSET, start + TITLE_OFFSET + TITLE_LEN);
    let decoded = match decode_utf8(title_raw) {
        Some(t) => t,
        None => {
            return Err(RomError::InvalidTitle);
        },
    };
    let game_title = trim_end(decoded.as_str());
    let mode_byte = file[start + MAP_MODE_OFFSET];
    let rom_mode = match decode_map_mode(mode_byte) {
        Some(m) => m,
        None => {
            return Err(RomError::InvalidMapMode(mode_byte));
        },
    };
    let chip_byte = file[start + CHIPSET_OFFSET];
    let chipset = match decode_chipset(chip_byte) {
        Some(c) => c,
        None => {
            return Err(RomError::InvalidChipset(chip_byte));
        },
    };
    let rom_exp = file[start + ROM_SIZE_OFFSET];
    if rom_exp >= 32 {
        return Err(RomError::InvalidSize(rom_exp));
    }
    let ram_exp = file[start + RAM_SIZE_OFFSET];
    if ram_exp >= 32 {
        return Err(RomError::InvalidSize(ram_exp));
    }
    let region_byte = file[start + REGION_OFFSET];
    let region = match decode_region(region_byte) {
        Some(r) => r,
        None => {
            return Err(RomError::InvalidRegion(region_byte));
        },
    };
    Ok(Cartdrige {
        headered,
        game_title,
        fast_rom: mode_byte & 0x10 != 0,
        rom_mode,
        chipset,
        rom_size: size_from_exponent(rom_exp),
        ram_size: size_from_exponent(ram_exp),
        region,
    })
}

} // verus!
