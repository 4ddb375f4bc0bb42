use ddss_snes::cartridge::{parse_header, ChipsetType, MapMode, Region, RomError};
use ddss_snes::cpu::bus::Bus;
use ddss_snes::rom::ROM;

fn image(len: usize, title: &[u8], mode: u8, chipset: u8, rom: u8, ram: u8, region: u8) -> Vec<u8> {
    let mut v = vec![0u8; len];
    let mut t = [b' '; 20];
    t[..title.len()].copy_from_slice(title);
    v[0x7FC0..0x7FD4].copy_from_slice(&t);
    v[0x7FD5] = mode;
    v[0x7FD6] = chipset;
    v[0x7FD7] = rom;
    v[0x7FD8] = ram;
    v[0x7FD9] = region;
    v
}

#[test]
fn parses_a_lorom_header() {
    let file = image(0x8000, b"TEST GAME", 0x30, 0x02, 0x0A, 0x03, 1);
    let c = parse_header(&file).unwrap();
    assert!(!c.headered);
    assert_eq!(c.game_title, "TEST GAME");
    assert!(c.fast_rom);
    assert_eq!(c.rom_mode, MapMode::LoRom3_58MHz);
    assert_eq!(c.chipset, ChipsetType::ROMRAMBATTERY);
    assert_eq!(c.rom_size, 1024);
    assert_eq!(c.ram_size, 8);
    assert_eq!(c.region, Region::USA);
}

#[test]
fn skips_the_pre_header() {
    let mut file = vec![0xEEu8; 512];
    file.extend(image(0x8000, b"HEADERED", 0x20, 0x00, 0x08, 0x00, 2));
    let rom = ROM::from_bytes(file).unwrap();
    assert!(rom.headered);
    assert_eq!(rom.game_title, "HEADERED");
    assert!(!rom.fast_rom);
    assert_eq!(rom.rom_mode, MapMode::LoRom2_68MHz);
    assert_eq!(rom.real_rom_size, 8);
    assert_eq!(rom.rom_size, 256);
    assert_eq!(rom.region, Region::Europe);
    assert_eq!(rom.data.len(), 0x8000);
    assert_eq!(rom.data[0x7FD5], 0x20);
}

#[test]
fn refuses_bad_headers() {
    assert_eq!(parse_header(&vec![0u8; 0x7FD9]).err(), Some(RomError::TooShort));
    let mut bad_title = image(0x8000, b"X", 0x20, 0, 0, 0, 0);
    bad_title[0x7FC0] = 0xFF;
    assert_eq!(parse_header(&bad_title).err(), Some(RomError::InvalidTitle));
    let f = image(0x8000, b"X", 0x22, 0, 0, 0, 0);
    assert_eq!(parse_header(&f).err(), Some(RomError::InvalidMapMode(0x22)));
    let f = image(0x8000, b"X", 0x20, 0x03, 0, 0, 0);
    assert_eq!(parse_header(&f).err(), Some(RomError::InvalidChipset(0x03)));
    let f = image(0x8000, b"X", 0x20, 0x00, 40, 0, 0);
    assert_eq!(parse_header(&f).err(), Some(RomError::InvalidSize(40)));
    let f = image(0x8000, b"X", 0x20, 0x00, 0, 32, 0);
    assert_eq!(parse_header(&f).err(), Some(RomError::InvalidSize(32)));
    let f = image(0x8000, b"X", 0x20, 0x00, 0, 0, 3);
    assert_eq!(parse_header(&f).err(), Some(RomError::InvalidRegion(3)));
    assert_eq!(ROM::from_bytes(f).err(), Some(RomError::InvalidRegion(3)));
}

#[test]
fn lorom_mirrors_chunks() {
    let mut file = image(0x10000, b"MAP", 0x20, 0, 0, 0, 0);
    file[0] = 0x11;
    file[0x7FFF] = 0x22;
    file[0x8000] = 0x33;
    let rom = ROM::from_bytes(file).unwrap();
    let mut before = Bus::new();
    before.write_byte(0x00_0000, 0x44);
    before.write_byte(0x02_8000, 0x55);
    let bus = rom.map_to(Box::new(before));
    assert_eq!(bus.read_byte(0x00_8000), 0x11);
    assert_eq!(bus.read_byte(0x80_8000), 0x11);
    assert_eq!(bus.read_byte(0x00_FFFF), 0x22);
    assert_eq!(bus.read_byte(0x80_FFFF), 0x22);
    assert_eq!(bus.read_byte(0x01_8000), 0x33);
    assert_eq!(bus.read_byte(0x81_8000), 0x33);
    assert_eq!(bus.read_byte(0x00_0000), 0x44);
    assert_eq!(bus.read_byte(0x02_8000), 0x55);
}

#[test]
fn lorom_keeps_work_ram_banks() {
    let mut file = vec![0xABu8; 0x7F * 0x8000];
    let header = image(0x8000, b"BIG", 0x20, 0, 0, 0, 0);
    file[..0x8000].copy_from_slice(&header);
    let rom = ROM::from_bytes(file).unwrap();
    let bus = rom.map_to(Box::new(Bus::new()));
    assert_eq!(bus.read_byte(0x7D_8000), 0xAB);
    assert_eq!(bus.read_byte(0x7E_8000), 0x00);
    assert_eq!(bus.read_byte(0xFE_8000), 0xAB);
}

#[test]
fn title_drops_trailing_white_space_only() {
    let file = image(0x8000, b" A B\t\r", 0x20, 0x00, 0x00, 0x00, 0);
    let c = parse_header(&file).unwrap();
    assert_eq!(c.game_title, " A B");
}
