use gbcore::header::{header, CartridgeType, DestinationCode, HeaderError};
use gbcore::timers::Timers;

#[test]
fn timer_counts_and_reloads_on_overflow() {
    // control 0b101: enabled, period 16 cycles; modulo 0xFE
    let mut t = Timers::new();
    t.set_tac(0b101);
    t.set_tma(0xFE);
    // ticking 16 x 2 cycles increments the counter twice, no wrap yet
    assert!(!t.tick(16));
    assert_eq!(t.get_counter(), 1);
    assert!(!t.tick(16));
    assert_eq!(t.get_counter(), 2);
    // drive the counter to the wrap: one interrupt request per wrap
    t.set_counter(0xFE);
    assert!(!t.tick(16));
    assert_eq!(t.get_counter(), 0xFF);
    assert!(t.tick(16));
    assert_eq!(t.get_counter(), 0xFE); // reloaded from the modulo register
    assert!(!t.tick(16));
    assert_eq!(t.get_counter(), 0xFF);
}

#[test]
fn timer_disabled_counter_stands_still() {
    let mut t = Timers::new();
    t.set_tma(0xFE);
    t.set_tac(0b001); // period bits set but bit 2 (enable) clear
    assert!(!t.tick(4096));
    assert_eq!(t.get_counter(), 0);
}

#[test]
fn divider_rolls_every_256_cycles_and_wraps_silently() {
    let mut t = Timers::new();
    assert_eq!(t.get_divider(), 0);
    assert!(!t.tick(255));
    assert_eq!(t.get_divider(), 0);
    assert!(!t.tick(1));
    assert_eq!(t.get_divider(), 1);
    // 255 more rolls wrap the divider back to zero with no interrupt
    assert!(!t.tick(255 * 256));
    assert_eq!(t.get_divider(), 0);
}

#[test]
fn divider_write_resets_only_the_accumulator() {
    let mut t = Timers::new();
    t.tick(300); // divider 1, accumulator 44
    assert_eq!(t.get_divider(), 1);
    t.reset_div();
    // the visible byte is untouched; the sub-cycle accumulator restarts
    assert_eq!(t.get_divider(), 1);
    t.tick(255);
    assert_eq!(t.get_divider(), 1);
    t.tick(1);
    assert_eq!(t.get_divider(), 2);
}

#[test]
fn timer_period_select_uses_low_two_bits() {
    // period 1024 (0b00): 1023 cycles do nothing, one more increments
    let mut t = Timers::new();
    t.set_tac(0b100);
    assert!(!t.tick(1023));
    assert_eq!(t.get_counter(), 0);
    assert!(!t.tick(1));
    assert_eq!(t.get_counter(), 1);
    // period 64 (0b10)
    let mut t = Timers::new();
    t.set_tac(0b110);
    assert!(!t.tick(640));
    assert_eq!(t.get_counter(), 10);
    // period 256 (0b11)
    let mut t = Timers::new();
    t.set_tac(0b111);
    assert!(!t.tick(512));
    assert_eq!(t.get_counter(), 2);
}

fn rom_checksum(rom: &[u8]) -> u16 {
    let mut sum: u16 = 0;
    for byte in 0x134..0x14D {
        sum = sum.wrapping_sub(rom[byte] as u16).wrapping_sub(1);
    }
    sum
}

fn valid_rom() -> Vec<u8> {
    let mut rom = vec![0u8; 0x150];
    rom[0x147] = 0x00; // plain ROM
    rom[0x148] = 0x00; // 32 KiB, 2 banks
    rom[0x149] = 0x00; // no cartridge RAM
    rom[0x14A] = 0x01; // overseas
    rom[0x14C] = 0x07; // version
    let sum = rom_checksum(&rom);
    rom[0x14D] = sum as u8;
    rom
}

#[test]
fn header_parses_valid_image() {
    let rom = valid_rom();
    let h = header::new(&rom).expect("valid header must parse");
    assert_eq!(h.cartridge_type, CartridgeType::ROMOnly);
    assert_eq!(h.rom_size, 32 * 1024);
    assert_eq!(h.num_rom_banks, 2);
    assert_eq!(h.ram_size, 0);
    assert_eq!(h.destination_code, DestinationCode::Overseas);
    assert_eq!(h.version_number, 0x07);
    assert!(!h.cgb);
    assert!(!h.sgb);
}

#[test]
fn header_rejects_bad_checksum() {
    let mut rom = valid_rom();
    rom[0x14D] = rom[0x14D].wrapping_add(1);
    assert_eq!(header::new(&rom), Err(HeaderError::ChecksumMismatch));
}

#[test]
fn header_rejects_short_image() {
    let rom = vec![0u8; 0x14F];
    assert_eq!(header::new(&rom), Err(HeaderError::TooShort));
}

#[test]
fn header_rejects_unknown_cartridge_type() {
    let mut rom = valid_rom();
    rom[0x147] = 0x04; // a gap in the cartridge-type table
    let sum = rom_checksum(&rom);
    rom[0x14D] = sum as u8;
    assert_eq!(header::new(&rom), Err(HeaderError::UnknownCartridgeType));
}

#[test]
fn header_rejects_unknown_rom_size() {
    let mut rom = valid_rom();
    rom[0x148] = 0x08;
    let sum = rom_checksum(&rom);
    rom[0x14D] = sum as u8;
    assert_eq!(header::new(&rom), Err(HeaderError::UnknownRomSize));
}

#[test]
fn header_rejects_unknown_ram_size() {
    let mut rom = valid_rom();
    rom[0x149] = 0x01; // a gap in the RAM-size table
    let sum = rom_checksum(&rom);
    rom[0x14D] = sum as u8;
    assert_eq!(header::new(&rom), Err(HeaderError::UnknownRamSize));
}

#[test]
fn header_rejects_unknown_destination_code() {
    let mut rom = valid_rom();
    rom[0x14A] = 0x02;
    let sum = rom_checksum(&rom);
    rom[0x14D] = sum as u8;
    assert_eq!(header::new(&rom), Err(HeaderError::UnknownDestinationCode));
}

#[test]
fn header_reads_console_flags_and_sizing() {
    let mut rom = valid_rom();
    rom[0x143] = 0xC0; // color-console flag
    rom[0x146] = 0x03; // super-console flag
    rom[0x147] = 0x01; // MBC1
    rom[0x148] = 0x05; // 1 MiB, 64 banks
    rom[0x149] = 0x03; // 32 KiB RAM
    rom[0x14A] = 0x00; // Japanese
    let sum = rom_checksum(&rom);
    rom[0x14D] = sum as u8;
    let h = header::new(&rom).expect("valid header must parse");
    assert!(h.cgb);
    assert!(h.sgb);
    assert_eq!(h.cartridge_type, CartridgeType::MBC1);
    assert_eq!(h.rom_size, 1024 * 1024);
    assert_eq!(h.num_rom_banks, 64);
    assert_eq!(h.ram_size, 32 * 1024);
    assert_eq!(h.destination_code, DestinationCode::Japanese);
}

#[test]
fn header_title_covers_its_declared_range() {
    let mut rom = valid_rom();
    let name = b"TESTCART";
    rom[0x134..0x134 + name.len()].copy_from_slice(name);
    let sum = rom_checksum(&rom);
    rom[0x14D] = sum as u8;
    let h = header::new(&rom).expect("valid header must parse");
    assert_eq!(&h.title[..name.len()], name);
    assert_eq!(h.title.len(), 0x143 - 0x134);
    assert_eq!(h.manufacturer_code.len(), 0x142 - 0x13F);
}
