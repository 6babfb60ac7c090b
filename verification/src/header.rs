//! Cartridge header parsing: the first 0x150 bytes of a ROM image carry the
//! title, hardware flags, cartridge type, declared ROM/RAM sizing and a
//! checksum. An image whose header checksum does not match, or whose
//! enumerated bytes hold unrecognized values, is rejected before the core
//! runs.

use vstd::prelude::*;

verus! {

/// Licensee information; only the unparsed placeholder is carried for now.
#[derive(Clone, Copy, PartialEq, Eq, Structural, Debug)]
pub enum Licensee {
    Unspecified,
}

/// The cartridge-type byte's closed enumeration: plain ROM, the
/// memory-bank-controller families and the accessory controllers.
#[derive(Clone, Copy, PartialEq, Eq, Structural, Debug)]
pub enum CartridgeType {
    ROMOnly,
    MBC1,
    MBC1RAM,
    MBC1RAMBattery,
    MBC2,
    MBC2Battery,
    ROMRAM,
    ROMRAMBattery,
    MMM01,
    MMM01RAM,
    MMM01RAMBattery,
    MBC3TimerBattery,
    MBC3TimerRAMBattery,
    MBC3,
    MBC3RAM,
    MBC3RAMBattery,
    MBC5,
    MBC5RAM,
    MBC5RAMBattery,
    MBC5Rumble,
    MBC5RumbleRAM,
    MBC5RumbleRAMBattery,
    MBC6,
    MBC7SensorRumbleRAMBattery,
    PocketCamera,
    BandaiTAMA5,
    HuC3,
    HuC1RAMBattery,
}

/// The destination-code byte's closed enumeration.
#[derive(Clone, Copy, PartialEq, Eq, Structural, Debug)]
pub enum DestinationCode {
    Japanese,
    Overseas,
}

/// Why a ROM image was rejected at load time. These are fatal configuration
/// errors: there is no recovery, the caller must not run the core.
#[derive(Clone, Copy, PartialEq, Eq, Structural, Debug)]
pub enum HeaderError {
    TooShort,
    ChecksumMismatch,
    UnknownCartridgeType,
    UnknownRomSize,
    UnknownRamSize,
    UnknownDestinationCode,
}

/// The cartridge type a type byte names, if it is recognized.
pub open spec fn spec_cartridge_type(b: u8) -> Option<CartridgeType> {
    match b {
        0x00 => Some(CartridgeType::ROMOnly),
        0x01 => Some(CartridgeType::MBC1),
        0x02 => Some(CartridgeType::MBC1RAM),
        0x03 => Some(CartridgeType::MBC1RAMBattery),
        0x05 => Some(CartridgeType::MBC2),
        0x06 => Some(CartridgeType::MBC2Battery),
        0x08 => Some(CartridgeType::ROMRAM),
        0x09 => Some(CartridgeType::ROMRAMBattery),
        0x0B => Some(CartridgeType::MMM01),
        0x0C => Some(CartridgeType::MMM01RAM),
        0x0D => Some(CartridgeType::MMM01RAMBattery),
        0x0F => Some(CartridgeType::MBC3TimerBattery),
        0x10 => Some(CartridgeType::MBC3TimerRAMBattery),
        0x11 => Some(CartridgeType::MBC3),
        0x12 => Some(CartridgeType::MBC3RAM),
        0x13 => Some(CartridgeType::MBC3RAMBattery),
        0x19 => Some(CartridgeType::MBC5),
        0x1A => Some(CartridgeType::MBC5RAM),
        0x1B => Some(CartridgeType::MBC5RAMBattery),
        0x1C => Some(CartridgeType::MBC5Rumble),
        0x1D => Some(CartridgeType::MBC5RumbleRAM),
        0x1E => Some(CartridgeType::MBC5RumbleRAMBattery),
        0x20 => Some(CartridgeType::MBC6),
        0x22 => Some(CartridgeType::MBC7SensorRumbleRAMBattery),
        0xFC => Some(CartridgeType::PocketCamera),
        0xFD => Some(CartridgeType::BandaiTAMA5),
        0xFE => Some(CartridgeType::HuC3),
        0xFF => Some(CartridgeType::HuC1RAMBattery),
        _ => None,
    }
}

/// The declared ROM size in bytes a ROM-size byte names, if it is recognized.
pub open spec fn spec_rom_size(b: u8) -> Option<usize> {
    match b {
        0x00 => Some(32768usize),
        0x01 => Some(65536usize),
        0x02 => Some(131072usize),
        0x03 => Some(262144usize),
        0x04 => Some(524288usize),
        0x05 => Some(1048576usize),
        0x06 => Some(2097152usize),
        0x07 => Some(4194304usize),
        0x52 => Some(1179648usize),
        0x53 => Some(1310720usize),
        0x54 => Some(1572864usize),
        _ => None,
    }
}

/// The declared ROM bank count a ROM-size byte names, if it is recognized.
pub open spec fn spec_num_rom_banks(b: u8) -> Option<usize> {
    match b {
        0x00 => Some(2usize),
        0x01 => Some(4usize),
        0x02 => Some(8usize),
        0x03 => Some(16usize),
        0x04 => Some(32usize),
        0x05 => Some(64usize),
        0x06 => Some(128usize),
        0x07 => Some(256usize),
        0x52 => Some(72usize),
        0x53 => Some(80usize),
        0x54 => Some(96usize),
        _ => None,
    }
}

/// The declared RAM size in bytes a RAM-size byte names, if it is recognized.
pub open spec fn spec_ram_size(b: u8) -> Option<usize> {
    match b {
        0x00 => Some(0usize),
        0x02 => Some(8192usize),
        0x03 => Some(32768usize),
        0x04 => Some(131072usize),
        0x05 => Some(65536usize),
        _ => None,
    }
}

/// The destination a destination-code byte names, if it is recognized.
pub open spec fn spec_destination(b: u8) -> Option<DestinationCode> {
    match b {
        0x00 => Some(DestinationCode::Japanese),
        0x01 => Some(DestinationCode::Overseas),
        _ => None,
    }
}

/// One checksum step: subtract the byte and one more, wrapping at 16 bits.
pub open spec fn spec_checksum_step(sum: u16, byte: u8) -> u16 {
    if sum >= byte + 1 {
        (sum - byte - 1) as u16
    } else {
        (sum - byte - 1 + 0x10000) as u16
    }
}

/// The checksum folded over the header bytes from 0x134 up to (excluding)
/// byte `n`.
pub open spec fn spec_checksum_upto(rom: Seq<u8>, n: int) -> u16
    decreases n,
{
    if n <= 0x134 {
        0
    } else {
        spec_checksum_step(spec_checksum_upto(rom, n - 1), rom[n - 1])
    }
}

/// The header checksum: a wrapping fold over bytes 0x134 through 0x14C.
pub open spec fn spec_checksum(rom: Seq<u8>) -> u16 {
    spec_checksum_upto(rom, 0x14D)
}

/// Whether the stored checksum byte at 0x14D matches the checksum computed
/// over bytes 0x134 through 0x14C.
pub open spec fn spec_checksum_matches(rom: Seq<u8>) -> bool {
    rom[0x14D] == spec_checksum(rom) as u8
}

/// The checksum over the header region, folded with a wrapping subtraction
/// of each byte and one more per byte.
pub fn checksum(rom: &[u8]) -> (sum: u16)
    requires
        rom@.len() >= 0x14D,
    ensures
        sum == spec_checksum(rom@),
{
    let mut sum: u16 = 0;
    let mut byte: usize = 0x134;
    while byte < 0x14D
        invariant
            0x134 <= byte <= 0x14D,
            rom@.len() >= 0x14D,
            sum == spec_checksum_upto(rom@, byte as int),
        decreases 0x14D - byte,
    {
        sum = sum.wrapping_sub(rom[byte] as u16).wrapping_sub(1);
        byte += 1;
    }
    sum
}

/// The bytes of `rom` from `start` up to (excluding) `end`, as an owned
/// vector.
fn copy_range(rom: &[u8], start: usize, end: usize) -> (v: Vec<u8>)
    requires
        start <= end <= rom@.len(),
    ensures
        v@ == rom@.subrange(start as int, end as int),
{
    let mut v: Vec<u8> = Vec::new();
    let mut i: usize = start;
    while i < end
        invariant
            start <= i <= end <= rom@.len(),
            v@ == rom@.subrange(start as int, i as int),
        decreases end - i,
    {
        v.push(rom[i]);
        proof {
            assert(v@ =~= rom@.subrange(start as int, i + 1));
        }
        i += 1;
    }
    v
}

/// The parsed cartridge header fields.
#[allow(non_camel_case_types)]
#[derive(Clone, PartialEq, Eq, Debug)]
pub struct header {
    pub title: Vec<u8>,
    pub manufacturer_code: Vec<u8>,
    pub licensee: Licensee,
    pub cgb: bool,
    pub sgb: bool,
    pub cartridge_type: CartridgeType,
    pub rom_size: usize,
    pub num_rom_banks: usize,
    pub ram_size: usize,
    pub destination_code: DestinationCode,
    pub version_number: u8,
}

impl header {
    /// Parse the header out of the first 0x150 bytes of a ROM image.
    ///
    /// Succeeds if and only if the image is long enough, the stored checksum
    /// byte matches the checksum over bytes 0x134 through 0x14C, and the
    /// cartridge-type, ROM-size, RAM-size and destination-code bytes each
    /// hold a recognized value; otherwise the image is rejected with the
    /// first failing check's error.
    pub fn new(rom: &[u8]) -> (r: Result<header, HeaderError>)
        ensures
            match r {
                Ok(h) => {
                    &&& rom@.len() >= 0x150
                    &&& spec_checksum_matches(rom@)
                    &&& Some(h.cartridge_type) == spec_cartridge_type(rom@[0x147])
                    &&& Some(h.rom_size) == spec_rom_size(rom@[0x148])
                    &&& Some(h.num_rom_banks) == spec_num_rom_banks(rom@[0x148])
                    &&& Some(h.ram_size) == spec_ram_size(rom@[0x149])
                    &&& Some(h.destination_code) == spec_destination(rom@[0x14A])
                    &&& h.title@ == rom@.subrange(0x134, 0x143)
                    &&& h.manufacturer_code@ == rom@.subrange(0x13F, 0x142)
                    &&& h.licensee == Licensee::Unspecified
                    &&& h.cgb == (rom@[0x143] == 0x80 || rom@[0x143] == 0xC0)
                    &&& h.sgb == (rom@[0x146] == 0x03)
                    &&& h.version_number == rom@[0x14C]
                },
                Err(HeaderError::TooShort) => rom@.len() < 0x150,
                Err(HeaderError::ChecksumMismatch) => rom@.len() >= 0x150
                    && !spec_checksum_matches(rom@),
                Err(HeaderError::UnknownCartridgeType) => rom@.len() >= 0x150
                    && spec_checksum_matches(rom@) && spec_cartridge_type(rom@[0x147]) is None,
                Err(HeaderError::UnknownRomSize) => rom@.len() >= 0x150 && spec_checksum_matches(
                    rom@,
                ) && spec_cartridge_type(rom@[0x147]) is Some && spec_rom_size(rom@[0x148]) is None,
                Err(HeaderError::UnknownRamSize) => rom@.len() >= 0x150 && spec_checksum_matches(
                    rom@,
                ) && spec_cartridge_type(rom@[0x147]) is Some && spec_rom_size(rom@[0x148]) is Some
                    && spec_ram_size(rom@[0x149]) is None,
                Err(HeaderError::UnknownDestinationCode) => rom@.len() >= 0x150
                    && spec_checksum_matches(rom@) && spec_cartridge_type(rom@[0x147]) is Some
                    && spec_rom_size(rom@[0x148]) is Some && spec_ram_size(rom@[0x149]) is Some
                    && spec_destination(rom@[0x14A]) is None,
            },
    {
        if rom.len() < 0x150 {
            return Err(HeaderError::TooShort);
        }
        let sum = checksum(rom);
        if rom[0x14D] != sum as u8 {
            return Err(HeaderError::ChecksumMismatch);
        }
        let cartridge_type = match rom[0x147] {
            0x00 => CartridgeType::ROMOnly,
            0x01 => CartridgeType::MBC1,
            0x02 => CartridgeType::MBC1RAM,
            0x03 => CartridgeType::MBC1RAMBattery,
            0x05 => CartridgeType::MBC2,
            0x06 => CartridgeType::MBC2Battery,
            0x08 => CartridgeType::ROMRAM,
            0x09 => CartridgeType::ROMRAMBattery,
            0x0B => CartridgeType::MMM01,
            0x0C => CartridgeType::MMM01RAM,
            0x0D => CartridgeType::MMM01RAMBattery,
            0x0F => CartridgeType::MBC3TimerBattery,
            0x10 => CartridgeType::MBC3TimerRAMBattery,
            0x11 => CartridgeType::MBC3,
            0x12 => CartridgeType::MBC3RAM,
            0x13 => CartridgeType::MBC3RAMBattery,
            0x19 => CartridgeType::MBC5,
            0x1A => CartridgeType::MBC5RAM,
            0x1B => CartridgeType::MBC5RAMBattery,
            0x1C => CartridgeType::MBC5Rumble,
            0x1D => CartridgeType::MBC5RumbleRAM,
            0x1E => CartridgeType::MBC5RumbleRAMBattery,
            0x20 => CartridgeType::MBC6,
            0x22 => CartridgeType::MBC7SensorRumbleRAMBattery,
            0xFC => CartridgeType::PocketCamera,
            0xFD => CartridgeType::BandaiTAMA5,
            0xFE => CartridgeType::HuC3,
            0xFF => CartridgeType::HuC1RAMBattery,
            _ => {
                return Err(HeaderError::UnknownCartridgeType);
            },
        };
        let rom_size: usize = match rom[0x148] {
            0x00 => 32768,
            0x01 => 65536,
            0x02 => 131072,
            0x03 => 262144,
            0x04 => 524288,
            0x05 => 1048576,
            0x06 => 2097152,
            0x07 => 4194304,
            0x52 => 1179648,
            0x53 => 1310720,
            0x54 => 1572864,
            _ => {
                return Err(HeaderError::UnknownRomSize);
            },
        };
        let num_rom_banks: usize = match rom[0x148] {
            0x00 => 2,
            0x01 => 4,
            0x02 => 8,
            0x03 => 16,
            0x04 => 32,
            0x05 => 64,
            0x06 => 128,
            0x07 => 256,
            0x52 => 72,
            0x53 => 80,
            0x54 => 96,
            _ => {
                return Err(HeaderError::UnknownRomSize);
            },
        };
        let ram_size: usize = match rom[0x149] {
            0x00 => 0,
            0x02 => 8192,
            0x03 => 32768,
            0x04 => 131072,
            0x05 => 65536,
            _ => {
                return Err(HeaderError::UnknownRamSize);
            },
        };
        let destination_code = match rom[0x14A] {
            0x00 => DestinationCode::Japanese,
            0x01 => DestinationCode::Overseas,
            _ => {
                return Err(HeaderError::UnknownDestinationCode);
            },
        };
        Ok(
            header {
                title: copy_range(rom, 0x134, 0x143),
                manufacturer_code: copy_range(rom, 0x13F, 0x142),
                licensee: Licensee::Unspecified,
                cgb: rom[0x143] == 0x80 || rom[0x143] == 0xC0,
                sgb: rom[0x146] == 0x03,
                cartridge_type,
                rom_size,
                num_rom_banks,
                ram_size,
                destination_code,
                version_number: rom[0x14C],
            },
        )
    }
}

} // verus!
