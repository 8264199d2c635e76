//! The header of a ROM image: the title, the cartridge kind, the sizes and
//! the entry address.

use crate::util::byte_ops::{hi_lo_combine, word_of};
use crate::util::text::{decimal, format_decimal, format_hex, upper_hex};
use vstd::prelude::*;
use vstd::string::StringExecFns;
use vstd::utf8::{decode_utf8, valid_utf8};

verus! {

/// Where the fields of the cartridge header lie in the ROM image.
pub const CHECKSUM: usize = 0x14E;

/// The checksum of the header.
pub const COMPLEMENT_CHECKSUM: usize = 0x14D;

/// The version of the game.
pub const MASK_ROM_VERSION: usize = 0x14C;

/// The code of the publisher.
pub const OLD_LICENSE_CODE: usize = 0x14B;

/// The code of the market that the game is sold in.
pub const DESTINATION_CODE: usize = 0x14A;

/// The code of the size of the external RAM.
pub const CARTRIDGE_RAM_SIZE: usize = 0x149;

/// The code of the size of the ROM.
pub const CARTRIDGE_ROM_SIZE: usize = 0x148;

/// The code of the cartridge kind.
pub const CARTRIDGE_TYPE: usize = 0x147;

/// The first byte of the game title.
pub const GAME_TITLE: usize = 0x134;

/// The low byte of the entry address.
pub const ENTRY: usize = 0x102;

/// The number of bytes of the game title.
pub const GAME_TITLE_LENGTH: usize = 0xF;

/// The length of the shortest image that holds the whole header that is read.
pub const HEADER_END: usize = 0x14A;

/// Why a cartridge header could not be read.
#[derive(Debug, Clone, Copy, PartialEq, Eq, Structural)]
pub enum CartridgeError {
    InvalidCartridgeCode,
    InvalidCartridgeRomSize,
    InvalidCartridgeRamSize,
    BadRomData,
}

/// The kinds of cartridge that the header byte at `0x147` names.
#[allow(non_camel_case_types)]
#[derive(Debug, Clone, Copy, PartialEq, Eq, Structural)]
pub enum CartridgeType {
    ROM,
    MBC1,
    MBC1_RAM,
    MBC1_RAM_BAT,
    MBC2,
    MBC2_BAT,
    ROM_RAM,
    ROM_RAM_BAT,
    MMM_01,
    MMM_01_RAM,
    MMM_01_RAM_BAT,
    MBC3_TIMER_BAT,
    MBC3_RAM_TIMER_BAT,
    MBC3,
    MBC3_RAM,
    MBC3_RAM_BAT,
    MBC4,
    MBC4_RAM,
    MBC4_RAM_BAT,
    MBC5,
    MBC5_RAM,
    MBC5_RAM_BAT,
}

/// The cartridge kind that a type code stands for, if any.
pub open spec fn cartridge_type_of(input: u8) -> Option<CartridgeType> {
    match input {
        0x0 => Some(CartridgeType::ROM),
        0x1 => Some(CartridgeType::MBC1),
        0x2 => Some(CartridgeType::MBC1_RAM),
        0x3 => Some(CartridgeType::MBC1_RAM_BAT),
        0x5 => Some(CartridgeType::MBC2),
        0x6 => Some(CartridgeType::MBC2_BAT),
        0x8 => Some(CartridgeType::ROM_RAM),
        0x9 => Some(CartridgeType::ROM_RAM_BAT),
        0xB => Some(CartridgeType::MMM_01),
        0xC => Some(CartridgeType::MMM_01_RAM),
        0xD => Some(CartridgeType::MMM_01_RAM_BAT),
        0xF => Some(CartridgeType::MBC3_TIMER_BAT),
        0x10 => Some(CartridgeType::MBC3_RAM_TIMER_BAT),
        0x11 => Some(CartridgeType::MBC3),
        0x12 => Some(CartridgeType::MBC3_RAM),
        0x13 => Some(CartridgeType::MBC3_RAM_BAT),
        0x19 => Some(CartridgeType::MBC5),
        0x1A => Some(CartridgeType::MBC5_RAM),
        0x1B => Some(CartridgeType::MBC5_RAM_BAT),
        _ => None,
    }
}

/// The RAM size in KiB that a size code stands for, if any.
pub open spec fn ram_size_of(input: u8) -> Option<usize> {
    match input {
        0x0 => Some(0),
        0x1 => Some(2),
        0x2 => Some(8),
        0x3 => Some(32),
        _ => None,
    }
}

/// The ROM size that a size code stands for, if any.
pub open spec fn rom_size_of(input: u8) -> Option<usize> {
    match input {
        0x0 => Some(32),
        0x1 => Some(64),
        0x2 => Some(128),
        0x3 => Some(256),
        0x4 => Some(512),
        0x5 => Some(1000),
        0x6 => Some(2000),
        0x7 => Some(4000),
        0x8 => Some(1100),
        0x9 => Some(1200),
        0xA => Some(1500),
        _ => None,
    }
}

/// The cartridge kind that a type code stands for.
pub fn lookup_cartridge_type(input: u8) -> (r: Result<CartridgeType, CartridgeError>)
    ensures
        r == match cartridge_type_of(input) {
            Some(t) => Ok::<CartridgeType, CartridgeError>(t),
            None => Err::<CartridgeType, CartridgeError>(CartridgeError::InvalidCartridgeCode),
        },
{
    match input {
        0x0 => Ok(CartridgeType::ROM),
        0x1 => Ok(CartridgeType::MBC1),
        0x2 => Ok(CartridgeType::MBC1_RAM),
        0x3 => Ok(CartridgeType::MBC1_RAM_BAT),
        0x5 => Ok(CartridgeType::MBC2),
        0x6 => Ok(CartridgeType::MBC2_BAT),
        0x8 => Ok(CartridgeType::ROM_RAM),
        0x9 => Ok(CartridgeType::ROM_RAM_BAT),
        0xB => Ok(CartridgeType::MMM_01),
        0xC => Ok(CartridgeType::MMM_01_RAM),
        0xD => Ok(CartridgeType::MMM_01_RAM_BAT),
        0xF => Ok(CartridgeType::MBC3_TIMER_BAT),
        0x10 => Ok(CartridgeType::MBC3_RAM_TIMER_BAT),
        0x11 => Ok(CartridgeType::MBC3),
        0x12 => Ok(CartridgeType::MBC3_RAM),
        0x13 => Ok(CartridgeType::MBC3_RAM_BAT),
        0x19 => Ok(CartridgeType::MBC5),
        0x1A => Ok(CartridgeType::MBC5_RAM),
        0x1B => Ok(CartridgeType::MBC5_RAM_BAT),
        _ => Err(CartridgeError::InvalidCartridgeCode),
    }
}

/// The RAM size in KiB that a size code stands for.
pub fn lookup_cartridge_ram_size(input: u8) -> (r: Result<usize, CartridgeError>)
    ensures
        r == match ram_size_of(input) {
            Some(size) => Ok::<usize, CartridgeError>(size),
            None => Err::<usize, CartridgeError>(CartridgeError::InvalidCartridgeRamSize),
        },
{
    match input {
        0x0 => Ok(0),
        0x1 => Ok(2),
        0x2 => Ok(8),
        0x3 => Ok(32),
        _ => Err(CartridgeError::InvalidCartridgeRamSize),
    }
}

/// The ROM size that a size code stands for.
pub fn lookup_cartridge_rom_size(input: u8) -> (r: Result<usize, CartridgeError>)
    ensures
        r == match rom_size_of(input) {
            Some(size) => Ok::<usize, CartridgeError>(size),
            None => Err::<usize, CartridgeError>(CartridgeError::InvalidCartridgeRomSize),
        },
{
    match input {
        0x0 => Ok(32),
        0x1 => Ok(64),
        0x2 => Ok(128),
        0x3 => Ok(256),
        0x4 => Ok(512),
        0x5 => Ok(1000),
        0x6 => Ok(2000),
        0x7 => Ok(4000),
        0x8 => Ok(1100),
        0x9 => Ok(1200),
        0xA => Ok(1500),
        _ => Err(CartridgeError::InvalidCartridgeRomSize),
    }
}

/// The text of a cartridge kind.
pub open spec fn cartridge_type_name(cartridge_type: CartridgeType) -> Seq<char> {
    match cartridge_type {
        CartridgeType::ROM => "ROM ONLY"@,
        CartridgeType::MBC1 => "MBC1"@,
        CartridgeType::MBC1_RAM => "MBC1_RAM"@,
        CartridgeType::MBC1_RAM_BAT => "MBC1_RAM_BAT"@,
        CartridgeType::MBC2 => "MBC2"@,
        CartridgeType::MBC2_BAT => "MBC2_BAT"@,
        CartridgeType::ROM_RAM => "ROM_RAM"@,
        CartridgeType::ROM_RAM_BAT => "ROM_RAM_BAT"@,
        CartridgeType::MMM_01 => "MMM_01"@,
        CartridgeType::MMM_01_RAM => "MMM_01_RAM"@,
        CartridgeType::MMM_01_RAM_BAT => "MMM_01_RAM_BAT"@,
        CartridgeType::MBC3_TIMER_BAT => "MBC3_TIMER_BAT"@,
        CartridgeType::MBC3_RAM_TIMER_BAT => "MBC3_RAM_TIMER_BAT"@,
        CartridgeType::MBC3 => "MBC3"@,
        CartridgeType::MBC3_RAM => "MBC3_RAM"@,
        CartridgeType::MBC3_RAM_BAT => "MBC3_RAM_BAT"@,
        CartridgeType::MBC4 => "MBC4"@,
        CartridgeType::MBC4_RAM => "MBC4_RAM"@,
        CartridgeType::MBC4_RAM_BAT => "MBC4_RAM_BAT"@,
        CartridgeType::MBC5 => "MBC5"@,
        CartridgeType::MBC5_RAM => "MBC5_RAM"@,
        CartridgeType::MBC5_RAM_BAT => "MBC5_RAM_BAT"@,
    }
}

impl CartridgeType {
    /// The text of the cartridge kind.
    pub fn name(&self) -> (r: String)
        ensures
            r@ == cartridge_type_name(*self),
    {
        let str = match self {
            CartridgeType::ROM => "ROM ONLY",
            CartridgeType::MBC1 => "MBC1",
            CartridgeType::MBC1_RAM => "MBC1_RAM",
            CartridgeType::MBC1_RAM_BAT => "MBC1_RAM_BAT",
            CartridgeType::MBC2 => "MBC2",
            CartridgeType::MBC2_BAT => "MBC2_BAT",
            CartridgeType::ROM_RAM => "ROM_RAM",
            CartridgeType::ROM_RAM_BAT => "ROM_RAM_BAT",
            CartridgeType::MMM_01 => "MMM_01",
            CartridgeType::MMM_01_RAM => "MMM_01_RAM",
            CartridgeType::MMM_01_RAM_BAT => "MMM_01_RAM_BAT",
            CartridgeType::MBC3_TIMER_BAT => "MBC3_TIMER_BAT",
            CartridgeType::MBC3_RAM_TIMER_BAT => "MBC3_RAM_TIMER_BAT",
            CartridgeType::MBC3 => "MBC3",
            CartridgeType::MBC3_RAM => "MBC3_RAM",
            CartridgeType::MBC3_RAM_BAT => "MBC3_RAM_BAT",
            CartridgeType::MBC4 => "MBC4",
            CartridgeType::MBC4_RAM => "MBC4_RAM",
            CartridgeType::MBC4_RAM_BAT => "MBC4_RAM_BAT",
            CartridgeType::MBC5 => "MBC5",
            CartridgeType::MBC5_RAM => "MBC5_RAM",
            CartridgeType::MBC5_RAM_BAT => "MBC5_RAM_BAT",
        };
        String::from_str(str)
    }
}

/// What the header of a ROM image says of the cartridge.
#[derive(Debug)]
pub struct Cartridge {
    /// The word at `0x102`, low byte first.
    pub start_address: u16,
    pub cartridge_type: CartridgeType,
    pub game_title: String,
    pub rom_size: usize,
    pub ram_size: usize,
}

/// The entry address that the header of a ROM image names: the word at
/// `0x102`, low byte first.
pub open spec fn entry_of(buffer: Seq<u8>) -> u16 {
    word_of(buffer[ENTRY + 1], buffer[ENTRY as int])
}

/// The bytes of the game title in a ROM image.
pub open spec fn title_bytes(buffer: Seq<u8>) -> Seq<u8> {
    buffer.subrange(GAME_TITLE as int, GAME_TITLE + GAME_TITLE_LENGTH)
}

/// Why the header of a ROM image cannot be read, if it cannot: the image is
/// too short or its title is no UTF-8 text, then its ROM size, its RAM size,
/// and its cartridge kind are looked at in turn.
pub open spec fn header_error(buffer: Seq<u8>) -> Option<CartridgeError> {
    if buffer.len() < HEADER_END || !valid_utf8(title_bytes(buffer)) {
        Some(CartridgeError::BadRomData)
    } else if rom_size_of(buffer[CARTRIDGE_ROM_SIZE as int]) is None {
        Some(CartridgeError::InvalidCartridgeRomSize)
    } else if ram_size_of(buffer[CARTRIDGE_RAM_SIZE as int]) is None {
        Some(CartridgeError::InvalidCartridgeRamSize)
    } else if cartridge_type_of(buffer[CARTRIDGE_TYPE as int]) is None {
        Some(CartridgeError::InvalidCartridgeCode)
    } else {
        None
    }
}

/// Whether a cartridge is what the header of a ROM image says.
pub open spec fn read_from(cartridge: Cartridge, buffer: Seq<u8>) -> bool {
    &&& cartridge.game_title@ == decode_utf8(title_bytes(buffer))
    &&& Some(cartridge.rom_size) == rom_size_of(buffer[CARTRIDGE_ROM_SIZE as int])
    &&& Some(cartridge.ram_size) == ram_size_of(buffer[CARTRIDGE_RAM_SIZE as int])
    &&& Some(cartridge.cartridge_type) == cartridge_type_of(buffer[CARTRIDGE_TYPE as int])
    &&& cartridge.start_address == entry_of(buffer)
}

/// The text that `header_info` gives.
pub open spec fn header_text(cartridge: Cartridge) -> Seq<char> {
    cartridge.game_title@ + " \nCartridge Type: "@ + cartridge_type_name(cartridge.cartridge_type)
        + " \nRam Size: "@ + decimal(cartridge.ram_size as nat) + "kB \nRom Size: "@ + decimal(
        cartridge.rom_size as nat,
    ) + "kB \nEntry Address: "@ + upper_hex(cartridge.start_address as nat)
}

/// The text that `to_text` gives.
pub open spec fn cartridge_text(cartridge: Cartridge) -> Seq<char> {
    "Title: "@ + cartridge.game_title@ + "\nCartridge Type: "@ + cartridge_type_name(
        cartridge.cartridge_type,
    ) + "\nStart Address: "@ + upper_hex(cartridge.start_address as nat) + "\nRom Size: "@
        + decimal(cartridge.rom_size as nat) + "kB\nRam Size: "@ + decimal(
        cartridge.ram_size as nat,
    ) + "kB\n"@
}

/// Reads bytes as UTF-8 text with `std::str::from_utf8`, which accepts a
/// byte sequence exactly when it is well-formed UTF-8 and then gives the text
/// that the bytes encode.
#[verifier::external_body]
fn text_from_utf8(bytes: &[u8]) -> (r: Option<String>)
    ensures
        r is Some <==> valid_utf8(bytes@),
        r matches Some(text) ==> text@ == decode_utf8(bytes@),
{
    match std::str::from_utf8(bytes) {
        Ok(text) => Some(text.to_string()),
        Err(_) => None,
    }
}

impl Cartridge {
    /// Reads the header of a ROM image.
    pub fn new(buffer: &[u8]) -> (r: Result<Self, CartridgeError>)
        ensures
            match r {
                Ok(cartridge) => header_error(buffer@) is None && read_from(cartridge, buffer@),
                Err(e) => header_error(buffer@) == Some(e),
            },
    {
        if buffer.len() < HEADER_END {
            return Err(CartridgeError::BadRomData);
        }
        let game_title = match text_from_utf8(&buffer[GAME_TITLE..GAME_TITLE + GAME_TITLE_LENGTH]) {
            Some(v) => v,
            None => {
                return Err(CartridgeError::BadRomData);
            },
        };
        let rom_size = lookup_cartridge_rom_size(buffer[CARTRIDGE_ROM_SIZE])?;
        let ram_size = lookup_cartridge_ram_size(buffer[CARTRIDGE_RAM_SIZE])?;
        Ok(
            Self {
                start_address: hi_lo_combine(buffer[ENTRY + 1], buffer[ENTRY]),
                cartridge_type: lookup_cartridge_type(buffer[CARTRIDGE_TYPE])?,
                game_title,
                rom_size,
                ram_size,
            },
        )
    }

    /// The title, the kind, the sizes and the entry address, each on a line
    /// of its own.
    pub fn header_info(&self) -> (r: String)
        ensures
            r@ == header_text(*self),
    {
        let mut text = self.game_title.clone();
        text.append(" \nCartridge Type: ");
        text.append(self.cartridge_type.name().as_str());
        text.append(" \nRam Size: ");
        text.append(format_decimal(self.ram_size).as_str());
        text.append("kB \nRom Size: ");
        text.append(format_decimal(self.rom_size).as_str());
        text.append("kB \nEntry Address: ");
        text.append(format_hex(self.start_address as usize).as_str());
        text
    }

    /// The header as a text of five lines.
    pub fn to_text(&self) -> (r: String)
        ensures
            r@ == cartridge_text(*self),
    {
        let mut text = String::from_str("Title: ");
        text.append(self.game_title.as_str());
        text.append("\nCartridge Type: ");
        text.append(self.cartridge_type.name().as_str());
        text.append("\nStart Address: ");
        text.append(format_hex(self.start_address as usize).as_str());
        text.append("\nRom Size: ");
        text.append(format_decimal(self.rom_size).as_str());
        text.append("kB\nRam Size: ");
        text.append(format_decimal(self.ram_size).as_str());
        text.append("kB\n");
        text
    }
}

} // verus!
