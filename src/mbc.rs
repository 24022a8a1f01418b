//! Memory bank controllers: the cartridge logic that maps the processor's
//! ROM and external RAM windows onto the cartridge's memory.
use vstd::prelude::*;

pub mod mbc0;
pub mod mbc1;

use self::mbc0::MBC0;
use self::mbc1::MBC1;

verus! {

/// Why a cartridge image cannot be used.
#[derive(Copy, Clone, Debug, PartialEq, Eq, Structural)]
pub enum CartridgeError {
    /// The header names a controller that is not implemented.
    UnsupportedMapper,
    /// The image is larger than the controller can address.
    RomTooLarge,
    /// The header's RAM size does not suit the controller.
    InvalidRamSize,
}

impl CartridgeError {
    /// A sentence describing the error.
    pub fn message(&self) -> (r: &'static str)
        ensures
            r@ == match *self {
                CartridgeError::UnsupportedMapper => "unsupported cartridge MBC"@,
                CartridgeError::RomTooLarge => "the ROM is too large for its MBC"@,
                CartridgeError::InvalidRamSize => "the RAM size does not suit the MBC"@,
            },
    {
        match *self {
            CartridgeError::UnsupportedMapper => "unsupported cartridge MBC",
            CartridgeError::RomTooLarge => "the ROM is too large for its MBC",
            CartridgeError::InvalidRamSize => "the RAM size does not suit the MBC",
        }
    }
}

/// The offset of the header's controller type code.
pub const MBC_TYPE_OFFSET: usize = 0x0147;

/// The offset of the header's RAM size code.
pub const RAM_SIZE_OFFSET: usize = 0x0149;

/// Fields of the cartridge header that take one byte.
#[derive(Copy, Clone, Debug, PartialEq, Eq, Structural)]
pub enum CartridgeHeader {
    MBC_TYPE,
    ROM_SIZE,
    RAM_SIZE,
    /// Destination code: 0x00 for the Japanese market, 0x01 otherwise.
    DESTINATION,
    /// Licensee code; 0x33 means that the newer two-byte code is used.
    LICENSEE_OLD,
}

/// The offset of a header field in the image.
pub open spec fn header_offset(h: CartridgeHeader) -> usize {
    match h {
        CartridgeHeader::MBC_TYPE => 0x0147,
        CartridgeHeader::ROM_SIZE => 0x0148,
        CartridgeHeader::RAM_SIZE => 0x0149,
        CartridgeHeader::DESTINATION => 0x014A,
        CartridgeHeader::LICENSEE_OLD => 0x014B,
    }
}

/// The external RAM size, in bytes, that a header RAM code announces.
pub open spec fn ram_size_of_code(code: u8) -> usize {
    if code == 0x01 {
        0x0800
    } else if code == 0x02 {
        0x2000
    } else if code == 0x03 {
        0x8000
    } else {
        0
    }
}

impl CartridgeHeader {
    /// The offset of a header field in the image.
    pub fn address(header_info: CartridgeHeader) -> (r: Option<usize>)
        ensures
            r == Some(header_offset(header_info)),
    {
        match header_info {
            CartridgeHeader::MBC_TYPE => Some(0x0147),
            CartridgeHeader::ROM_SIZE => Some(0x0148),
            CartridgeHeader::RAM_SIZE => Some(0x0149),
            CartridgeHeader::DESTINATION => Some(0x014A),
            CartridgeHeader::LICENSEE_OLD => Some(0x014B),
        }
    }

    /// The external RAM size that the image's header announces; none when
    /// the image has no header.
    pub fn ram_size(rom: &Vec<u8>) -> (r: usize)
        ensures
            r == if rom@.len() > 0x0149 {
                ram_size_of_code(rom@[0x0149])
            } else {
                0
            },
    {
        if rom.len() <= 0x0149 {
            return 0;
        }
        match rom[0x0149] {
            0x01 => 0x0800,
            0x02 => 0x2000,
            0x03 => 0x8000,
            _ => 0,
        }
    }
}

/// A cartridge controller, seen from the bus.
pub trait MBC: Sized {
    /// The byte a read of `address` in 0x0000-0x7FFF returns.
    spec fn rom_value(&self, address: u16) -> u8;

    /// The byte a read of `address` in 0xA000-0xBFFF returns.
    spec fn ram_value(&self, address: u16) -> u8;

    /// `post` is the state a write of `value` at `address` in the ROM
    /// window (a control register) leaves.
    spec fn controlled(&self, address: u16, value: u8, post: Self) -> bool;

    /// `post` is the state a write of `value` at `address` in the external
    /// RAM window leaves.
    spec fn ram_written(&self, address: u16, value: u8, post: Self) -> bool;

    fn rom_read(&self, address: u16) -> (r: u8)
        ensures
            r == self.rom_value(address),
    ;

    fn ram_read(&self, address: u16) -> (r: u8)
        ensures
            r == self.ram_value(address),
    ;

    fn rom_control(&mut self, address: u16, value: u8)
        ensures
            old(self).controlled(address, value, *final(self)),
    ;

    fn ram_write(&mut self, address: u16, value: u8)
        ensures
            old(self).ram_written(address, value, *final(self)),
    ;
}

/// A loaded cartridge with its controller.
pub enum Cartridge {
    NoMapper(MBC0),
    Bank1(MBC1),
}

impl MBC for Cartridge {
    open spec fn rom_value(&self, address: u16) -> u8 {
        match self {
            Cartridge::NoMapper(m) => m.rom_value(address),
            Cartridge::Bank1(m) => m.rom_value(address),
        }
    }

    open spec fn ram_value(&self, address: u16) -> u8 {
        match self {
            Cartridge::NoMapper(m) => m.ram_value(address),
            Cartridge::Bank1(m) => m.ram_value(address),
        }
    }

    open spec fn controlled(&self, address: u16, value: u8, post: Cartridge) -> bool {
        match (self, post) {
            (Cartridge::NoMapper(m), Cartridge::NoMapper(p)) => m.controlled(address, value, p),
            (Cartridge::Bank1(m), Cartridge::Bank1(p)) => m.controlled(address, value, p),
            _ => false,
        }
    }

    open spec fn ram_written(&self, address: u16, value: u8, post: Cartridge) -> bool {
        match (self, post) {
            (Cartridge::NoMapper(m), Cartridge::NoMapper(p)) => m.ram_written(address, value, p),
            (Cartridge::Bank1(m), Cartridge::Bank1(p)) => m.ram_written(address, value, p),
            _ => false,
        }
    }

    fn rom_read(&self, address: u16) -> (r: u8) {
        match self {
            Cartridge::NoMapper(m) => m.rom_read(address),
            Cartridge::Bank1(m) => m.rom_read(address),
        }
    }

    fn ram_read(&self, address: u16) -> (r: u8) {
        match self {
            Cartridge::NoMapper(m) => m.ram_read(address),
            Cartridge::Bank1(m) => m.ram_read(address),
        }
    }

    fn rom_control(&mut self, address: u16, value: u8) {
        match self {
            Cartridge::NoMapper(m) => m.rom_control(address, value),
            Cartridge::Bank1(m) => m.rom_control(address, value),
        }
    }

    fn ram_write(&mut self, address: u16, value: u8) {
        match self {
            Cartridge::NoMapper(m) => m.ram_write(address, value),
            Cartridge::Bank1(m) => m.ram_write(address, value),
        }
    }
}

/// The controller a header type code selects: 0 for none, 1 for the
/// bank-1 controller, 2 when unsupported.
pub open spec fn mapper_kind(code: u8) -> nat {
    if code == 0x00 {
        0
    } else if 0x01 <= code <= 0x03 {
        1
    } else {
        2
    }
}

/// Build the cartridge that an image describes, with the controller its
/// header names.
pub fn load_cartridge(data: Vec<u8>) -> (r: Result<Cartridge, CartridgeError>)
    ensures
        (data@.len() <= MBC_TYPE_OFFSET || mapper_kind(data@[0x0147]) == 2) ==> r == Err::<
            Cartridge,
            CartridgeError,
        >(CartridgeError::UnsupportedMapper),
        data@.len() > MBC_TYPE_OFFSET && mapper_kind(data@[0x0147]) == 0 ==> match r {
            Ok(Cartridge::NoMapper(m)) => m.rom@ == data@,
            Ok(_) => false,
            Err(e) => MBC0::rejects(data@, e),
        },
        data@.len() > MBC_TYPE_OFFSET && mapper_kind(data@[0x0147]) == 1 ==> match r {
            Ok(Cartridge::Bank1(m)) => m.rom@ == data@,
            Ok(_) => false,
            Err(e) => e == CartridgeError::RomTooLarge && data@.len() > mbc1::MBC1_MAX_ROM,
        },
{
    if data.len() <= MBC_TYPE_OFFSET {
        // no type code: no controller can be named
        return Err(CartridgeError::UnsupportedMapper);
    }
    let code = data[0x0147];
    if code == 0x00 {
        match MBC0::from_data(data) {
            Ok(m) => Ok(Cartridge::NoMapper(m)),
            Err(e) => Err(e),
        }
    } else if 0x01 <= code && code <= 0x03 {
        match MBC1::new(data) {
            Ok(m) => Ok(Cartridge::Bank1(m)),
            Err(e) => Err(e),
        }
    } else {
        Err(CartridgeError::UnsupportedMapper)
    }
}

} // verus!
