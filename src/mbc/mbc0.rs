use vstd::prelude::*;
use super::{ram_size_of_code, CartridgeError, CartridgeHeader, MBC, RAM_SIZE_OFFSET};

verus! {

/// The largest image the controller-less cartridge can hold.
pub const ROM_SIZE: usize = 0x8000;

/// The size of its optional external RAM.
pub const ERAM_SIZE: usize = 0x2000;

/// A cartridge without controller: up to 32 KiB of ROM mapped directly and
/// optionally 8 KiB of RAM.
pub struct MBC0 {
    pub rom: Vec<u8>,
    /// Empty when the cartridge has no RAM.
    pub eram: Vec<u8>,
}

impl MBC0 {
    /// Whether `e` is the error that `from_data` gives for an image.
    pub open spec fn rejects(data: Seq<u8>, e: CartridgeError) -> bool {
        if data.len() > ROM_SIZE {
            e == CartridgeError::RomTooLarge
        } else if data.len() <= RAM_SIZE_OFFSET {
            e == CartridgeError::InvalidRamSize
        } else {
            e == CartridgeError::InvalidRamSize && ram_size_of_code(data[0x0149]) != 0
                && ram_size_of_code(data[0x0149]) != ERAM_SIZE
        }
    }

    /// Build the cartridge from its image, checking the header's sizes.
    pub fn from_data(data: Vec<u8>) -> (r: Result<MBC0, CartridgeError>)
        ensures
            match r {
                Ok(m) => {
                    &&& RAM_SIZE_OFFSET < data@.len() <= ROM_SIZE
                    &&& m.rom@ == data@
                    &&& ram_size_of_code(data@[0x0149]) == 0 ==> m.eram@.len() == 0
                    &&& ram_size_of_code(data@[0x0149]) != 0 ==> m.eram@ == Seq::new(
                        ERAM_SIZE as nat,
                        |i: int| 0u8,
                    )
                },
                Err(e) => MBC0::rejects(data@, e),
            },
            (RAM_SIZE_OFFSET < data@.len() <= ROM_SIZE && (ram_size_of_code(data@[0x0149]) == 0
                || ram_size_of_code(data@[0x0149]) == ERAM_SIZE)) ==> r.is_ok(),
    {
        if data.len() > ROM_SIZE {
            return Err(CartridgeError::RomTooLarge);
        }
        if data.len() <= RAM_SIZE_OFFSET {
            // no RAM size code to read
            return Err(CartridgeError::InvalidRamSize);
        }
        let ram_size = CartridgeHeader::ram_size(&data);
        let mut eram: Vec<u8> = Vec::new();
        if ram_size == ERAM_SIZE {
            let mut i: usize = 0;
            while i < ERAM_SIZE
                invariant
                    i <= ERAM_SIZE,
                    eram@ == Seq::new(i as nat, |k: int| 0u8),
                decreases ERAM_SIZE - i,
            {
                eram.push(0);
                i = i + 1;
                assert(eram@ =~= Seq::new(i as nat, |k: int| 0u8));
            }
        } else if ram_size != 0 {
            return Err(CartridgeError::InvalidRamSize);
        }
        Ok(MBC0 { rom: data, eram })
    }
}

impl MBC for MBC0 {
    open spec fn rom_value(&self, address: u16) -> u8 {
        if (address as int) < self.rom@.len() {
            self.rom@[address as int]
        } else {
            0
        }
    }

    open spec fn ram_value(&self, address: u16) -> u8 {
        let i = address as int % 0x2000;
        if i < self.eram@.len() {
            self.eram@[i]
        } else {
            0
        }
    }

    open spec fn controlled(&self, address: u16, value: u8, post: MBC0) -> bool {
        post == *self
    }

    open spec fn ram_written(&self, address: u16, value: u8, post: MBC0) -> bool {
        let i = address as int % 0x2000;
        post.rom == self.rom && post.eram@ == if i < self.eram@.len() {
            self.eram@.update(i, value)
        } else {
            self.eram@
        }
    }

    fn rom_read(&self, address: u16) -> (r: u8) {
        if (address as usize) < self.rom.len() {
            self.rom[address as usize]
        } else {
            0
        }
    }

    fn ram_read(&self, address: u16) -> (r: u8) {
        let i = (address % 0x2000) as usize;
        if i < self.eram.len() {
            self.eram[i]
        } else {
            0
        }
    }

    fn rom_control(&mut self, address: u16, value: u8) {
    }

    fn ram_write(&mut self, address: u16, value: u8) {
        let i = (address % 0x2000) as usize;
        if i < self.eram.len() {
            self.eram.set(i, value);
        }
    }
}

} // verus!
