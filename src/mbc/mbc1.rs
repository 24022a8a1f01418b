use vstd::prelude::*;
use super::{ram_size_of_code, CartridgeError, CartridgeHeader, MBC};

verus! {

/// The largest image the bank-1 controller addresses: 125 banks of 16 KiB.
pub const MBC1_MAX_ROM: usize = 0x1F4000;

/// The bank-1 controller: up to 2 MiB of ROM in 16 KiB banks and up to
/// 32 KiB of RAM in 8 KiB banks.
pub struct MBC1 {
    pub rom: Vec<u8>,
    pub ram: Vec<u8>,
    /// The ROM bank mapped at 0x4000-0x7FFF: five low bits, never zero, and
    /// two upper bits set in ROM banking mode.
    pub rom_bank: u8,
    /// The RAM bank used in RAM banking mode.
    pub ram_bank: u8,
    pub ram_enabled: bool,
    /// RAM banking mode (else ROM banking mode).
    pub ram_mode: bool,
}

/// The ROM bank after a write of `value` to the low bank register: the low
/// five bits are replaced, zero standing for one.
pub open spec fn with_low_bank(bank: u8, value: u8) -> u8 {
    let low = value as nat % 32;
    ((bank as nat / 32) * 32 + if low == 0 { 1 } else { low }) as u8
}

/// The ROM bank with its two upper bits replaced by `n`.
pub open spec fn with_high_bank(bank: u8, n: u8) -> u8 {
    (bank as nat % 32 + n as nat * 32) as u8
}

impl MBC1 {
    /// The offset in the image of a read in the banked ROM window.
    pub open spec fn rom_index(&self, address: u16) -> int {
        if address < 0x4000 {
            address as int
        } else {
            self.rom_bank as int * 0x4000 + address as int % 0x4000
        }
    }

    /// The offset in external RAM of an access at `address`.
    pub open spec fn ram_index(&self, address: u16) -> int {
        (if self.ram_mode { self.ram_bank as int } else { 0 }) * 0x2000 + address as int % 0x2000
    }

    /// Build the controller from its image; RAM is present for the type
    /// codes 0x02 and 0x03, with the size the header announces.
    pub fn new(data: Vec<u8>) -> (r: Result<MBC1, CartridgeError>)
        ensures
            match r {
                Ok(m) => {
                    &&& data@.len() <= MBC1_MAX_ROM
                    &&& m.rom@ == data@
                    &&& m.ram@.len() == if data@.len() > 0x0149 && (data@[0x0147] == 0x02
                        || data@[0x0147] == 0x03) {
                        ram_size_of_code(data@[0x0149]) as nat
                    } else {
                        0
                    }
                    &&& forall|i: int| 0 <= i < m.ram@.len() ==> m.ram@[i] == 0
                    &&& m.rom_bank == 1 && m.ram_bank == 0 && !m.ram_enabled && !m.ram_mode
                },
                Err(e) => e == CartridgeError::RomTooLarge && data@.len() > MBC1_MAX_ROM,
            },
            data@.len() <= MBC1_MAX_ROM ==> r.is_ok(),
    {
        if data.len() > MBC1_MAX_ROM {
            return Err(CartridgeError::RomTooLarge);
        }
        let ram_size: usize = if data.len() > 0x0149 && (data[0x0147] == 0x02 || data[0x0147]
            == 0x03) {
            CartridgeHeader::ram_size(&data)
        } else {
            0
        };
        let mut ram: Vec<u8> = Vec::new();
        let mut i: usize = 0;
        while i < ram_size
            invariant
                i <= ram_size,
                ram@.len() == i,
                forall|k: int| 0 <= k < i ==> ram@[k] == 0,
            decreases ram_size - i,
        {
            ram.push(0);
            i = i + 1;
        }
        Ok(MBC1 { rom: data, ram, rom_bank: 1, ram_bank: 0, ram_enabled: false, ram_mode: false })
    }
}

impl MBC for MBC1 {
    open spec fn rom_value(&self, address: u16) -> u8 {
        let i = self.rom_index(address);
        if i < self.rom@.len() {
            self.rom@[i]
        } else {
            0
        }
    }

    open spec fn ram_value(&self, address: u16) -> u8 {
        let i = self.ram_index(address);
        if self.ram_enabled && i < self.ram@.len() {
            self.ram@[i]
        } else {
            0
        }
    }

    open spec fn controlled(&self, address: u16, value: u8, post: MBC1) -> bool {
        post == if address < 0x2000 {
            MBC1 { ram_enabled: value % 16 == 0x0A, ..*self }
        } else if address < 0x4000 {
            MBC1 { rom_bank: with_low_bank(self.rom_bank, value), ..*self }
        } else if address < 0x6000 {
            if self.ram_mode {
                MBC1 { ram_bank: value % 4, ..*self }
            } else {
                MBC1 { rom_bank: with_high_bank(self.rom_bank, value % 4), ..*self }
            }
        } else if address < 0x8000 {
            MBC1 { ram_mode: value % 2 == 1, ..*self }
        } else {
            *self
        }
    }

    open spec fn ram_written(&self, address: u16, value: u8, post: MBC1) -> bool {
        let i = self.ram_index(address);
        &&& post.rom == self.rom
        &&& post.rom_bank == self.rom_bank && post.ram_bank == self.ram_bank
        &&& post.ram_enabled == self.ram_enabled && post.ram_mode == self.ram_mode
        &&& post.ram@ == if self.ram_enabled && i < self.ram@.len() {
            self.ram@.update(i, value)
        } else {
            self.ram@
        }
    }

    fn rom_read(&self, address: u16) -> (r: u8) {
        let i: usize = if address < 0x4000 {
            address as usize
        } else {
            self.rom_bank as usize * 0x4000 + (address % 0x4000) as usize
        };
        if i < self.rom.len() {
            self.rom[i]
        } else {
            0
        }
    }

    fn ram_read(&self, address: u16) -> (r: u8) {
        let bank: usize = if self.ram_mode { self.ram_bank as usize } else { 0 };
        let i = bank * 0x2000 + (address % 0x2000) as usize;
        if self.ram_enabled && i < self.ram.len() {
            self.ram[i]
        } else {
            0
        }
    }

    fn rom_control(&mut self, address: u16, value: u8) {
        if address < 0x2000 {
            self.ram_enabled = value % 16 == 0x0A;
        } else if address < 0x4000 {
            let low = value % 32;
            self.rom_bank = (self.rom_bank / 32) * 32 + if low == 0 { 1 } else { low };
        } else if address < 0x6000 {
            if self.ram_mode {
                self.ram_bank = value % 4;
            } else {
                self.rom_bank = self.rom_bank % 32 + (value % 4) * 32;
            }
        } else if address < 0x8000 {
            self.ram_mode = value % 2 == 1;
        }
    }

    fn ram_write(&mut self, address: u16, value: u8) {
        let bank: usize = if self.ram_mode { self.ram_bank as usize } else { 0 };
        let i = bank * 0x2000 + (address % 0x2000) as usize;
        if self.ram_enabled && i < self.ram.len() {
            self.ram.set(i, value);
        }
    }
}

} // verus!
