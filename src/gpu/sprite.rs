use vstd::prelude::*;

verus! {

/// The number of sprites in the object attribute memory.
pub const OAM_SIZE: usize = 40;

/// The attribute bits of a sprite (the low four bits are not used).
#[derive(Copy, Clone, Debug, PartialEq, Eq, Structural)]
pub struct SpriteFlags {
    pub bits: u8,
}

impl SpriteFlags {
    /// Palette selection, classic mode: sprite palette 0 or 1.
    pub const PALETTE: u8 = 0x10;
    /// Flip the sprite horizontally.
    pub const FLIP_X: u8 = 0x20;
    /// Flip the sprite vertically.
    pub const FLIP_Y: u8 = 0x40;
    /// Draw the sprite behind the non-white background.
    pub const PRIORITY: u8 = 0x80;

    pub fn empty() -> (r: SpriteFlags)
        ensures
            r.bits == 0,
    {
        SpriteFlags { bits: 0 }
    }

    /// The flags of a byte, its unused bits dropped.
    pub fn from_bits_truncate(bits: u8) -> (r: SpriteFlags)
        ensures
            r.bits == bits & 0xF0,
    {
        SpriteFlags { bits: bits & 0xF0 }
    }

    pub fn bits(&self) -> (r: u8)
        ensures
            r == self.bits,
    {
        self.bits
    }
}

/// A sprite: four bytes of the object attribute memory.
#[derive(Copy, Clone, Debug, PartialEq, Eq, Structural)]
pub struct Sprite {
    /// Vertical position on the screen, plus 16.
    pub y: u8,
    /// Horizontal position on the screen, plus 8.
    pub x: u8,
    /// The tile, in the 0x8000 page.
    pub tile_number: u8,
    pub flags: SpriteFlags,
}

impl Sprite {
    pub fn new() -> (r: Sprite)
        ensures
            r.x == 0 && r.y == 0 && r.tile_number == 0 && r.flags.bits == 0,
    {
        Sprite { x: 0, y: 0, tile_number: 0, flags: SpriteFlags::empty() }
    }

    /// The raw byte `index` of the sprite's four.
    pub open spec fn byte(&self, index: int) -> u8 {
        if index == 0 {
            self.y
        } else if index == 1 {
            self.x
        } else if index == 2 {
            self.tile_number
        } else {
            self.flags.bits
        }
    }

    pub fn read_data(&self, index: usize) -> (r: u8)
        requires
            index < 4,
        ensures
            r == self.byte(index as int),
    {
        match index {
            0 => self.y,
            1 => self.x,
            2 => self.tile_number,
            _ => self.flags.bits(),
        }
    }

    pub fn write_data(&mut self, index: usize, data: u8)
        requires
            index < 4,
        ensures
            index == 0 ==> *final(self) == (Sprite { y: data, ..*old(self) }),
            index == 1 ==> *final(self) == (Sprite { x: data, ..*old(self) }),
            index == 2 ==> *final(self) == (Sprite { tile_number: data, ..*old(self) }),
            index == 3 ==> *final(self) == (Sprite { flags: SpriteFlags { bits: data & 0xF0 }, ..*old(self) }),
    {
        match index {
            0 => self.y = data,
            1 => self.x = data,
            2 => self.tile_number = data,
            _ => self.flags = SpriteFlags::from_bits_truncate(data),
        }
    }

    pub fn x(&self) -> (r: u8)
        ensures
            r == self.x,
    {
        self.x
    }

    pub fn y(&self) -> (r: u8)
        ensures
            r == self.y,
    {
        self.y
    }

    pub fn tile_number(&self) -> (r: u8)
        ensures
            r == self.tile_number,
    {
        self.tile_number
    }

    pub fn flags(&self) -> (r: SpriteFlags)
        ensures
            r == self.flags,
    {
        self.flags
    }
}

} // verus!
