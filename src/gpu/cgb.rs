use vstd::prelude::*;
use super::palette::{PaletteColor, PaletteColorValue};

verus! {

/// VRAM bank selection register.
pub const VRAM_BANK: u16 = 0xFF4F;
/// Background palette index register.
pub const BGP_INDEX: u16 = 0xFF68;
/// Background palette data register.
pub const BGP_DATA: u16 = 0xFF69;
/// Sprite palette index register.
pub const OBP_INDEX: u16 = 0xFF6A;
/// Sprite palette data register.
pub const OBP_DATA: u16 = 0xFF6B;

/// A color palette index register: bit 0 selects the high byte, bits 2-1
/// the color, bits 5-3 the palette, bit 7 auto-increment after each write
/// of the data register.
pub struct PaletteIndexRegister {
    pub raw_value: u8,
    pub palette_index: usize,
    pub palette_color_number: usize,
    pub high_byte: bool,
    pub auto_increment: bool,
}

impl PaletteIndexRegister {
    /// The fields match the raw value.
    pub open spec fn decodes(&self, value: u8) -> bool {
        &&& self.raw_value == value
        &&& self.high_byte == (value % 2 == 1)
        &&& self.palette_color_number == (value as nat / 2) % 4
        &&& self.palette_index == (value as nat / 8) % 8
        &&& self.auto_increment == (value >= 0x80)
    }

    pub fn new(raw_value: u8) -> (r: PaletteIndexRegister)
        ensures
            r.decodes(raw_value),
    {
        let mut new_index = PaletteIndexRegister {
            raw_value: 0,
            palette_index: 0,
            palette_color_number: 0,
            high_byte: false,
            auto_increment: false,
        };
        new_index.update_with(raw_value);
        new_index
    }

    pub fn raw_value(&self) -> (r: u8)
        ensures
            r == self.raw_value,
    {
        self.raw_value
    }

    pub fn high_byte(&self) -> (r: bool)
        ensures
            r == self.high_byte,
    {
        self.high_byte
    }

    pub fn index(&self) -> (r: usize)
        ensures
            r == self.palette_index,
    {
        self.palette_index
    }

    pub fn color_index(&self) -> (r: usize)
        ensures
            r == self.palette_color_number,
    {
        self.palette_color_number
    }

    /// Load the raw value and decode it.
    pub fn update_with(&mut self, value: u8)
        ensures
            final(self).decodes(value),
    {
        self.raw_value = value;
        self.high_byte = value % 2 == 1;
        self.palette_color_number = (value / 2 % 4) as usize;
        self.palette_index = (value / 8 % 8) as usize;
        self.auto_increment = value >= 0x80;
    }

    /// After a data write: step the six index bits when auto-increment is on.
    pub fn auto_increment(&mut self)
        ensures
            old(self).auto_increment ==> final(self).decodes(
                (0x80 + (old(self).raw_value as nat % 64 + 1) % 64) as u8,
            ),
            !old(self).auto_increment ==> *final(self) == *old(self),
    {
        if self.auto_increment {
            let new_value = 0x80 + (self.raw_value % 64 + 1) % 64;
            self.update_with(new_value);
        }
    }
}

/// The state of the color palettes, in color mode.
pub struct GpuData {
    pub vram_bank_selector: u8,
    pub bg_palette_index: PaletteIndexRegister,
    pub bg_palettes: [PaletteColor; 8],
    pub ob_palette_index: PaletteIndexRegister,
    pub ob_palettes: [PaletteColor; 8],
}

/// The byte of `c` that the index register selects.
pub open spec fn selected_byte(c: PaletteColorValue, high: bool) -> u8 {
    if high {
        (c.raw as nat / 256) as u8
    } else {
        (c.raw as nat % 256) as u8
    }
}

impl PaletteIndexRegister {
    /// `post` is this register after a data write stepped it.
    pub open spec fn stepped(&self, post: PaletteIndexRegister) -> bool {
        if self.auto_increment {
            post.decodes((0x80 + (self.raw_value as nat % 64 + 1) % 64) as u8)
        } else {
            post == *self
        }
    }
}

/// `post` holds `palettes` with the byte of color `j` of palette `i` that
/// `high` selects replaced by `byte`.
pub open spec fn palette_byte_written(
    palettes: [PaletteColor; 8],
    i: int,
    j: int,
    high: bool,
    byte: u8,
    post: [PaletteColor; 8],
) -> bool {
    let c = palettes@[i].data@[j];
    let raw = if high {
        byte as nat * 256 + c.raw as nat % 256
    } else {
        c.raw as nat / 256 * 256 + byte as nat
    };
    &&& post@[i].data@ == palettes@[i].data@.update(j, PaletteColorValue::new_spec(raw as u16))
    &&& forall|k: int| 0 <= k < 8 && k != i ==> #[trigger] post@[k] == palettes@[k]
}

impl GpuData {
    /// `post` is this state after a write of the background palette data register.
    pub open spec fn bg_written(&self, byte: u8, post: GpuData) -> bool {
        &&& palette_byte_written(
            self.bg_palettes,
            self.bg_palette_index.palette_index as int,
            self.bg_palette_index.palette_color_number as int,
            self.bg_palette_index.high_byte,
            byte,
            post.bg_palettes,
        )
        &&& self.bg_palette_index.stepped(post.bg_palette_index)
        &&& post.ob_palette_index == self.ob_palette_index && post.ob_palettes == self.ob_palettes
        &&& post.vram_bank_selector == self.vram_bank_selector
    }

    /// `post` is this state after a write of the sprite palette data register.
    pub open spec fn ob_written(&self, byte: u8, post: GpuData) -> bool {
        &&& palette_byte_written(
            self.ob_palettes,
            self.ob_palette_index.palette_index as int,
            self.ob_palette_index.palette_color_number as int,
            self.ob_palette_index.high_byte,
            byte,
            post.ob_palettes,
        )
        &&& self.ob_palette_index.stepped(post.ob_palette_index)
        &&& post.bg_palette_index == self.bg_palette_index && post.bg_palettes == self.bg_palettes
        &&& post.vram_bank_selector == self.vram_bank_selector
    }

    pub open spec fn wf(&self) -> bool {
        self.bg_palette_index.decodes(self.bg_palette_index.raw_value)
            && self.ob_palette_index.decodes(self.ob_palette_index.raw_value)
    }

    pub fn new() -> (r: GpuData)
        ensures
            r.wf(),
            r.vram_bank_selector == 0,
    {
        GpuData {
            vram_bank_selector: 0,
            bg_palette_index: PaletteIndexRegister::new(0),
            bg_palettes: [PaletteColor::new(); 8],
            ob_palette_index: PaletteIndexRegister::new(0),
            ob_palettes: [PaletteColor::new(); 8],
        }
    }

    /// The background palette byte the index register selects.
    pub fn get_bg_color(&self) -> (r: u8)
        requires
            self.bg_palette_index.palette_index < 8,
            self.bg_palette_index.palette_color_number < 4,
        ensures
            r == selected_byte(
                self.bg_palettes@[self.bg_palette_index.palette_index as int].data@[self.bg_palette_index.palette_color_number as int],
                self.bg_palette_index.high_byte,
            ),
    {
        let palette = self.bg_palettes[self.bg_palette_index.index()].data();
        let color = palette[self.bg_palette_index.color_index()];
        if self.bg_palette_index.high_byte() {
            color.raw_high()
        } else {
            color.raw_low()
        }
    }

    /// Write the background palette byte the index register selects, then
    /// step the index.
    pub fn set_bg_color(&mut self, byte: u8)
        requires
            old(self).bg_palette_index.palette_index < 8,
            old(self).bg_palette_index.palette_color_number < 4,
        ensures
            old(self).wf() ==> final(self).wf(),
            old(self).bg_written(byte, *final(self)),
    {
        let i = self.bg_palette_index.index();
        let j = self.bg_palette_index.color_index();
        let mut palette = self.bg_palettes[i];
        let mut color = palette.data()[j];
        if self.bg_palette_index.high_byte() {
            color.set_high(byte);
        } else {
            color.set_low(byte);
        }
        palette.set_color(j, color);
        self.bg_palettes[i] = palette;
        self.bg_palette_index.auto_increment();
    }

    /// The sprite palette byte the index register selects.
    pub fn get_ob_color(&self) -> (r: u8)
        requires
            self.ob_palette_index.palette_index < 8,
            self.ob_palette_index.palette_color_number < 4,
        ensures
            r == selected_byte(
                self.ob_palettes@[self.ob_palette_index.palette_index as int].data@[self.ob_palette_index.palette_color_number as int],
                self.ob_palette_index.high_byte,
            ),
    {
        let palette = self.ob_palettes[self.ob_palette_index.index()].data();
        let color = palette[self.ob_palette_index.color_index()];
        if self.ob_palette_index.high_byte() {
            color.raw_high()
        } else {
            color.raw_low()
        }
    }

    /// Write the sprite palette byte the index register selects, then step
    /// the index.
    pub fn set_ob_color(&mut self, byte: u8)
        requires
            old(self).ob_palette_index.palette_index < 8,
            old(self).ob_palette_index.palette_color_number < 4,
        ensures
            old(self).wf() ==> final(self).wf(),
            old(self).ob_written(byte, *final(self)),
    {
        let i = self.ob_palette_index.index();
        let j = self.ob_palette_index.color_index();
        let mut palette = self.ob_palettes[i];
        let mut color = palette.data()[j];
        if self.ob_palette_index.high_byte() {
            color.set_high(byte);
        } else {
            color.set_low(byte);
        }
        palette.set_color(j, color);
        self.ob_palettes[i] = palette;
        self.ob_palette_index.auto_increment();
    }
}

} // verus!
