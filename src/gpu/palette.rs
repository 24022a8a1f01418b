use vstd::prelude::*;
use super::RGB;

verus! {

/// The four shades of the classic monochrome screen.
#[derive(Copy, Clone, Debug, PartialEq, Eq, Structural)]
pub enum PaletteGrayShade {
    White,
    LightGray,
    DarkGray,
    Dark,
}

/// The shade with number `value` (0 to 3).
pub open spec fn shade_of(value: u8) -> PaletteGrayShade {
    if value == 0 {
        PaletteGrayShade::White
    } else if value == 1 {
        PaletteGrayShade::LightGray
    } else if value == 2 {
        PaletteGrayShade::DarkGray
    } else {
        PaletteGrayShade::Dark
    }
}

/// The number (0 to 3) of a shade.
pub open spec fn shade_number(s: PaletteGrayShade) -> u8 {
    match s {
        PaletteGrayShade::White => 0,
        PaletteGrayShade::LightGray => 1,
        PaletteGrayShade::DarkGray => 2,
        PaletteGrayShade::Dark => 3,
    }
}

/// The RGB value of a shade.
pub open spec fn shade_rgb(s: PaletteGrayShade) -> RGB {
    match s {
        PaletteGrayShade::White => RGB { r: 255, g: 255, b: 255 },
        PaletteGrayShade::LightGray => RGB { r: 192, g: 192, b: 192 },
        PaletteGrayShade::DarkGray => RGB { r: 96, g: 96, b: 96 },
        PaletteGrayShade::Dark => RGB { r: 0, g: 0, b: 0 },
    }
}

impl PaletteGrayShade {
    /// The shade with number `value`.
    pub fn from_u8(value: u8) -> (r: PaletteGrayShade)
        requires
            value < 4,
        ensures
            r == shade_of(value),
    {
        match value {
            0 => PaletteGrayShade::White,
            1 => PaletteGrayShade::LightGray,
            2 => PaletteGrayShade::DarkGray,
            _ => PaletteGrayShade::Dark,
        }
    }

    /// The shade's RGB value.
    pub fn as_rgb(&self) -> (r: RGB)
        ensures
            r == shade_rgb(*self),
    {
        match *self {
            PaletteGrayShade::White => RGB { r: 255, g: 255, b: 255 },
            PaletteGrayShade::LightGray => RGB { r: 192, g: 192, b: 192 },
            PaletteGrayShade::DarkGray => RGB { r: 96, g: 96, b: 96 },
            PaletteGrayShade::Dark => RGB { r: 0, g: 0, b: 0 },
        }
    }
}

/// The shade number that a palette byte gives color `i` (0 to 3): bits
/// 2i+1 and 2i.
pub open spec fn palette_entry(p: u8, i: int) -> u8 {
    let d: nat = if i == 0 {
        1
    } else if i == 1 {
        4
    } else if i == 2 {
        16
    } else {
        64
    };
    ((p as nat / d) % 4) as u8
}

/// A classic palette: four 2-bit shades packed in one byte, color 0 in
/// bits 1-0 and color 3 in bits 7-6.
#[derive(Copy, Clone, Debug, PartialEq, Eq)]
pub struct PaletteClassic {
    pub raw: u8,
    pub data: [PaletteGrayShade; 4],
}

impl PaletteClassic {
    /// The palette's shades are those its byte gives.
    pub open spec fn wf(&self) -> bool {
        forall|i: int| 0 <= i < 4 ==> #[trigger] self.data@[i] == shade_of(palette_entry(self.raw, i))
    }

    /// All four colors white.
    pub fn new() -> (r: PaletteClassic)
        ensures
            r.raw == 0 && r.wf(),
    {
        PaletteClassic { raw: 0, data: [PaletteGrayShade::White; 4] }
    }

    /// Load the palette byte.
    pub fn set(&mut self, value: u8)
        ensures
            final(self).raw == value,
            final(self).wf(),
    {
        self.raw = value;
        self.data = [
            PaletteGrayShade::from_u8(value % 4),
            PaletteGrayShade::from_u8(value / 4 % 4),
            PaletteGrayShade::from_u8(value / 16 % 4),
            PaletteGrayShade::from_u8(value / 64 % 4),
        ];
    }

    /// The palette byte.
    pub fn raw(&self) -> (r: u8)
        ensures
            r == self.raw,
    {
        self.raw
    }

    /// The four shades, color 0 first.
    pub fn data(&self) -> (r: &[PaletteGrayShade; 4])
        ensures
            *r == self.data,
    {
        &self.data
    }

    /// The RGB value of color `index`.
    pub fn rgb(&self, index: u8) -> (r: RGB)
        requires
            index < 4,
        ensures
            r == shade_rgb(self.data@[index as int]),
    {
        self.data[index as usize].as_rgb()
    }
}

/// Packing the four shade numbers that a palette byte gives yields the byte.
pub proof fn lemma_palette_repack(p: u8)
    ensures
        palette_entry(p, 0) as nat + 4 * palette_entry(p, 1) as nat + 16 * palette_entry(p, 2) as nat
            + 64 * palette_entry(p, 3) as nat == p as nat,
        forall|i: int| 0 <= i < 4 ==> shade_number(shade_of(#[trigger] palette_entry(p, i))) == palette_entry(p, i),
{
    let n = p as int;
    assert(n == n % 4 + 4 * ((n / 4) % 4) + 16 * ((n / 16) % 4) + 64 * ((n / 64) % 4)) by (nonlinear_arith)
        requires
            0 <= n < 256,
    ;
    assert forall|i: int| 0 <= i < 4 implies shade_number(shade_of(#[trigger] palette_entry(p, i)))
        == palette_entry(p, i) by {
        assert(palette_entry(p, i) < 4);
    }
}

/// The RGB value of a 15-bit color: five bits each of red, green and blue,
/// red lowest, each scaled by 8.
pub open spec fn color_rgb(raw: u16) -> RGB {
    RGB {
        r: ((raw as nat % 32) * 8) as u8,
        g: ((raw as nat / 32 % 32) * 8) as u8,
        b: ((raw as nat / 1024 % 32) * 8) as u8,
    }
}

/// One color of a color palette, as its two raw bytes and its RGB value.
#[derive(Copy, Clone, Debug, PartialEq, Eq)]
pub struct PaletteColorValue {
    pub raw: u16,
    pub rgb: RGB,
}

impl PaletteColorValue {
    pub fn new(raw_value: u16) -> (r: PaletteColorValue)
        ensures
            r.raw == raw_value && r.rgb == color_rgb(raw_value),
    {
        PaletteColorValue { raw: raw_value, rgb: PaletteColorValue::compute_rgb(raw_value) }
    }

    pub fn set(&mut self, raw_value: u16)
        ensures
            final(self).raw == raw_value && final(self).rgb == color_rgb(raw_value),
    {
        self.raw = raw_value;
        self.rgb = PaletteColorValue::compute_rgb(raw_value);
    }

    /// Replace the low byte.
    pub fn set_low(&mut self, byte: u8)
        ensures
            final(self).raw as nat == old(self).raw as nat / 256 * 256 + byte as nat,
            final(self).rgb == color_rgb(final(self).raw),
    {
        let new_raw = self.raw / 256 * 256 + byte as u16;
        self.set(new_raw);
    }

    /// Replace the high byte.
    pub fn set_high(&mut self, byte: u8)
        ensures
            final(self).raw as nat == byte as nat * 256 + old(self).raw as nat % 256,
            final(self).rgb == color_rgb(final(self).raw),
    {
        let new_raw = byte as u16 * 256 + self.raw % 256;
        self.set(new_raw);
    }

    pub fn raw_low(&self) -> (r: u8)
        ensures
            r as nat == self.raw as nat % 256,
    {
        (self.raw % 256) as u8
    }

    pub fn raw_high(&self) -> (r: u8)
        ensures
            r as nat == self.raw as nat / 256,
    {
        (self.raw / 256) as u8
    }

    pub fn rgb(&self) -> (r: RGB)
        ensures
            r == self.rgb,
    {
        self.rgb
    }

    fn compute_rgb(raw_value: u16) -> (r: RGB)
        ensures
            r == color_rgb(raw_value),
    {
        RGB {
            r: (raw_value % 32) as u8 * 8,
            g: (raw_value / 32 % 32) as u8 * 8,
            b: (raw_value / 1024 % 32) as u8 * 8,
        }
    }
}

/// A color palette: four colors.
#[derive(Copy, Clone, Debug, PartialEq, Eq)]
pub struct PaletteColor {
    pub data: [PaletteColorValue; 4],
}

impl PaletteColor {
    /// Four black colors.
    pub fn new() -> (r: PaletteColor)
        ensures
            forall|i: int| 0 <= i < 4 ==> #[trigger] r.data@[i] == PaletteColorValue::new_spec(0),
    {
        PaletteColor { data: [PaletteColorValue::new(0); 4] }
    }

    pub fn data(&self) -> (r: &[PaletteColorValue; 4])
        ensures
            *r == self.data,
    {
        &self.data
    }

    /// Replace color `index`.
    pub fn set_color(&mut self, index: usize, value: PaletteColorValue)
        requires
            index < 4,
        ensures
            final(self).data@ == old(self).data@.update(index as int, value),
    {
        self.data[index] = value;
    }
}

impl PaletteColorValue {
    pub open spec fn new_spec(raw: u16) -> PaletteColorValue {
        PaletteColorValue { raw, rgb: color_rgb(raw) }
    }
}

} // verus!
