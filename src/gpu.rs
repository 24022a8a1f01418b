//! The picture processing unit.
use vstd::prelude::*;

pub mod cgb;
pub mod palette;
pub mod registers;
pub mod sprite;
pub mod tile;

verus! {

/// A color.
#[derive(Copy, Clone, Debug, PartialEq, Eq, Structural)]
pub struct RGB {
    pub r: u8,
    pub g: u8,
    pub b: u8,
}

impl RGB {
    pub fn new(r: u8, g: u8, b: u8) -> (c: RGB)
        ensures
            c == (RGB { r, g, b }),
    {
        RGB { r, g, b }
    }
}

/// The four modes of the picture processing unit.
#[derive(Copy, Clone, Debug, PartialEq, Eq, Structural)]
pub enum GpuMode {
    H_Blank,
    V_Blank,
    OAM_Read,
    VRAM_Read,
}

} // verus!

use crate::cpu::CycleType;
use crate::irq::MachineIrqHandler;
use crate::memory::Memory;
use self::cgb::{GpuData, BGP_DATA, BGP_INDEX, OBP_DATA, OBP_INDEX, VRAM_BANK};
use self::palette::{shade_rgb, PaletteClassic};
use self::registers::{bit_set, mode_bits};
use self::tile::{tile_pixel, Tile};

verus! {

/// The width of the screen, in pixels.
pub const SCREEN_W: usize = 160;

/// The height of the screen, in pixels.
pub const SCREEN_H: usize = 144;

/// The number of pixels on the screen.
pub const SCREEN_PIXELS: usize = 23040;

/// The number of tiles in VRAM.
pub const TILESET_SIZE: usize = 384;

/// The size of one tilemap.
pub const TILEMAP_SIZE: usize = 0x400;

/// The size of the object attribute memory.
pub const OAM_BYTES: usize = 0xA0;

pub const H_BLANK_CYCLES: CycleType = 204;
pub const V_BLANK_CYCLES: CycleType = 456;
pub const OAM_READ_CYCLES: CycleType = 80;
pub const VRAM_READ_CYCLES: CycleType = 172;

/// The machine cycles spent in a mode (per line, for V-Blank).
pub open spec fn mode_cycles(m: GpuMode) -> CycleType {
    match m {
        GpuMode::OAM_Read => 80,
        GpuMode::VRAM_Read => 172,
        GpuMode::H_Blank => 204,
        GpuMode::V_Blank => 456,
    }
}

/// The picture processing unit: registers, video memory, the line state
/// machine and the frame it draws.
pub struct Gpu {
    /// Emulate the color model's palette registers.
    pub cgb_mode: bool,
    /// The color palettes, used in color mode.
    pub cgb_data: GpuData,
    /// The current mode.
    pub mode: GpuMode,
    /// The machine cycles spent in the current mode.
    pub mode_clock: CycleType,
    /// LCD control register (LCDC).
    pub lcd_control: u8,
    /// LCD status register (STAT); bits 2-0 are read-only.
    pub lcdc_status: u8,
    /// The current line, 0 to 153; 144 and above is vertical blank.
    pub ly: u8,
    /// The line compared with LY.
    pub lyc: u8,
    pub scroll_x: u8,
    pub scroll_y: u8,
    pub window_x: u8,
    pub window_y: u8,
    /// The pixels, row by row.
    pub frame_buffer: Vec<RGB>,
    /// The background palette (BGP).
    pub bg_palette: PaletteClassic,
    /// The two sprite palettes (OBP0, OBP1).
    pub ob_palette_0: PaletteClassic,
    pub ob_palette_1: PaletteClassic,
    /// The 384 tiles of VRAM.
    pub tileset: Vec<Tile>,
    /// The two tilemaps of VRAM, one after the other.
    pub tilemaps: Vec<u8>,
    /// Object attribute memory.
    pub oam: Vec<u8>,
    /// A frame was completed and not yet taken.
    pub dirty: bool,
}

/// The tile that a tilemap entry designates: unsigned from the 0x8000 page
/// when LCDC bit 4 is set, else signed from the 0x9000 page.
pub open spec fn tile_number(control: u8, index: u8) -> int {
    if bit_set(control, 4) {
        index as int
    } else if index < 128 {
        256 + index as int
    } else {
        index as int
    }
}

/// The number of the lines of a frame.
pub open spec fn is_vblank_line(ly: u8) -> bool {
    ly >= 144
}

impl Gpu {
    /// The color number of pixel (x, y) of tile `n` (0 past the tileset).
    pub open spec fn tile_color(&self, n: int, y: int, x: int) -> u8 {
        if 0 <= n < self.tileset@.len() {
            tile_pixel(self.tileset@[n].raw_data@, y, x)
        } else {
            0
        }
    }

    /// The color number of pixel (x, y) of the 256x256 map that tilemap
    /// `map` (0 or 1) lays out.
    pub open spec fn map_index(&self, map: int, x: int, y: int) -> u8 {
        let entry = map * 0x400 + (y / 8) * 32 + x / 8;
        let index = if entry < self.tilemaps@.len() {
            self.tilemaps@[entry]
        } else {
            0
        };
        self.tile_color(tile_number(self.lcd_control, index), y % 8, x % 8)
    }

    /// The color, through the background palette, of pixel (x, y) of the
    /// map that tilemap `map` lays out.
    pub open spec fn map_color(&self, map: int, x: int, y: int) -> RGB {
        shade_rgb(self.bg_palette.data@[self.map_index(map, x, y) as int])
    }

    /// Whether the window covers column `x` of the current line.
    pub open spec fn in_window(&self, x: int) -> bool {
        bit_set(self.lcd_control, 5) && self.ly >= self.window_y && x + 7 >= self.window_x
    }

    /// The color the current line gets at column `x`, given the pixel that
    /// stood there: the background when enabled, then the window over it.
    pub open spec fn line_pixel(&self, x: int, previous: RGB) -> RGB {
        if self.in_window(x) {
            self.map_color(
                if bit_set(self.lcd_control, 6) { 1 } else { 0 },
                x + 7 - self.window_x,
                self.ly - self.window_y,
            )
        } else if bit_set(self.lcd_control, 0) {
            self.map_color(
                if bit_set(self.lcd_control, 3) { 1 } else { 0 },
                (self.scroll_x + x) % 256,
                (self.scroll_y + self.ly) % 256,
            )
        } else {
            previous
        }
    }

    /// The background or window color number at column `x` of the current
    /// line (0 where neither is drawn).
    pub open spec fn line_index(&self, x: int) -> u8 {
        if self.in_window(x) {
            self.map_index(
                if bit_set(self.lcd_control, 6) { 1 } else { 0 },
                x + 7 - self.window_x,
                self.ly - self.window_y,
            )
        } else if bit_set(self.lcd_control, 0) {
            self.map_index(
                if bit_set(self.lcd_control, 3) { 1 } else { 0 },
                (self.scroll_x + x) % 256,
                (self.scroll_y + self.ly) % 256,
            )
        } else {
            0
        }
    }

    /// Byte `i` of the object attribute memory (0 past its end).
    pub open spec fn oam_at(&self, i: int) -> u8 {
        if 0 <= i < self.oam@.len() {
            self.oam@[i]
        } else {
            0
        }
    }

    /// The height of sprites: 16 when LCDC bit 2 is set, else 8.
    pub open spec fn sprite_height(&self) -> int {
        if bit_set(self.lcd_control, 2) {
            16
        } else {
            8
        }
    }

    /// Whether sprite `k` crosses the current line (its byte 0 is the
    /// screen row plus 16).
    pub open spec fn on_line(&self, k: int) -> bool {
        let y = self.oam_at(4 * k) as int;
        y <= self.ly as int + 16 < y + self.sprite_height()
    }

    /// How many of the sprites before `k` cross the current line.
    pub open spec fn count_on_line(&self, k: int) -> nat
        decreases k,
    {
        if k <= 0 {
            0
        } else {
            self.count_on_line(k - 1) + if self.on_line(k - 1) { 1nat } else { 0nat }
        }
    }

    /// Whether sprite `k` is among the (at most ten) first sprites in OAM
    /// order that cross the current line.
    pub open spec fn selected(&self, k: int) -> bool {
        self.on_line(k) && self.count_on_line(k) < 10
    }

    /// The color number of sprite `k` at column `x` of the current line (0,
    /// transparent, where it does not cover the column), with its flips.
    pub open spec fn sprite_color(&self, k: int, x: int) -> u8 {
        let col = x + 8 - self.oam_at(4 * k + 1) as int;
        if 0 <= col < 8 {
            let flags = self.oam_at(4 * k + 3);
            let row0 = self.ly as int + 16 - self.oam_at(4 * k) as int;
            let row = if bit_set(flags, 6) { self.sprite_height() - 1 - row0 } else { row0 };
            let c = if bit_set(flags, 5) { 7 - col } else { col };
            let tile = self.oam_at(4 * k + 2) as int;
            let n = if self.sprite_height() == 16 { (tile / 2) * 2 + row / 8 } else { tile };
            self.tile_color(n, row % 8, c)
        } else {
            0
        }
    }

    /// Whether sprite `k` has priority over sprite `j`: a smaller X, or the
    /// same X and an earlier place in OAM.
    pub open spec fn beats(&self, k: int, j: int) -> bool {
        self.oam_at(4 * k + 1) < self.oam_at(4 * j + 1) || (self.oam_at(4 * k + 1) == self.oam_at(
            4 * j + 1,
        ) && k < j)
    }

    /// The selected sprite among the first `n` with the highest priority
    /// that is opaque at column `x`.
    pub open spec fn best_sprite(&self, x: int, n: int) -> Option<int>
        decreases n,
    {
        if n <= 0 {
            None
        } else {
            let b = self.best_sprite(x, n - 1);
            if self.selected(n - 1) && self.sprite_color(n - 1, x) != 0 && (b.is_none() || self.beats(
                n - 1,
                b.unwrap(),
            )) {
                Some(n - 1)
            } else {
                b
            }
        }
    }

    /// The color at column `x` once sprites are drawn over `previous`: the
    /// best opaque sprite shows, unless its priority flag puts it behind a
    /// background color other than 0.
    pub open spec fn sprite_pixel(&self, x: int, previous: RGB) -> RGB {
        if bit_set(self.lcd_control, 1) {
            match self.best_sprite(x, 40) {
                Some(k) => {
                    let flags = self.oam_at(4 * k + 3);
                    if bit_set(flags, 7) && self.line_index(x) != 0 {
                        previous
                    } else if bit_set(flags, 4) {
                        shade_rgb(self.ob_palette_1.data@[self.sprite_color(k, x) as int])
                    } else {
                        shade_rgb(self.ob_palette_0.data@[self.sprite_color(k, x) as int])
                    }
                },
                None => previous,
            }
        } else {
            previous
        }
    }

    /// The frame after the current line was drawn: background, window, then
    /// sprites.
    pub open spec fn rendered(&self) -> Seq<RGB> {
        let start = self.ly as int * 160;
        Seq::new(
            self.frame_buffer@.len(),
            |i: int|
                if start <= i < start + 160 {
                    self.sprite_pixel(i - start, self.line_pixel(i - start, self.frame_buffer@[i]))
                } else {
                    self.frame_buffer@[i]
                },
        )
    }

    /// Video memory and the frame have their sizes.
    pub open spec fn wf(&self) -> bool {
        &&& self.frame_buffer@.len() == SCREEN_PIXELS
        &&& self.tileset@.len() == TILESET_SIZE
        &&& self.tilemaps@.len() == 2 * TILEMAP_SIZE
        &&& self.oam@.len() == OAM_BYTES
    }

    /// LY is a line of the frame, and the mode is vertical blank exactly on
    /// the lines past the screen.
    pub open spec fn line_ok(&self) -> bool {
        self.ly < 154 && ((self.mode == GpuMode::V_Blank) <==> is_vblank_line(self.ly))
    }

    pub fn new(cgb_mode: bool) -> (r: Gpu)
        ensures
            r.wf(),
            r.line_ok(),
            r.mode == GpuMode::OAM_Read && r.mode_clock == 0 && r.ly == 0 && r.lyc == 0,
            r.lcd_control == 0 && !r.dirty && r.cgb_mode == cgb_mode,
    {
        let mut frame_buffer: Vec<RGB> = Vec::new();
        let mut i: usize = 0;
        while i < SCREEN_PIXELS
            invariant
                i <= SCREEN_PIXELS,
                frame_buffer@.len() == i,
            decreases SCREEN_PIXELS - i,
        {
            frame_buffer.push(RGB { r: 255, g: 255, b: 255 });
            i = i + 1;
        }
        let mut tileset: Vec<Tile> = Vec::new();
        let blank = Tile::new([0u8; 16]);
        i = 0;
        while i < TILESET_SIZE
            invariant
                i <= TILESET_SIZE,
                tileset@.len() == i,
            decreases TILESET_SIZE - i,
        {
            tileset.push(blank);
            i = i + 1;
        }
        let mut tilemaps: Vec<u8> = Vec::new();
        i = 0;
        while i < 2 * TILEMAP_SIZE
            invariant
                i <= 2 * TILEMAP_SIZE,
                tilemaps@.len() == i,
            decreases 2 * TILEMAP_SIZE - i,
        {
            tilemaps.push(0);
            i = i + 1;
        }
        let mut oam: Vec<u8> = Vec::new();
        i = 0;
        while i < OAM_BYTES
            invariant
                i <= OAM_BYTES,
                oam@.len() == i,
            decreases OAM_BYTES - i,
        {
            oam.push(0);
            i = i + 1;
        }
        Gpu {
            cgb_mode,
            cgb_data: GpuData::new(),
            mode: GpuMode::OAM_Read,
            mode_clock: 0,
            lcd_control: 0,
            lcdc_status: 0x02,
            ly: 0,
            lyc: 0,
            scroll_x: 0,
            scroll_y: 0,
            window_x: 0,
            window_y: 0,
            frame_buffer,
            bg_palette: PaletteClassic::new(),
            ob_palette_0: PaletteClassic::new(),
            ob_palette_1: PaletteClassic::new(),
            tileset,
            tilemaps,
            oam,
            dirty: false,
        }
    }

    /// The color number of pixel (x, y) of tile `n`.
    fn tile_color_at(&self, n: usize, y: usize, x: usize) -> (r: u8)
        requires
            y < 8 && x < 8,
        ensures
            r == self.tile_color(n as int, y as int, x as int),
            r < 4,
    {
        if n < self.tileset.len() {
            let raw = &self.tileset[n].raw_data;
            let lo = raw[y * 2];
            let hi = raw[y * 2 + 1];
            let s = (7 - x) as u8;
            assert((hi >> s) & 1 <= 1 && (lo >> s) & 1 <= 1) by (bit_vector);
            proof {
                assert(2 * (y as int) == (y * 2) as int);
            }
            ((hi >> s) & 1) * 2 + ((lo >> s) & 1)
        } else {
            0
        }
    }

    /// The color number of pixel (x, y) of the map that tilemap `map` lays out.
    fn map_index_at(&self, map: usize, x: usize, y: usize) -> (r: u8)
        requires
            map < 2,
            x < 256 && y < 256,
        ensures
            r == self.map_index(map as int, x as int, y as int),
            r < 4,
    {
        let entry = map * 0x400 + (y / 8) * 32 + x / 8;
        let index = if entry < self.tilemaps.len() {
            self.tilemaps[entry]
        } else {
            0
        };
        let n: usize = if (self.lcd_control >> 4u8) & 1 == 1 {
            index as usize
        } else if index < 128 {
            256 + index as usize
        } else {
            index as usize
        };
        self.tile_color_at(n, y % 8, x % 8)
    }

    /// The color of pixel (x, y) of the map that tilemap `map` lays out.
    fn map_color_at(&self, map: usize, x: usize, y: usize) -> (r: RGB)
        requires
            map < 2,
            x < 256 && y < 256,
        ensures
            r == self.map_color(map as int, x as int, y as int),
    {
        let c = self.map_index_at(map, x, y);
        self.bg_palette.rgb(c)
    }

    /// The background or window color number at column `x`.
    fn line_index_at(&self, x: usize) -> (r: u8)
        requires
            x < 160,
        ensures
            r == self.line_index(x as int),
    {
        let window = (self.lcd_control >> 5u8) & 1 == 1 && self.ly >= self.window_y && x + 7
            >= self.window_x as usize;
        proof {
            let c = self.lcd_control;
            assert((c >> 0u8) & 1 == c & 1) by (bit_vector);
        }
        if window {
            let map: usize = if (self.lcd_control >> 6u8) & 1 == 1 { 1 } else { 0 };
            self.map_index_at(map, x + 7 - self.window_x as usize, (self.ly - self.window_y) as usize)
        } else if self.lcd_control & 1 == 1 {
            let map: usize = if (self.lcd_control >> 3u8) & 1 == 1 { 1 } else { 0 };
            self.map_index_at(
                map,
                (self.scroll_x as usize + x) % 256,
                (self.scroll_y as usize + self.ly as usize) % 256,
            )
        } else {
            0
        }
    }

    fn oam_byte(&self, i: usize) -> (r: u8)
        ensures
            r == self.oam_at(i as int),
    {
        if i < self.oam.len() {
            self.oam[i]
        } else {
            0
        }
    }

    /// The color number of sprite `k`, which crosses the current line, at
    /// column `x`.
    fn sprite_color_at(&self, k: usize, x: usize) -> (r: u8)
        requires
            k < 40,
            x < 160,
            self.on_line(k as int),
        ensures
            r == self.sprite_color(k as int, x as int),
            r < 4,
    {
        let sx = self.oam_byte(4 * k + 1) as usize;
        if x + 8 < sx || x + 8 - sx >= 8 {
            return 0;
        }
        let col = x + 8 - sx;
        let flags = self.oam_byte(4 * k + 3);
        let height: usize = if (self.lcd_control >> 2u8) & 1 == 1 { 16 } else { 8 };
        let row0 = self.ly as usize + 16 - self.oam_byte(4 * k) as usize;
        let row = if (flags >> 6u8) & 1 == 1 { height - 1 - row0 } else { row0 };
        let c = if (flags >> 5u8) & 1 == 1 { 7 - col } else { col };
        let tile = self.oam_byte(4 * k + 2) as usize;
        let n = if height == 16 { (tile / 2) * 2 + row / 8 } else { tile };
        self.tile_color_at(n, row % 8, c)
    }

    /// The best opaque selected sprite at column `x`.
    fn best_sprite_at(&self, x: usize) -> (r: Option<usize>)
        requires
            x < 160,
        ensures
            match r {
                Some(k) => self.best_sprite(x as int, 40) == Some(k as int) && k < 40,
                None => self.best_sprite(x as int, 40).is_none(),
            },
    {
        let mut best: Option<usize> = None;
        let mut count: usize = 0;
        let height: usize = if (self.lcd_control >> 2u8) & 1 == 1 { 16 } else { 8 };
        let mut k: usize = 0;
        while k < 40
            invariant
                k <= 40,
                x < 160,
                height == self.sprite_height(),
                count == self.count_on_line(k as int),
                count <= k,
                match best {
                    Some(b) => self.best_sprite(x as int, k as int) == Some(b as int) && b < k,
                    None => self.best_sprite(x as int, k as int).is_none(),
                },
            decreases 40 - k,
        {
            let y = self.oam_byte(4 * k) as usize;
            let on = y <= self.ly as usize + 16 && self.ly as usize + 16 < y + height;
            if on {
                if count < 10 {
                    let c = self.sprite_color_at(k, x);
                    if c != 0 {
                        let take = match best {
                            None => true,
                            Some(b) => {
                                let kx = self.oam_byte(4 * k + 1);
                                let bx = self.oam_byte(4 * b + 1);
                                kx < bx || (kx == bx && k < b)
                            },
                        };
                        if take {
                            best = Some(k);
                        }
                    }
                }
                count = count + 1;
            }
            k = k + 1;
        }
        best
    }

    /// Draw the sprites over the color `previous` at column `x`.
    fn sprite_pixel_at(&self, x: usize, previous: RGB) -> (r: RGB)
        requires
            x < 160,
        ensures
            r == self.sprite_pixel(x as int, previous),
    {
        if (self.lcd_control >> 1u8) & 1 != 1 {
            return previous;
        }
        match self.best_sprite_at(x) {
            Some(k) => {
                proof {
                    lemma_best_is_selected(*self, x as int, 40);
                }
                let flags = self.oam_byte(4 * k + 3);
                let c = self.sprite_color_at(k, x);
                if (flags >> 7u8) & 1 == 1 && self.line_index_at(x) != 0 {
                    previous
                } else if (flags >> 4u8) & 1 == 1 {
                    self.ob_palette_1.rgb(c)
                } else {
                    self.ob_palette_0.rgb(c)
                }
            },
            None => previous,
        }
    }

    /// The color the current line gets at column `x`.
    fn line_pixel_at(&self, x: usize, previous: RGB) -> (r: RGB)
        requires
            x < 160,
        ensures
            r == self.line_pixel(x as int, previous),
    {
        let window = (self.lcd_control >> 5u8) & 1 == 1 && self.ly >= self.window_y && x + 7
            >= self.window_x as usize;
        if window {
            let map: usize = if (self.lcd_control >> 6u8) & 1 == 1 { 1 } else { 0 };
            let wx = x + 7 - self.window_x as usize;
            let wy = (self.ly - self.window_y) as usize;
            self.map_color_at(map, wx, wy)
        } else if self.lcd_control & 1 == 1 {
            proof {
                let c = self.lcd_control;
                assert((c >> 0u8) & 1 == c & 1) by (bit_vector);
            }
            let map: usize = if (self.lcd_control >> 3u8) & 1 == 1 { 1 } else { 0 };
            let bx = (self.scroll_x as usize + x) % 256;
            let by = (self.scroll_y as usize + self.ly as usize) % 256;
            self.map_color_at(map, bx, by)
        } else {
            proof {
                let c = self.lcd_control;
                assert((c >> 0u8) & 1 == c & 1) by (bit_vector);
            }
            previous
        }
    }

    /// Draw the current line into the frame.
    pub fn render_scanline(&mut self)
        ensures
            final(self).frame_buffer@ == old(self).rendered(),
            *final(self) == (Gpu { frame_buffer: final(self).frame_buffer, ..*old(self) }),
    {
        let ghost pre = *self;
        let start: usize = self.ly as usize * 160;
        let mut x: usize = 0;
        while x < 160
            invariant
                x <= 160,
                start == pre.ly as int * 160,
                *self == (Gpu { frame_buffer: self.frame_buffer, ..pre }),
                self.frame_buffer@.len() == pre.frame_buffer@.len(),
                forall|i: int|
                    0 <= i < self.frame_buffer@.len() ==> #[trigger] self.frame_buffer@[i] == if start
                        <= i < start + x {
                        pre.sprite_pixel(i - start, pre.line_pixel(i - start, pre.frame_buffer@[i]))
                    } else {
                        pre.frame_buffer@[i]
                    },
            decreases 160 - x,
        {
            let i = start + x;
            if i < self.frame_buffer.len() {
                let previous = self.frame_buffer[i];
                proof {
                    lemma_sprites_agree(*self, pre, x as int, 40);
                }
                let p = self.line_pixel_at(x, previous);
                let q = self.sprite_pixel_at(x, p);
                self.frame_buffer.set(i, q);
            }
            x = x + 1;
        }
        assert(self.frame_buffer@ =~= pre.rendered());
    }

    /// A copy of the frame.
    pub fn screen_data(&self) -> (r: Vec<RGB>)
        ensures
            r@ == self.frame_buffer@,
    {
        let mut out: Vec<RGB> = Vec::new();
        let mut i: usize = 0;
        while i < self.frame_buffer.len()
            invariant
                i <= self.frame_buffer@.len(),
                out@ == self.frame_buffer@.subrange(0, i as int),
            decreases self.frame_buffer@.len() - i,
        {
            out.push(self.frame_buffer[i]);
            i = i + 1;
            assert(out@ =~= self.frame_buffer@.subrange(0, i as int));
        }
        assert(out@ =~= self.frame_buffer@);
        out
    }
}


impl Gpu {
    /// The mode clock after `ticks` more machine cycles.
    pub open spec fn clock_after(&self, ticks: CycleType) -> int {
        if self.mode_clock as int + ticks as int > u64::MAX {
            u64::MAX as int
        } else {
            self.mode_clock as int + ticks as int
        }
    }

    /// Whether the display is on.
    pub open spec fn enabled(&self) -> bool {
        bit_set(self.lcd_control, 7)
    }

    /// Whether `ticks` more cycles end the current mode.
    pub open spec fn mode_ends(&self, ticks: CycleType) -> bool {
        self.enabled() && self.clock_after(ticks) >= mode_cycles(self.mode)
    }

    /// The line after the current mode ended.
    pub open spec fn next_ly(&self) -> u8 {
        let up = ((self.ly as nat + 1) % 256) as u8;
        match self.mode {
            GpuMode::H_Blank => up,
            GpuMode::V_Blank => if up == 154 { 0 } else { up },
            _ => self.ly,
        }
    }

    /// The mode after the current mode ended.
    pub open spec fn next_mode(&self) -> GpuMode {
        let up = ((self.ly as nat + 1) % 256) as u8;
        match self.mode {
            GpuMode::OAM_Read => GpuMode::VRAM_Read,
            GpuMode::VRAM_Read => GpuMode::H_Blank,
            GpuMode::H_Blank => if up == 144 { GpuMode::V_Blank } else { GpuMode::OAM_Read },
            GpuMode::V_Blank => if up == 154 { GpuMode::OAM_Read } else { GpuMode::V_Blank },
        }
    }

    /// Whether ending the current mode enters vertical blank.
    pub open spec fn enters_vblank(&self) -> bool {
        self.mode == GpuMode::H_Blank && self.next_mode() == GpuMode::V_Blank
    }

    /// Whether ending the current mode raises an LCD-Stat request: for the
    /// mode entered, when its STAT source is enabled, or for LY = LYC.
    pub open spec fn stat_request(&self) -> bool {
        let st = self.lcdc_status;
        let by_mode = match self.next_mode() {
            GpuMode::H_Blank => bit_set(st, 3),
            GpuMode::V_Blank => self.enters_vblank() && bit_set(st, 4),
            GpuMode::OAM_Read => self.mode != GpuMode::OAM_Read && bit_set(st, 5),
            GpuMode::VRAM_Read => false,
        };
        by_mode || (self.lyc == self.next_ly() && bit_set(st, 6))
    }

    /// The interrupt bits that ending the current mode requests.
    pub open spec fn requests(&self) -> u8 {
        ((if self.enters_vblank() { 1nat } else { 0nat }) + (if self.stat_request() { 2nat } else { 0nat })) as u8
    }

    /// Switch to a mode, reporting it in STAT.
    fn switch_mode(&mut self, new_mode: GpuMode)
        ensures
            *final(self) == (Gpu {
                mode: new_mode,
                lcdc_status: (old(self).lcdc_status & 0xFC) | mode_bits(new_mode),
                ..*old(self)
            }),
    {
        self.lcdc_status = registers::LcdControllerInterruptStatus::with_mode(self.lcdc_status, new_mode);
        self.mode = new_mode;
    }

    /// Advance by `ticks` machine cycles. When the current mode's time is
    /// up, move to the next mode (drawing the line when leaving VRAM-Read,
    /// counting lines, entering vertical blank after line 143 and leaving it
    /// after line 153), update the LY = LYC flag and raise the requests.
    /// Nothing happens while the display is off.
    /// `post` and `post_irq` are this unit and `irq` after `ticks` machine
    /// cycles, as `step` describes.
    pub open spec fn stepped_by(
        &self,
        ticks: CycleType,
        irq: MachineIrqHandler,
        post: Gpu,
        post_irq: MachineIrqHandler,
    ) -> bool {
        if !self.enabled() {
            post == *self && post_irq == irq
        } else if !self.mode_ends(ticks) {
            post == (Gpu { mode_clock: self.clock_after(ticks) as u64, ..*self }) && post_irq == irq
        } else {
            &&& post.mode == self.next_mode()
            &&& post.ly == self.next_ly()
            &&& post.mode_clock == self.clock_after(ticks) - mode_cycles(self.mode)
            &&& post.lcdc_status == (((self.lcdc_status & 0xFC) | mode_bits(self.next_mode())) & 0xFB)
                | if self.lyc == self.next_ly() { 0x04u8 } else { 0x00u8 }
            &&& post.dirty == (self.dirty || self.enters_vblank())
            &&& post.frame_buffer@ == if self.mode == GpuMode::VRAM_Read {
                self.rendered()
            } else {
                self.frame_buffer@
            }
            &&& post == (Gpu {
                mode: post.mode,
                ly: post.ly,
                mode_clock: post.mode_clock,
                lcdc_status: post.lcdc_status,
                dirty: post.dirty,
                frame_buffer: post.frame_buffer,
                ..*self
            })
            &&& post_irq == (MachineIrqHandler { if_reg: irq.if_reg | self.requests(), ..irq })
        }
    }

    pub fn step(&mut self, ticks: CycleType, irq_handler: &mut MachineIrqHandler)
        ensures
            old(self).stepped_by(ticks, *old(irq_handler), *final(self), *final(irq_handler)),
            old(self).line_ok() ==> final(self).line_ok(),
    {
        if (self.lcd_control >> 7u8) & 1 != 1 {
            return;
        }
        self.mode_clock = self.mode_clock.saturating_add(ticks);
        let len: CycleType = match self.mode {
            GpuMode::OAM_Read => OAM_READ_CYCLES,
            GpuMode::VRAM_Read => VRAM_READ_CYCLES,
            GpuMode::H_Blank => H_BLANK_CYCLES,
            GpuMode::V_Blank => V_BLANK_CYCLES,
        };
        if self.mode_clock < len {
            return;
        }
        let ghost pre = *old(self);
        self.mode_clock = self.mode_clock - len;
        let st = self.lcdc_status;
        let mut vblank = false;
        let mut stat = false;
        match self.mode {
            GpuMode::OAM_Read => {
                self.switch_mode(GpuMode::VRAM_Read);
            },
            GpuMode::VRAM_Read => {
                let ghost mid = *self;
                self.render_scanline();
                proof {
                    assert(mid == (Gpu { mode_clock: mid.mode_clock, ..pre }));
                    assert forall|i: int| 0 <= i < self.frame_buffer@.len() implies self.frame_buffer@[i]
                        == pre.rendered()[i] by {
                        let start = pre.ly as int * 160;
                        if start <= i < start + 160 {
                            assert(mid.line_pixel(i - start, mid.frame_buffer@[i]) == pre.line_pixel(i - start, pre.frame_buffer@[i]));
                            lemma_sprites_agree(mid, pre, i - start, 40);
                            assert(mid.sprite_pixel(i - start, mid.line_pixel(i - start, mid.frame_buffer@[i]))
                                == pre.sprite_pixel(i - start, pre.line_pixel(i - start, pre.frame_buffer@[i])));
                        }
                    }
                    assert(self.frame_buffer@ =~= pre.rendered());
                }
                self.switch_mode(GpuMode::H_Blank);
                stat = (st >> 3u8) & 1 == 1;
            },
            GpuMode::H_Blank => {
                self.ly = self.ly.wrapping_add(1);
                if self.ly == 144 {
                    self.switch_mode(GpuMode::V_Blank);
                    self.dirty = true;
                    vblank = true;
                    stat = (st >> 4u8) & 1 == 1;
                } else {
                    self.switch_mode(GpuMode::OAM_Read);
                    stat = (st >> 5u8) & 1 == 1;
                }
            },
            GpuMode::V_Blank => {
                self.ly = self.ly.wrapping_add(1);
                if self.ly == 154 {
                    self.ly = 0;
                    self.switch_mode(GpuMode::OAM_Read);
                    stat = (st >> 5u8) & 1 == 1;
                } else {
                    self.switch_mode(GpuMode::V_Blank);
                }
            },
        }
        let coincidence = self.lyc == self.ly;
        self.lcdc_status = registers::LcdControllerInterruptStatus::with_coincidence_flag(
            self.lcdc_status,
            coincidence,
        );
        if coincidence && (st >> 6u8) & 1 == 1 {
            stat = true;
        }
        let requests: u8 = if vblank { 1 } else { 0 } + if stat { 2 } else { 0 };
        irq_handler.if_reg = irq_handler.if_reg | requests;
    }
}


impl Gpu {
    /// Whether `address` is a color palette register that color mode handles.
    pub open spec fn is_cgb_register(&self, address: u16) -> bool {
        self.cgb_mode && (address == VRAM_BANK || address == BGP_INDEX || address == BGP_DATA
            || address == OBP_INDEX || address == OBP_DATA)
    }
}

/// The byte of color palette data that a read returns.
pub open spec fn cgb_read(d: GpuData, address: u16) -> u8 {
    if address == VRAM_BANK {
        d.vram_bank_selector
    } else if address == BGP_INDEX {
        d.bg_palette_index.raw_value
    } else if address == BGP_DATA {
        if d.bg_palette_index.palette_index < 8 && d.bg_palette_index.palette_color_number < 4 {
            cgb::selected_byte(
                d.bg_palettes@[d.bg_palette_index.palette_index as int].data@[d.bg_palette_index.palette_color_number as int],
                d.bg_palette_index.high_byte,
            )
        } else {
            0
        }
    } else if address == OBP_INDEX {
        d.ob_palette_index.raw_value
    } else {
        if d.ob_palette_index.palette_index < 8 && d.ob_palette_index.palette_color_number < 4 {
            cgb::selected_byte(
                d.ob_palettes@[d.ob_palette_index.palette_index as int].data@[d.ob_palette_index.palette_color_number as int],
                d.ob_palette_index.high_byte,
            )
        } else {
            0
        }
    }
}

/// `post` is the color palette state after a write of `byte` at `address`.
pub open spec fn cgb_written(d: GpuData, address: u16, byte: u8, post: GpuData) -> bool {
    if address == VRAM_BANK {
        post == GpuData { vram_bank_selector: byte, ..d }
    } else if address == BGP_INDEX {
        post.bg_palette_index.decodes(byte) && post == GpuData { bg_palette_index: post.bg_palette_index, ..d }
    } else if address == BGP_DATA {
        if d.bg_palette_index.palette_index < 8 && d.bg_palette_index.palette_color_number < 4 {
            d.bg_written(byte, post)
        } else {
            post == d
        }
    } else if address == OBP_INDEX {
        post.ob_palette_index.decodes(byte) && post == GpuData { ob_palette_index: post.ob_palette_index, ..d }
    } else {
        if d.ob_palette_index.palette_index < 8 && d.ob_palette_index.palette_color_number < 4 {
            d.ob_written(byte, post)
        } else {
            post == d
        }
    }
}

impl Memory for Gpu {
    open spec fn read_value(&self, address: u16) -> u8 {
        let a = address as int;
        if self.is_cgb_register(address) {
            cgb_read(self.cgb_data, address)
        } else if 0x8000 <= a < 0x9800 {
            let t = (a - 0x8000) / 16;
            if t < self.tileset@.len() {
                self.tileset@[t].raw_data@[(a - 0x8000) % 16]
            } else {
                0
            }
        } else if 0x9800 <= a < 0xA000 {
            if a - 0x9800 < self.tilemaps@.len() {
                self.tilemaps@[a - 0x9800]
            } else {
                0
            }
        } else if 0xFE00 <= a < 0xFEA0 {
            if a - 0xFE00 < self.oam@.len() {
                self.oam@[a - 0xFE00]
            } else {
                0
            }
        } else if address == registers::CONTROL {
            self.lcd_control
        } else if address == registers::STAT {
            self.lcdc_status
        } else if address == registers::SCY {
            self.scroll_y
        } else if address == registers::SCX {
            self.scroll_x
        } else if address == registers::LY {
            self.ly
        } else if address == registers::LYC {
            self.lyc
        } else if address == registers::BGP {
            self.bg_palette.raw
        } else if address == registers::OBP_0 {
            self.ob_palette_0.raw
        } else if address == registers::OBP_1 {
            self.ob_palette_1.raw
        } else if address == registers::WY {
            self.window_y
        } else if address == registers::WX {
            self.window_x
        } else {
            0
        }
    }

    open spec fn written(&self, address: u16, byte: u8, post: Gpu) -> bool {
        let a = address as int;
        if self.is_cgb_register(address) {
            cgb_written(self.cgb_data, address, byte, post.cgb_data) && post == Gpu {
                cgb_data: post.cgb_data,
                ..*self
            }
        } else if 0x8000 <= a < 0x9800 {
            let t = (a - 0x8000) / 16;
            if t < self.tileset@.len() {
                &&& post == Gpu { tileset: post.tileset, ..*self }
                &&& post.tileset@.len() == self.tileset@.len()
                &&& forall|k: int| 0 <= k < self.tileset@.len() && k != t ==> #[trigger] post.tileset@[k] == self.tileset@[k]
                &&& post.tileset@[t].raw_data@ == self.tileset@[t].raw_data@.update((a - 0x8000) % 16, byte)
                &&& post.tileset@[t].wf()
            } else {
                post == *self
            }
        } else if 0x9800 <= a < 0xA000 {
            post == Gpu { tilemaps: post.tilemaps, ..*self } && post.tilemaps@ == if a - 0x9800
                < self.tilemaps@.len() {
                self.tilemaps@.update(a - 0x9800, byte)
            } else {
                self.tilemaps@
            }
        } else if 0xFE00 <= a < 0xFEA0 {
            post == Gpu { oam: post.oam, ..*self } && post.oam@ == if a - 0xFE00 < self.oam@.len() {
                self.oam@.update(a - 0xFE00, byte)
            } else {
                self.oam@
            }
        } else if address == registers::CONTROL {
            post == Gpu { lcd_control: byte, ..*self }
        } else if address == registers::STAT {
            post == Gpu { lcdc_status: (byte & 0xF8) | (self.lcdc_status & 0x07), ..*self }
        } else if address == registers::SCY {
            post == Gpu { scroll_y: byte, ..*self }
        } else if address == registers::SCX {
            post == Gpu { scroll_x: byte, ..*self }
        } else if address == registers::LY {
            post == Gpu { ly: 0, ..*self }
        } else if address == registers::LYC {
            post == Gpu { lyc: byte, ..*self }
        } else if address == registers::BGP {
            post == Gpu { bg_palette: post.bg_palette, ..*self } && post.bg_palette.raw == byte
                && post.bg_palette.wf()
        } else if address == registers::OBP_0 {
            post == Gpu { ob_palette_0: post.ob_palette_0, ..*self } && post.ob_palette_0.raw == byte
                && post.ob_palette_0.wf()
        } else if address == registers::OBP_1 {
            post == Gpu { ob_palette_1: post.ob_palette_1, ..*self } && post.ob_palette_1.raw == byte
                && post.ob_palette_1.wf()
        } else if address == registers::WY {
            post == Gpu { window_y: byte, ..*self }
        } else if address == registers::WX {
            post == Gpu { window_x: byte, ..*self }
        } else {
            post == *self
        }
    }

    fn read_byte(&mut self, address: u16) -> (r: u8) {
        if self.cgb_mode {
            let d = &self.cgb_data;
            if address == VRAM_BANK {
                return d.vram_bank_selector;
            } else if address == BGP_INDEX {
                return d.bg_palette_index.raw_value();
            } else if address == BGP_DATA {
                if d.bg_palette_index.index() < 8 && d.bg_palette_index.color_index() < 4 {
                    return d.get_bg_color();
                }
                return 0;
            } else if address == OBP_INDEX {
                return d.ob_palette_index.raw_value();
            } else if address == OBP_DATA {
                if d.ob_palette_index.index() < 8 && d.ob_palette_index.color_index() < 4 {
                    return d.get_ob_color();
                }
                return 0;
            }
        }
        if 0x8000 <= address && address < 0x9800 {
            let t = ((address - 0x8000) / 16) as usize;
            if t < self.tileset.len() {
                self.tileset[t].raw_byte(((address - 0x8000) % 16) as usize)
            } else {
                0
            }
        } else if 0x9800 <= address && address < 0xA000 {
            let i = (address - 0x9800) as usize;
            if i < self.tilemaps.len() {
                self.tilemaps[i]
            } else {
                0
            }
        } else if 0xFE00 <= address && address < 0xFEA0 {
            let i = (address - 0xFE00) as usize;
            if i < self.oam.len() {
                self.oam[i]
            } else {
                0
            }
        } else if address == registers::CONTROL {
            self.lcd_control
        } else if address == registers::STAT {
            self.lcdc_status
        } else if address == registers::SCY {
            self.scroll_y
        } else if address == registers::SCX {
            self.scroll_x
        } else if address == registers::LY {
            self.ly
        } else if address == registers::LYC {
            self.lyc
        } else if address == registers::BGP {
            self.bg_palette.raw()
        } else if address == registers::OBP_0 {
            self.ob_palette_0.raw()
        } else if address == registers::OBP_1 {
            self.ob_palette_1.raw()
        } else if address == registers::WY {
            self.window_y
        } else if address == registers::WX {
            self.window_x
        } else {
            0
        }
    }

    fn write_byte(&mut self, address: u16, byte: u8) {
        if self.cgb_mode {
            if address == VRAM_BANK {
                self.cgb_data.vram_bank_selector = byte;
                return;
            } else if address == BGP_INDEX {
                self.cgb_data.bg_palette_index.update_with(byte);
                return;
            } else if address == BGP_DATA {
                if self.cgb_data.bg_palette_index.index() < 8 && self.cgb_data.bg_palette_index.color_index() < 4 {
                    self.cgb_data.set_bg_color(byte);
                }
                return;
            } else if address == OBP_INDEX {
                self.cgb_data.ob_palette_index.update_with(byte);
                return;
            } else if address == OBP_DATA {
                if self.cgb_data.ob_palette_index.index() < 8 && self.cgb_data.ob_palette_index.color_index() < 4 {
                    self.cgb_data.set_ob_color(byte);
                }
                return;
            }
        }
        if 0x8000 <= address && address < 0x9800 {
            let t = ((address - 0x8000) / 16) as usize;
            if t < self.tileset.len() {
                let mut tile = self.tileset[t];
                tile.update_raw_byte(((address - 0x8000) % 16) as usize, byte);
                self.tileset.set(t, tile);
            }
        } else if 0x9800 <= address && address < 0xA000 {
            let i = (address - 0x9800) as usize;
            if i < self.tilemaps.len() {
                self.tilemaps.set(i, byte);
            }
        } else if 0xFE00 <= address && address < 0xFEA0 {
            let i = (address - 0xFE00) as usize;
            if i < self.oam.len() {
                self.oam.set(i, byte);
            }
        } else if address == registers::CONTROL {
            self.lcd_control = byte;
        } else if address == registers::STAT {
            self.lcdc_status = (byte & 0xF8) | (self.lcdc_status & 0x07);
        } else if address == registers::SCY {
            self.scroll_y = byte;
        } else if address == registers::SCX {
            self.scroll_x = byte;
        } else if address == registers::LY {
            self.ly = 0;
        } else if address == registers::LYC {
            self.lyc = byte;
        } else if address == registers::BGP {
            self.bg_palette.set(byte);
        } else if address == registers::OBP_0 {
            self.ob_palette_0.set(byte);
        } else if address == registers::OBP_1 {
            self.ob_palette_1.set(byte);
        } else if address == registers::WY {
            self.window_y = byte;
        } else if address == registers::WX {
            self.window_x = byte;
        }
    }
}


/// The V-Blank request is raised exactly when a step ends the H-Blank of
/// line 143, that is once per frame, on the step that enters line 144.
pub proof fn lemma_vblank_request(g: Gpu)
    ensures
        (g.requests() & 0x01 == 0x01) == g.enters_vblank(),
        g.enters_vblank() == (g.mode == GpuMode::H_Blank && g.ly == 143),
{
    let v = g.enters_vblank();
    let st = g.stat_request();
    let x = g.requests();
    assert(x == ((if v { 1nat } else { 0nat }) + (if st { 2nat } else { 0nat })) as u8);
    assert((0u8 & 1) == 0 && (1u8 & 1) == 1 && (2u8 & 1) == 0 && (3u8 & 1) == 1) by (bit_vector);
}


/// Two states with the same OAM, line, control and tiles choose the same
/// sprites.
proof fn lemma_sprites_agree(g1: Gpu, g2: Gpu, x: int, n: int)
    requires
        g1.oam@ == g2.oam@,
        g1.ly == g2.ly,
        g1.lcd_control == g2.lcd_control,
        g1.tileset@ == g2.tileset@,
    ensures
        g1.best_sprite(x, n) == g2.best_sprite(x, n),
        g1.count_on_line(n) == g2.count_on_line(n),
    decreases n,
{
    if n > 0 {
        lemma_sprites_agree(g1, g2, x, n - 1);
        assert(g1.sprite_color(n - 1, x) == g2.sprite_color(n - 1, x));
    }
}

/// The chosen sprite is one of the candidates: selected and opaque there.
proof fn lemma_best_is_selected(g: Gpu, x: int, n: int)
    ensures
        match g.best_sprite(x, n) {
            Some(k) => 0 <= k < n && g.selected(k) && g.sprite_color(k, x) != 0,
            None => true,
        },
    decreases n,
{
    if n > 0 {
        lemma_best_is_selected(g, x, n - 1);
    }
}


/// The position of the unit within a frame, in machine cycles from the
/// start of line 0.
pub open spec fn frame_pos(g: Gpu) -> int {
    g.ly as int * 456 + match g.mode {
        GpuMode::OAM_Read => 0int,
        GpuMode::VRAM_Read => 80int,
        GpuMode::H_Blank => 252int,
        GpuMode::V_Blank => 0int,
    } + g.mode_clock as int
}

/// The line state is consistent and the mode's time is not yet up.
pub open spec fn timing_ok(g: Gpu) -> bool {
    g.line_ok() && g.mode_clock < mode_cycles(g.mode)
}

/// Whether a step of `t` cycles from `g` raises the V-Blank request.
pub open spec fn vblank_step(g: Gpu, t: CycleType) -> bool {
    g.mode_ends(t) && g.enters_vblank()
}

/// A step of at most 80 cycles moves the frame position by exactly its
/// cycles (modulo a frame), and requests V-Blank exactly when it crosses
/// the start of line 144.
proof fn lemma_step_advances(g: Gpu, t: CycleType, irq: MachineIrqHandler, post: Gpu, post_irq: MachineIrqHandler)
    requires
        timing_ok(g),
        g.enabled(),
        t <= 80,
        g.stepped_by(t, irq, post, post_irq),
    ensures
        timing_ok(post),
        post.lcd_control == g.lcd_control,
        0 <= frame_pos(g) < 70224,
        frame_pos(post) == (frame_pos(g) + t) % 70224,
        vblank_step(g, t) == (frame_pos(g) < 65664 <= frame_pos(g) + t),
{
}

/// Counts the steps of a run that raise the V-Blank request.
pub open spec fn vblank_count(gs: Seq<Gpu>, ts: Seq<CycleType>) -> nat
    decreases ts.len(),
{
    if ts.len() == 0 {
        0
    } else {
        vblank_count(gs, ts.drop_last()) + if vblank_step(gs[ts.len() - 1], ts.last()) { 1nat } else { 0nat }
    }
}

proof fn lemma_total_prefix(ts: Seq<CycleType>, m: int)
    requires
        0 <= m <= ts.len(),
    ensures
        crate::emulator::total(ts.take(m)) <= crate::emulator::total(ts),
        0 <= crate::emulator::total(ts.take(m)),
    decreases ts.len(),
{
    if m == ts.len() {
        assert(ts.take(m) =~= ts);
        lemma_total_nonneg(ts);
    } else {
        assert(ts.drop_last().take(m) =~= ts.take(m));
        lemma_total_prefix(ts.drop_last(), m);
    }
}

proof fn lemma_total_nonneg(ts: Seq<CycleType>)
    ensures
        crate::emulator::total(ts) >= 0,
    decreases ts.len(),
{
    if ts.len() > 0 {
        lemma_total_nonneg(ts.drop_last());
    }
}

proof fn lemma_count_prefix(gs: Seq<Gpu>, ts: Seq<CycleType>, m: int)
    requires
        0 <= m < ts.len(),
    ensures
        vblank_count(gs, ts.take(m + 1)) == vblank_count(gs, ts.take(m)) + if vblank_step(gs[m], ts[m]) {
            1nat
        } else {
            0nat
        },
        crate::emulator::total(ts.take(m + 1)) == crate::emulator::total(ts.take(m)) + ts[m],
{
    assert(ts.take(m + 1).drop_last() =~= ts.take(m));
}

/// A frame: starting at line 0 in OAM-Read with the mode clock at zero and
/// the display on, steps of at most 80 machine cycles that add up to 70224
/// raise the V-Blank request exactly once and end at line 0 in OAM-Read
/// with the mode clock at zero, the completed frame marked for the bus to
/// hand out (each counted step sets bit 0 of the requests, see
/// `lemma_vblank_request`).
pub proof fn lemma_frame(gs: Seq<Gpu>, ts: Seq<CycleType>, irqs: Seq<MachineIrqHandler>)
    requires
        gs.len() == ts.len() + 1,
        irqs.len() == gs.len(),
        gs[0].enabled(),
        gs[0].ly == 0 && gs[0].mode == GpuMode::OAM_Read && gs[0].mode_clock == 0,
        forall|k: int| 0 <= k < ts.len() ==> #[trigger] ts[k] <= 80,
        forall|k: int| 0 <= k < ts.len() ==> #[trigger] gs[k].stepped_by(ts[k], irqs[k], gs[k + 1], irqs[k + 1]),
        crate::emulator::total(ts) == 70224,
    ensures
        vblank_count(gs, ts) == 1,
        gs.last().ly == 0 && gs.last().mode == GpuMode::OAM_Read && gs.last().mode_clock == 0,
        gs.last().dirty,
{
    let n = ts.len() as int;
    lemma_frame_prefix(gs, ts, irqs, n);
    assert(ts.take(n) =~= ts);
}

/// The run so far: after `m` steps the timing is consistent, the frame
/// position is the cycles run so far, and V-Blank was requested once if
/// they reached line 144.
proof fn lemma_frame_prefix(gs: Seq<Gpu>, ts: Seq<CycleType>, irqs: Seq<MachineIrqHandler>, m: int)
    requires
        0 <= m <= ts.len(),
        gs.len() == ts.len() + 1,
        irqs.len() == gs.len(),
        gs[0].enabled(),
        gs[0].ly == 0 && gs[0].mode == GpuMode::OAM_Read && gs[0].mode_clock == 0,
        forall|k: int| 0 <= k < ts.len() ==> #[trigger] ts[k] <= 80,
        forall|k: int| 0 <= k < ts.len() ==> #[trigger] gs[k].stepped_by(ts[k], irqs[k], gs[k + 1], irqs[k + 1]),
        crate::emulator::total(ts) == 70224,
    ensures
        timing_ok(gs[m]),
        gs[m].lcd_control == gs[0].lcd_control,
        crate::emulator::total(ts.take(m)) <= 70224,
        frame_pos(gs[m]) == crate::emulator::total(ts.take(m)) % 70224,
        vblank_count(gs, ts.take(m)) == if crate::emulator::total(ts.take(m)) >= 65664 { 1nat } else { 0nat },
        gs[m].dirty == (gs[0].dirty || vblank_count(gs, ts.take(m)) > 0),
    decreases m,
{
    if m == 0 {
        assert(ts.take(0) =~= Seq::<CycleType>::empty());
    } else {
        lemma_frame_prefix(gs, ts, irqs, m - 1);
        let k = m - 1;
        assert(gs[k].stepped_by(ts[k], irqs[k], gs[k + 1], irqs[k + 1]));
        assert(ts[k] <= 80);
        lemma_step_advances(gs[m - 1], ts[m - 1], irqs[m - 1], gs[m], irqs[m]);
        lemma_count_prefix(gs, ts, m - 1);
        lemma_total_prefix(ts, m);
    }
}

} // verus!
