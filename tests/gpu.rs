#![allow(non_snake_case)]

use rustboylib::gpu::cgb::PaletteIndexRegister;
use rustboylib::gpu::palette::PaletteGrayShade::{Dark, DarkGray, LightGray, White};
use rustboylib::gpu::palette::{PaletteClassic, PaletteColorValue};
use rustboylib::gpu::registers::LcdControl::{
    BgDisplayEnable, BgTileMapDisplaySelect, BgWindowTileDataSelect, LcdDisplayEnable, ObjDisplayEnable,
    ObjSize, WindowDisplayEnable, WindowTileMapDisplaySelect,
};
use rustboylib::gpu::registers::LcdControllerInterruptStatus;
use rustboylib::gpu::registers::LcdControllerInterruptStatus::{HBlank, LyCoincidence, Oam, VBlank};
use rustboylib::gpu::tile::Tile;
use rustboylib::gpu::GpuMode::{H_Blank, OAM_Read, VRAM_Read, V_Blank};
use rustboylib::gpu::{Gpu, GpuMode, RGB};
use rustboylib::irq::MachineIrqHandler;
use rustboylib::memory::Memory;

const TILE_EXAMPLE: [u8; 16] = [
    0x7C, 0x7C, 0x00, 0xC6, 0xC6, 0x00, 0x00, 0xFE, 0xC6, 0xC6, 0x00, 0xC6, 0xC6, 0x00, 0x00, 0x00,
];

const TILE_EXAMPLE_COLORS: [[u8; 8]; 8] = [
    [0, 3, 3, 3, 3, 3, 0, 0],
    [2, 2, 0, 0, 0, 2, 2, 0],
    [1, 1, 0, 0, 0, 1, 1, 0],
    [2, 2, 2, 2, 2, 2, 2, 0],
    [3, 3, 0, 0, 0, 3, 3, 0],
    [2, 2, 0, 0, 0, 2, 2, 0],
    [1, 1, 0, 0, 0, 1, 1, 0],
    [0, 0, 0, 0, 0, 0, 0, 0],
];

#[test]
fn test_tile_update() {
    let tile = Tile::new(TILE_EXAMPLE);
    let data = tile.data();
    for (y, line) in data.iter().enumerate() {
        for (x, color_value) in line.iter().enumerate() {
            assert_eq!(*color_value, TILE_EXAMPLE_COLORS[y][x]);
        }
    }
}

#[test]
fn test_tile_cache() {
    let tile = Tile::new(TILE_EXAMPLE);
    let data = tile.data();
    for (y, line) in data.iter().enumerate() {
        for (x, color_value) in line.iter().enumerate() {
            assert_eq!(*color_value, TILE_EXAMPLE_COLORS[y][x]);
        }
    }
}

#[test]
fn tile_raw_bytes_round_trip() {
    let mut tile = Tile::new([0; 16]);
    for i in 0..16 {
        tile.update_raw_byte(i, TILE_EXAMPLE[i]);
    }
    assert_eq!(tile.data(), &TILE_EXAMPLE_COLORS);
    // encoding the decoded rows again gives the raw bytes
    for y in 0..8 {
        let mut lo = 0u8;
        let mut hi = 0u8;
        for x in 0..8 {
            let c = tile.data()[y][x];
            lo |= (c & 1) << (7 - x);
            hi |= (c >> 1) << (7 - x);
        }
        assert_eq!(lo, tile.raw_byte(2 * y));
        assert_eq!(hi, tile.raw_byte(2 * y + 1));
    }
}

#[test]
fn test_PaletteIndexRegister_decoding() {
    let index = PaletteIndexRegister::new(0xAD);
    assert_eq!(index.raw_value(), 0xAD);
    assert_eq!(index.high_byte(), true);
    assert_eq!(index.color_index(), 2);
    assert_eq!(index.index(), 5);
}

#[test]
fn palette_index_auto_increment_wraps() {
    let mut index = PaletteIndexRegister::new(0xBF);
    index.auto_increment();
    assert_eq!(index.raw_value(), 0x80);
    let mut index = PaletteIndexRegister::new(0x05);
    index.auto_increment();
    assert_eq!(index.raw_value(), 0x05);
}

#[test]
fn test_palette_gray_shade_values() {
    assert_eq!(White as u8, 0b00);
    assert_eq!(LightGray as u8, 0b01);
    assert_eq!(DarkGray as u8, 0b10);
    assert_eq!(Dark as u8, 0b11);
}

#[test]
fn test_palette_gray_shade_to_rgb() {
    assert_eq!(White.as_rgb(), RGB::new(255, 255, 255));
    assert_eq!(LightGray.as_rgb(), RGB::new(192, 192, 192));
    assert_eq!(DarkGray.as_rgb(), RGB::new(96, 96, 96));
    assert_eq!(Dark.as_rgb(), RGB::new(0, 0, 0));
}

#[test]
fn test_palette_classic() {
    let mut palette = PaletteClassic::new();
    palette.set(0b_1011_0001);
    let colors = palette.data();
    assert_eq!(palette.raw(), 0b_1011_0001);
    assert_eq!(colors[0], LightGray);
    assert_eq!(colors[1], White);
    assert_eq!(colors[2], Dark);
    assert_eq!(colors[3], DarkGray);
}

#[test]
fn palette_set_then_raw_returns_byte() {
    let mut palette = PaletteClassic::new();
    for p in 0..=255u8 {
        palette.set(p);
        assert_eq!(palette.raw(), p);
    }
}

#[test]
fn test_palette_color_value() {
    let mut color = PaletteColorValue::new(0x0000);
    assert_eq!(color.raw_low(), 0x00);
    assert_eq!(color.raw_high(), 0x00);
    assert_eq!(color.rgb().r, 0);
    assert_eq!(color.rgb().g, 0);
    assert_eq!(color.rgb().b, 0);
    color.set(0xF7A9);
    assert_eq!(color.raw_low(), 0xA9);
    assert_eq!(color.raw_high(), 0xF7);
    assert_eq!(color.rgb().r, 72);
    assert_eq!(color.rgb().g, 232);
    assert_eq!(color.rgb().b, 232);
    color.set_high(0x38);
    color.set_low(0xB2);
    assert_eq!(color.raw_high(), 0x38);
    assert_eq!(color.raw_low(), 0xB2);
    assert_eq!(color.rgb().r, 144);
    assert_eq!(color.rgb().g, 40);
    assert_eq!(color.rgb().b, 112);
}

#[test]
fn test_lcd_control_is_set() {
    assert!(BgDisplayEnable.is_set(1 << 0));
    assert!(ObjDisplayEnable.is_set(1 << 1));
    assert!(ObjSize.is_set(1 << 2));
    assert!(BgTileMapDisplaySelect.is_set(1 << 3));
    assert!(BgWindowTileDataSelect.is_set(1 << 4));
    assert!(WindowDisplayEnable.is_set(1 << 5));
    assert!(WindowTileMapDisplaySelect.is_set(1 << 6));
    assert!(LcdDisplayEnable.is_set(1 << 7));
}

#[test]
fn test_lcdc_status_is_set() {
    assert!(HBlank.is_set(1 << 3));
    assert!(VBlank.is_set(1 << 4));
    assert!(Oam.is_set(1 << 5));
    assert!(LyCoincidence.is_set(1 << 6));
}

#[test]
fn test_lcdc_status_with_mode() {
    let lcdc_status = 0b_0110_1011;
    assert_eq!(LcdControllerInterruptStatus::with_mode(lcdc_status, H_Blank), 0b_0110_1000);
    assert_eq!(LcdControllerInterruptStatus::with_mode(lcdc_status, V_Blank), 0b_0110_1001);
    assert_eq!(LcdControllerInterruptStatus::with_mode(lcdc_status, OAM_Read), 0b_0110_1010);
    assert_eq!(LcdControllerInterruptStatus::with_mode(lcdc_status, VRAM_Read), 0b_0110_1011);
}

#[test]
fn test_lcdc_status_with_coincidence_flag() {
    assert_eq!(
        LcdControllerInterruptStatus::with_coincidence_flag(0b_1011_0011, true),
        0b_1011_0111
    );
    assert_eq!(
        LcdControllerInterruptStatus::with_coincidence_flag(0b_1011_0111, false),
        0b_1011_0011
    );
}

#[test]
fn gpu_frame_has_one_vblank_and_keeps_ly_in_range() {
    let mut gpu = Gpu::new(false);
    let mut irq = MachineIrqHandler::new();
    gpu.write_byte(0xFF40, 0x80);
    let mut vblanks = 0;
    let mut total = 0u64;
    while total < 70224 {
        gpu.step(4, &mut irq);
        total += 4;
        if irq.if_reg & 0x01 != 0 {
            vblanks += 1;
            irq.if_reg = 0;
        }
        assert!(gpu.ly < 154);
        assert_eq!(gpu.mode == GpuMode::V_Blank, gpu.ly >= 144);
    }
    assert_eq!(vblanks, 1);
    assert_eq!(gpu.ly, 0);
    assert!(gpu.dirty);
}

#[test]
fn gpu_display_off_does_nothing() {
    let mut gpu = Gpu::new(false);
    let mut irq = MachineIrqHandler::new();
    gpu.step(1000, &mut irq);
    assert_eq!(gpu.ly, 0);
    assert_eq!(gpu.mode_clock, 0);
}

#[test]
fn gpu_registers_read_back() {
    let mut gpu = Gpu::new(false);
    gpu.write_byte(0xFF42, 0x12);
    gpu.write_byte(0xFF43, 0x34);
    gpu.write_byte(0xFF47, 0xE4);
    gpu.write_byte(0x8010, 0xAB);
    gpu.write_byte(0x9C05, 0x07);
    gpu.write_byte(0xFE03, 0x99);
    assert_eq!(gpu.read_byte(0xFF42), 0x12);
    assert_eq!(gpu.read_byte(0xFF43), 0x34);
    assert_eq!(gpu.read_byte(0xFF47), 0xE4);
    assert_eq!(gpu.read_byte(0x8010), 0xAB);
    assert_eq!(gpu.read_byte(0x9C05), 0x07);
    assert_eq!(gpu.read_byte(0xFE03), 0x99);
    // STAT keeps its three read-only bits; LY is reset by any write
    gpu.write_byte(0xFF41, 0xFF);
    assert_eq!(gpu.read_byte(0xFF41), 0xF8 | 0x02);
    gpu.write_byte(0xFF44, 0x55);
    assert_eq!(gpu.read_byte(0xFF44), 0);
}

#[test]
fn gpu_renders_background_line() {
    let mut gpu = Gpu::new(false);
    let mut irq = MachineIrqHandler::new();
    // tile 1 is all color 3, tile map 0 entry 0 points at it; palette identity
    for i in 0..16 {
        gpu.write_byte(0x8010 + i, 0xFF);
    }
    gpu.write_byte(0x9800, 0x01);
    gpu.write_byte(0xFF47, 0xE4);
    gpu.write_byte(0xFF40, 0x91);
    gpu.step(80, &mut irq);
    gpu.step(172, &mut irq);
    assert_eq!(gpu.mode, GpuMode::H_Blank);
    let frame = gpu.screen_data();
    assert_eq!(frame[0], RGB::new(0, 0, 0));
    assert_eq!(frame[7], RGB::new(0, 0, 0));
    assert_eq!(frame[8], RGB::new(255, 255, 255));
    assert_eq!(frame[160], RGB::new(255, 255, 255));
}

#[test]
fn cgb_palette_data_round_trip() {
    let mut gpu = Gpu::new(true);
    gpu.write_byte(0xFF68, 0x80 | 0x08);
    gpu.write_byte(0xFF69, 0x1F);
    gpu.write_byte(0xFF69, 0x7C);
    gpu.write_byte(0xFF68, 0x08);
    assert_eq!(gpu.read_byte(0xFF69), 0x1F);
    gpu.write_byte(0xFF68, 0x09);
    assert_eq!(gpu.read_byte(0xFF69), 0x7C);
}

/// Run the unit from the start of line 0 until the line is drawn.
fn draw_first_line(gpu: &mut Gpu) -> Vec<RGB> {
    let mut irq = MachineIrqHandler::new();
    gpu.step(80, &mut irq);
    gpu.step(172, &mut irq);
    gpu.screen_data()
}

#[test]
fn gpu_draws_sprite_over_background() {
    let mut gpu = Gpu::new(false);
    // tile 2: every pixel color 1
    for row in 0..8u16 {
        gpu.write_byte(0x8020 + 2 * row, 0xFF);
        gpu.write_byte(0x8021 + 2 * row, 0x00);
    }
    // sprite 0 at screen (0, 0) with tile 2
    gpu.write_byte(0xFE00, 16);
    gpu.write_byte(0xFE01, 8);
    gpu.write_byte(0xFE02, 2);
    gpu.write_byte(0xFE03, 0x00);
    gpu.write_byte(0xFF48, 0xE4);
    gpu.write_byte(0xFF40, 0x80 | 0x10 | 0x02);
    let frame = draw_first_line(&mut gpu);
    assert_eq!(frame[0], RGB::new(192, 192, 192));
    assert_eq!(frame[7], RGB::new(192, 192, 192));
    assert_eq!(frame[8], RGB::new(255, 255, 255));
}

#[test]
fn gpu_sprite_behind_background() {
    let mut gpu = Gpu::new(false);
    for row in 0..8u16 {
        // tile 1: color 3, tile 2: color 1
        gpu.write_byte(0x8010 + 2 * row, 0xFF);
        gpu.write_byte(0x8011 + 2 * row, 0xFF);
        gpu.write_byte(0x8020 + 2 * row, 0xFF);
        gpu.write_byte(0x8021 + 2 * row, 0x00);
    }
    gpu.write_byte(0x9800, 0x01);
    gpu.write_byte(0xFE00, 16);
    gpu.write_byte(0xFE01, 12);
    gpu.write_byte(0xFE02, 2);
    gpu.write_byte(0xFE03, 0x80);
    gpu.write_byte(0xFF47, 0xE4);
    gpu.write_byte(0xFF48, 0xE4);
    gpu.write_byte(0xFF40, 0x80 | 0x10 | 0x02 | 0x01);
    let frame = draw_first_line(&mut gpu);
    // over background color 3 the sprite stays hidden, over color 0 it shows
    assert_eq!(frame[4], RGB::new(0, 0, 0));
    assert_eq!(frame[8], RGB::new(192, 192, 192));
    assert_eq!(frame[12], RGB::new(255, 255, 255));
}

#[test]
fn gpu_sprite_priority_by_x_then_index() {
    let mut gpu = Gpu::new(false);
    for row in 0..8u16 {
        // tile 2: color 1, tile 3: color 2
        gpu.write_byte(0x8020 + 2 * row, 0xFF);
        gpu.write_byte(0x8021 + 2 * row, 0x00);
        gpu.write_byte(0x8030 + 2 * row, 0x00);
        gpu.write_byte(0x8031 + 2 * row, 0xFF);
    }
    // sprite 0 at x 4, tile 3; sprite 1 at x 2, tile 2: sprite 1 wins where both cover
    for (i, b) in [16u8, 12, 3, 0, 16, 10, 2, 0].iter().enumerate() {
        gpu.write_byte(0xFE00 + i as u16, *b);
    }
    gpu.write_byte(0xFF48, 0xE4);
    gpu.write_byte(0xFF40, 0x80 | 0x10 | 0x02);
    let frame = draw_first_line(&mut gpu);
    assert_eq!(frame[2], RGB::new(192, 192, 192));
    assert_eq!(frame[9], RGB::new(192, 192, 192));
    assert_eq!(frame[10], RGB::new(96, 96, 96));
    assert_eq!(frame[11], RGB::new(96, 96, 96));
    assert_eq!(frame[12], RGB::new(255, 255, 255));
}
