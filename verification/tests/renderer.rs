//! Frame rendering: backgrounds, sprites, mode 7, windows, color math and
//! per-scanline bands.

use oxidesfc_core::renderer::color::bgr555_to_rgb8;
use oxidesfc_core::renderer::compose::{
    render_frame, render_frame_per_scanline, render_frame_per_scanline_with_cgram,
    render_frame_per_scanline_with_status,
};
use oxidesfc_core::renderer::sprites::sprite_size_pair;
use oxidesfc_core::renderer::tile::decode_tile_row;
use oxidesfc_core::renderer::{SCREEN_HEIGHT, SCREEN_WIDTH};
use oxidesfc_core::{Cgram, Oam, PpuRegisters, Vram};

/// Encodes a tile in the REAL SNES row-interleaved bitplane-pair
/// layout (`[r0p0, r0p1, r1p0, r1p1, ...]`). An earlier version of
/// this helper wrote `[8 bytes p0][8 bytes p1]` -- the same wrong
/// (NES-style) layout the production decoder had, so the tests
/// self-consistently passed while every real cartridge tile rendered
/// as garbage.
fn make_2bpp_tile(rows: [[u8; 8]; 8]) -> [u8; 16] {
    let mut data = [0u8; 16];
    for (y, row) in rows.iter().enumerate() {
        let mut lo = 0u8;
        let mut hi = 0u8;
        for (x, &pixel) in row.iter().enumerate() {
            let bit = 7 - x;
            lo |= (pixel & 1) << bit;
            hi |= ((pixel >> 1) & 1) << bit;
        }
        data[y * 2] = lo;
        data[y * 2 + 1] = hi;
    }
    data
}

/// Writes mode-7 tile data: assigns `tile` to every map entry of the
/// 128x128 field row `map_row`..(all rows if None isn't needed here),
/// and fills the given tile's 64 pixels with `value`.
fn write_mode7_tile(vram: &mut Vram, tile: u8, value: u8) {
    for i in 0..64u16 {
        vram.write(((tile as u16) * 64 + i) * 2 + 1, value);
    }
}

/// A mode-1 setup with one solid red BG1 tile at the top-left, used by
/// the window tests: returns (vram, cgram, regs) ready to render.
fn solid_bg1_setup() -> (Vram, Cgram, PpuRegisters) {
    let mut vram = Vram::new();
    let mut cgram = Cgram::new();
    let solid = make_2bpp_tile([[1u8; 8]; 8]);
    for (i, &b) in solid.iter().enumerate() {
        vram.write(i as u16, b); // tile 0
    }
    // 32x32 tilemap at word 0x400, every entry -> tile 0.
    for entry in 0..(32u16 * 32) {
        vram.write_word((0x400 + entry) * 2, 0x0000);
    }
    cgram.write(2, 0x1F); // CGRAM 1 = red
    cgram.write(3, 0x00);

    let mut regs = PpuRegisters::default();
    regs.inidisp = 0x0F;
    regs.bgmode = 1;
    regs.bg_sc[0] = 0x04;
    regs.tm = 0x01;
    (vram, cgram, regs)
}

fn oam_empty() -> Oam {
    Oam::new()
}

/// Builds an OAM where each of `count` small sprites shows exactly ONE
/// opaque pixel at its top-left corner (tile 0 must have pixel value 1
/// at (0,0) only), sprite `i` at (x_step * i, 10). `large` also sets
/// every sprite's size bit (OBSEL pair 0: 8x8 small / 16x16 large).
fn oam_with_sprite_row(count: usize, x_step: u8, large: bool) -> Oam {
    let mut oam = Oam::new();
    for i in 0..count {
        let base = (i * 4) as u16;
        oam.write(base, (i as u8).wrapping_mul(x_step)); // X
        oam.write(base + 1, 10); // Y
        oam.write(base + 2, 0); // tile 0
        oam.write(base + 3, 0x00); // palette 0, priority 0
    }
    // Park every other sprite off-screen (Y = 0xF0 = -16 with an 8px
    // sprite ends at line -8, never visible).
    for i in count..128 {
        let base = (i * 4) as u16;
        oam.write(base + 1, 0xF0);
    }
    if large {
        for i in 0..count {
            let byte = 512 + (i as u16) / 4;
            let old = oam.read(byte);
            oam.write(byte, old | (0x02 << ((i % 4) * 2)));
        }
    }
    oam
}

fn single_pixel_sprite_setup() -> (Vram, Cgram, PpuRegisters) {
    let mut vram = Vram::new();
    let mut cgram = Cgram::new();
    // OBJ tile 0: pixel value 1 at (0,0), rest transparent.
    let mut tile_row0 = [0u8; 8];
    tile_row0[0] = 1;
    let tile = make_2bpp_tile([tile_row0, [0; 8], [0; 8], [0; 8], [0; 8], [0; 8], [0; 8], [0; 8]]);
    for (i, &b) in tile.iter().enumerate() {
        vram.write(i as u16, b);
    }
    cgram.write(129 * 2, 0xE0); // OBJ palette 0, pixel 1
    cgram.write(129 * 2 + 1, 0x03);
    let mut regs = PpuRegisters::default();
    regs.inidisp = 0x0F;
    regs.obsel = 0x00;
    regs.tm = 0x10; // sprites only
    (vram, cgram, regs)
}

#[test]
fn background_mode1_bg1_tile_renders_with_correct_palette_colors() {
    let mut vram = Vram::new();
    let mut cgram = Cgram::new();
    let oam = Oam::new();

    // A 4bpp tile needs 2 bitplane pairs (32 bytes); use only pixel
    // values 0 (transparent) and 1 so a single 2bpp pair suffices and
    // the second pair (all zero) contributes nothing.
    let mut tile_row0 = [0u8; 8];
    tile_row0[0] = 1; // first pixel uses palette index 1
    let tile = make_2bpp_tile([tile_row0, [0; 8], [0; 8], [0; 8], [0; 8], [0; 8], [0; 8], [0; 8]]);
    // Tile data base word 0 -> byte 0. Tile index 0.
    for (i, &b) in tile.iter().enumerate() {
        vram.write(i as u16, b);
    }

    // Tilemap base word 0x400 (so it doesn't overlap tile data).
    // Map entry 0 (top-left tile) = tile index 0, palette 0, no flip.
    vram.write_word(0x400 * 2, 0x0000);

    // CGRAM color for BG palette 0, pixel index 1 -> entry 1 -> pure
    // red.
    cgram.write(2, 0xFF);
    cgram.write(2 + 1, 0x7F); // low byte 0xFF, high byte 0x7F -> 0x7FFF -> R=31,G=31,B=31? recompute below

    let mut regs = PpuRegisters {
        inidisp: 0x0F, // not forced blank, full brightness
        bgmode: 1, // BG1 = 4bpp
        bg12nba: 0x00, // BG1 tile data base = 0
        tm: 0x01, // enable BG1 only
        ..Default::default()
    };
    regs.bg_sc[0] = 0x04; // tilemap base = (0x04>>2)*0x400 = 0x400, size 32x32

    let fb = render_frame(&vram, &cgram, &oam, &regs);
    let expected = bgr555_to_rgb8(cgram.read_color(1));
    let idx = 0; // pixel (0,0)
    assert_eq!((fb[idx], fb[idx + 1], fb[idx + 2]), expected);
    assert_eq!(fb[idx + 3], 0xFF);

    // A pixel using value 0 elsewhere in the same tile must show the
    // backdrop color (CGRAM index 0), not the tile's palette color.
    let backdrop = bgr555_to_rgb8(cgram.read_color(0));
    let idx2 = 4; // pixel (1,0), tile pixel value 0
    assert_eq!((fb[idx2], fb[idx2 + 1], fb[idx2 + 2]), backdrop);
}

#[test]
fn background_offset_per_tile_mode2_overrides_bg1_h_scroll_per_column() {
    // Mode 2: BG3's tilemap supplies per-8-pixel-column scroll
    // overrides. Column 0 always uses the normal scroll; column 1's
    // override entry (BG3 map tile (0,0)) redirects BG1's horizontal
    // offset so the solid tile at world column 0 repeats there;
    // column 2 has no valid override and stays at the normal scroll.
    let mut vram = Vram::new();
    let mut cgram = Cgram::new();

    // BG1 4bpp tile 1: solid pixel value 1 (plane 0 = 0xFF each row).
    for row in 0..8u16 {
        vram.write(32 + row * 2, 0xFF);
    }
    // BG1 tilemap at word 0x400: tile 1 at map position (0,0) only.
    vram.write(0x800, 0x01);
    vram.write(0x801, 0x00);
    // BG3 tilemap at word 0x800: OPT entry for screen column 1 --
    // valid-for-BG1 (bit 13) + H offset 0x3F8 (walks the sample back
    // to world column 0: 8 + 1016 wraps to tile 0 of the 256-wide map).
    vram.write(0x1000, 0xF8);
    vram.write(0x1001, 0x23);

    cgram.write(2, 0xE0); // BG palette 0, pixel 1
    cgram.write(2 + 1, 0x03);

    let mut regs = PpuRegisters {
        inidisp: 0x0F,
        bgmode: 2,
        tm: 0x01, // BG1 only
        ..Default::default()
    };
    regs.bg_sc[0] = 0x04; // BG1 tilemap base word 0x400
    regs.bg_sc[2] = 0x08; // BG3 tilemap base word 0x800 (the OPT table)

    let fb = render_frame(&vram, &cgram, &oam_empty(), &regs);
    let color = bgr555_to_rgb8(cgram.read_color(1));
    let px = |x: usize| {
        let i = x * 4; // row 0
        (fb[i], fb[i + 1], fb[i + 2])
    };
    assert_eq!(px(0), color, "column 0 uses the normal (zero) scroll: tile 1 shows");
    assert_eq!(px(8), color, "column 1's OPT entry must override BG1's H offset");
    assert_eq!(px(16), (0, 0, 0), "column 2 has no valid OPT entry: backdrop");
}

#[test]
fn background_bgmode_size_bit_selects_16x16_tiles_with_obj_style_cell_layout() {
    // Mode 1 with BGMODE bit 4 (BG1 16x16 tiles): the tile's four 8x8
    // cells are base, base+1, base+16, base+17 -- pixel (8,0) must
    // come from tile base+1 and pixel (0,8) from tile base+16.
    let mut vram = Vram::new();
    let mut cgram = Cgram::new();
    let oam = Oam::new();

    let solid = make_2bpp_tile([[1u8; 8]; 8]);
    // 4bpp tiles are 32 bytes each. Tile 2 (base+1) and tile 17
    // (base+16) are solid; base tile 1 and tile 18 stay transparent.
    for (i, &b) in solid.iter().enumerate() {
        vram.write(2 * 32 + i as u16, b);
        vram.write(17 * 32 + i as u16, b);
    }
    vram.write_word(0x400 * 2, 0x0001); // map (0,0) -> base tile 1
    cgram.write(2, 0x1F); // CGRAM 1 = red
    cgram.write(3, 0x00);

    let mut regs = PpuRegisters {
        inidisp: 0x0F,
        bgmode: 0x11, // mode 1 + BG1 16x16 tiles
        tm: 0x01,
        ..Default::default()
    };
    regs.bg_sc[0] = 0x04;

    let fb = render_frame(&vram, &cgram, &oam, &regs);
    let red = bgr555_to_rgb8(cgram.read_color(1));
    let backdrop = bgr555_to_rgb8(cgram.read_color(0));

    let at = |x: usize, y: usize| {
        let i = (y * SCREEN_WIDTH + x) * 4;
        (fb[i], fb[i + 1], fb[i + 2])
    };
    assert_eq!(at(0, 0), backdrop, "cell (0,0) is the transparent base tile");
    assert_eq!(at(8, 0), red, "cell (1,0) must be tile base+1");
    assert_eq!(at(0, 8), red, "cell (0,1) must be tile base+16");
    assert_eq!(at(8, 8), backdrop, "cell (1,1) is the transparent base+17");
}

#[test]
fn background_mode5_hires_maps_two_dots_per_output_pixel() {
    // Mode 5: tiles are 16 dots wide in a 512-dot space; each output
    // pixel covers two dots. With the LEFT 8x8 cell solid and the
    // right transparent, output pixels 0-3 (dots 0-7) show the color
    // and pixels 4-7 (dots 8-15) show the backdrop.
    let mut vram = Vram::new();
    let mut cgram = Cgram::new();
    let oam = Oam::new();

    let solid = make_2bpp_tile([[1u8; 8]; 8]);
    for (i, &b) in solid.iter().enumerate() {
        vram.write(32 + i as u16, b); // 4bpp tile 1 solid (left cell)
    }
    vram.write_word(0x400 * 2, 0x0001); // map (0,0) -> base tile 1 (cells 1,2)
    cgram.write(2, 0x1F);
    cgram.write(3, 0x00);

    let mut regs = PpuRegisters {
        inidisp: 0x0F,
        bgmode: 5, // BG1 = 4bpp, 16-wide tiles
        tm: 0x01,
        ..Default::default()
    };
    regs.bg_sc[0] = 0x04;

    let fb = render_frame(&vram, &cgram, &oam, &regs);
    let red = bgr555_to_rgb8(cgram.read_color(1));
    let backdrop = bgr555_to_rgb8(cgram.read_color(0));
    let at = |x: usize| {
        let i = x * 4;
        (fb[i], fb[i + 1], fb[i + 2])
    };
    assert_eq!(at(0), red, "dots 0/1 (left cell) -> output pixel 0");
    assert_eq!(at(3), red, "dots 6/7 (left cell) -> output pixel 3");
    assert_eq!(at(4), backdrop, "dots 8/9 (transparent right cell) -> output pixel 4");
}

#[test]
fn background_mode5_hires_averages_the_two_dots_of_each_output_pixel() {
    // A tile row alternating between two palette indices means every
    // output pixel spans one dot of each color -- the result must be
    // their per-channel average, not either dot alone.
    let mut vram = Vram::new();
    let mut cgram = Cgram::new();
    let oam = Oam::new();

    let tile = make_2bpp_tile([[1, 2, 1, 2, 1, 2, 1, 2]; 8]);
    for (i, &b) in tile.iter().enumerate() {
        vram.write(32 + i as u16, b);
    }
    vram.write_word(0x400 * 2, 0x0001);
    // Color 1 = pure red (r=31), color 2 = pure blue (b=31).
    cgram.write(2, 0x1F);
    cgram.write(3, 0x00);
    cgram.write(4, 0x00);
    cgram.write(5, 0x7C);

    let mut regs = PpuRegisters {
        inidisp: 0x0F,
        bgmode: 5,
        tm: 0x01,
        ..Default::default()
    };
    regs.bg_sc[0] = 0x04;

    let fb = render_frame(&vram, &cgram, &oam, &regs);
    // Average of (31,0,0) and (0,0,31) in 5-bit space = (15,0,15).
    let expected = bgr555_to_rgb8(15 | (15 << 10));
    assert_eq!((fb[0], fb[1], fb[2]), expected,
        "output pixel 0 must average its red and blue dots");
}

#[test]
fn background_mode5_interlace_averages_both_field_lines() {
    // With SETINI bit 0 (interlace) in mode 5, each output row spans
    // two half-lines (the two fields). A tile whose row 0 is red and
    // row 1 is blue must render output row 0 as their average; without
    // the interlace bit, row 0 is pure red.
    let mut vram = Vram::new();
    let mut cgram = Cgram::new();
    let oam = Oam::new();

    let mut rows = [[0u8; 8]; 8];
    rows[0] = [1; 8];
    rows[1] = [2; 8];
    let tile = make_2bpp_tile(rows);
    for (i, &b) in tile.iter().enumerate() {
        vram.write(32 + i as u16, b);
    }
    vram.write_word(0x400 * 2, 0x0001);
    cgram.write(2, 0x1F); // color 1 = red
    cgram.write(3, 0x00);
    cgram.write(4, 0x00); // color 2 = blue
    cgram.write(5, 0x7C);

    let mut regs = PpuRegisters {
        inidisp: 0x0F,
        bgmode: 5,
        tm: 0x01,
        ..Default::default()
    };
    regs.bg_sc[0] = 0x04;

    let fb = render_frame(&vram, &cgram, &oam, &regs);
    let red = bgr555_to_rgb8(cgram.read_color(1));
    assert_eq!((fb[0], fb[1], fb[2]), red, "non-interlaced row 0 is the tile's row 0");

    regs.setini = 0x01; // interlace
    let fb2 = render_frame(&vram, &cgram, &oam, &regs);
    let expected = bgr555_to_rgb8(15 | (15 << 10)); // avg of red and blue
    assert_eq!((fb2[0], fb2[1], fb2[2]), expected,
        "interlaced row 0 must average the tile's rows 0 and 1 (the two fields)");
}

#[test]
fn background_mosaic_repeats_each_blocks_top_left_pixel() {
    // BG1 with a single red tile at map (0,0): normally pixel (8,0) is
    // backdrop (tile 1 of the map is transparent). With an 8x8 mosaic
    // whose block origin (8,0) is transparent, nothing changes there --
    // but pixel (7,0)..(0,0) belong to block origin (0,0), so the whole
    // first block is red. More telling: with mosaic 16x16, pixel
    // (12, 12) samples block origin (0,0) -- INSIDE the tile -- so it
    // must be red even though the un-mosaicked tile only spans 8x8.
    let mut vram = Vram::new();
    let mut cgram = Cgram::new();
    let oam = Oam::new();

    let solid = make_2bpp_tile([[1u8; 8]; 8]);
    for (i, &b) in solid.iter().enumerate() {
        vram.write(32 + i as u16, b); // 4bpp tile 1 (bytes 32..)
    }
    vram.write_word(0x400 * 2, 0x0001); // map (0,0) -> tile 1
    cgram.write(2, 0x1F); // CGRAM 1 = red
    cgram.write(3, 0x00);

    let mut regs = PpuRegisters {
        inidisp: 0x0F,
        bgmode: 1,
        tm: 0x01,
        mosaic: 0xF1, // size 16, enabled for BG1
        ..Default::default()
    };
    regs.bg_sc[0] = 0x04;

    let fb = render_frame(&vram, &cgram, &oam, &regs);
    let red = bgr555_to_rgb8(cgram.read_color(1));
    let idx = (12 * SCREEN_WIDTH + 12) * 4;
    assert_eq!((fb[idx], fb[idx + 1], fb[idx + 2]), red,
        "pixel (12,12) must repeat block origin (0,0)'s red with 16x16 mosaic");

    // Without mosaic the same pixel is backdrop (outside the 8x8 tile).
    regs.mosaic = 0x00;
    let fb2 = render_frame(&vram, &cgram, &oam, &regs);
    let backdrop = bgr555_to_rgb8(cgram.read_color(0));
    assert_eq!((fb2[idx], fb2[idx + 1], fb2[idx + 2]), backdrop);
}

#[test]
fn background_mode1_high_priority_bg3_tile_draws_in_front_of_bg1() {
    // Per-tile priority regression guard: in mode 1 with the BGMODE
    // bit-3 BG3-priority flag set, a BG3 tile whose tilemap priority
    // bit is set is the frontmost layer -- it must overwrite a BG1
    // pixel at the same location. The old renderer used a fixed
    // BG4<BG3<BG2<BG1 order and always drew BG1 on top, which is wrong
    // for this (very common in SMW) configuration.
    let mut vram = Vram::new();
    let mut cgram = Cgram::new();
    let oam = Oam::new();

    // Two distinct solid tiles: tile 0 (all pixel value 1) for BG1,
    // tile 1 (all pixel value 1) for BG3 -- same pixel value, different
    // palettes so we can tell which layer won.
    let solid = make_2bpp_tile([[1u8; 8]; 8]);
    for (i, &b) in solid.iter().enumerate() {
        vram.write(i as u16, b); // tile 0 at bytes 0..
    }

    // BG1 tilemap at word 0x1000, entry 0 -> tile 0, palette 0, priority 0.
    vram.write_word(0x1000 * 2, 0x0000);
    // BG3 tilemap at word 0x2000, entry 0 -> tile 0, palette 1, priority 1 (0x2000).
    vram.write_word(0x2000 * 2, 0x2000 | (1 << 10));

    // BG1 palette 0 index 1 -> CGRAM 1 = red-ish; BG3 palette 1 (2bpp)
    // index 1 -> CGRAM (1*4 + 1) = 5 = green-ish. Distinct colors.
    cgram.write(2, 0x1F); cgram.write(2 + 1, 0x00); // CGRAM1 = red
    cgram.write(5 * 2, 0xE0); cgram.write(5 * 2 + 1, 0x03); // CGRAM5 = green

    let mut regs = PpuRegisters {
        inidisp: 0x0F,
        bgmode: 0x09, // mode 1 + BG3 priority flag (bit 3)
        bg12nba: 0x00, // BG1 tile data base word 0
        bg34nba: 0x00, // BG3 tile data base word 0
        tm: 0x05, // enable BG1 (bit0) + BG3 (bit2)
        ..Default::default()
    };
    regs.bg_sc[0] = 0x10; // BG1 tilemap base word = (0x10>>2)*0x400 = 0x1000
    regs.bg_sc[2] = 0x20; // BG3 tilemap base word = (0x20>>2)*0x400 = 0x2000

    let fb = render_frame(&vram, &cgram, &oam, &regs);
    let green = bgr555_to_rgb8(cgram.read_color(5));
    assert_eq!((fb[0], fb[1], fb[2]), green,
        "high-priority BG3 must render in front of BG1 in mode 1 with the BG3-priority flag set");
}

#[test]
fn color_bgr555_to_rgb8_matches_known_values() {
    // Pure red (R=31,G=0,B=0) -> (255,0,0) after 5->8 bit expansion.
    assert_eq!(bgr555_to_rgb8(0x001F), (255, 0, 0));
    // Pure green (G=31) -> (0,255,0).
    assert_eq!(bgr555_to_rgb8(0x03E0), (0, 255, 0));
    // Pure blue (B=31) -> (0,0,255).
    assert_eq!(bgr555_to_rgb8(0x7C00), (0, 0, 255));
    // Black.
    assert_eq!(bgr555_to_rgb8(0x0000), (0, 0, 0));
}

#[test]
fn color_color_math_add_half_with_fixed_color_blends_the_backdrop() {
    // The regression this whole subscreen/color-math path fixes:
    // layers that real hardware only shows blended (SMW's title
    // background) used to render as harsh, fully-opaque tile noise
    // because color math was ignored entirely. Here the backdrop
    // (CGRAM 0) is the only thing on screen, color math is enabled for
    // the backdrop layer (CGADSUB bit 5) in add+half mode against a
    // fixed COLDATA color, and the output pixel must be the blended
    // result, not the raw backdrop.
    let vram = Vram::new();
    let mut cgram = Cgram::new();
    let oam = Oam::new();

    // Backdrop (CGRAM index 0) = BGR555 (r=10, g=20, b=0) = 0x028A.
    let backdrop_color: u16 = 10 | (20 << 5);
    cgram.write(0, (backdrop_color & 0xFF) as u8);
    cgram.write(1, (backdrop_color >> 8) as u8);

    let mut regs = PpuRegisters {
        inidisp: 0x0F, // full brightness, not blanked
        bgmode: 1,
        tm: 0x00, // nothing on the main screen except the backdrop
        ..Default::default()
    };
    // Color math: enable on backdrop (bit5), add (bit7=0), half (bit6).
    regs.cgadsub = 0x20 | 0x40;
    regs.cgwsel = 0x00; // blend with fixed COLDATA, not the subscreen
    // Fixed color = BGR555 (r=6, g=4, b=0).
    regs.coldata = 6 | (4 << 5);

    // Expected: per channel (backdrop + fixed) >> 1, clamped 0..31.
    let er = (10 + 6) >> 1; // 8
    let eg = (20 + 4) >> 1; // 12
    let eb = 0 >> 1; // 0
    let expected = bgr555_to_rgb8((er as u16) | ((eg as u16) << 5) | ((eb as u16) << 10));

    let fb = render_frame(&vram, &cgram, &oam, &regs);
    assert_eq!((fb[0], fb[1], fb[2]), expected,
        "backdrop must be color-math-blended with the fixed color (add, half)");

    // With color math disabled, the same pixel must be the raw backdrop.
    regs.cgadsub = 0x00;
    let fb2 = render_frame(&vram, &cgram, &oam, &regs);
    let raw = bgr555_to_rgb8(backdrop_color);
    assert_eq!((fb2[0], fb2[1], fb2[2]), raw,
        "with color math off, the backdrop must render unmodified");
}

#[test]
fn color_color_math_exempts_sprites_on_obj_palettes_0_to_3() {
    // Hardware rule (fullsnes "Color Math"): CGADSUB bit 4 enables
    // math only for sprite pixels using OBJ palettes 4-7; palettes 0-3
    // are NEVER blended. Character sprites (Mario, enemies) live on
    // the low palettes precisely so a game can make pal-4-7 effect
    // sprites (bubbles, spotlights) translucent without washing out
    // the actors -- blending everything made characters look wrong
    // anywhere OBJ math was on (e.g. SMW's overworld, CGADSUB=$30).
    let mut vram = Vram::new();
    let mut cgram = Cgram::new();
    let mut oam = Oam::new();

    // One tile, all 64 pixels = value 1.
    let tile = make_2bpp_tile([[1; 8]; 8]);
    for (i, &b) in tile.iter().enumerate() {
        vram.write(i as u16, b);
    }

    // Sprite 0: palette 0 (math-exempt). Sprite 1: palette 4 (blended).
    // Both 8x8, at y=10, x=20 and x=40. (byte 0 = X, byte 1 = Y)
    oam.write(0, 20);
    oam.write(1, 10);
    oam.write(2, 0);
    oam.write(3, 0x00); // palette 0
    oam.write(4, 40);
    oam.write(5, 10);
    oam.write(6, 0);
    oam.write(7, 0x08); // attrs bit3-1 = 100 -> palette 4
    oam.write(512, 0x00);

    // Both palettes' color 1 = the same mid red (r=16).
    let sprite_color: u16 = 16;
    for pal in [0usize, 4] {
        let e = 128 + pal * 16 + 1;
        cgram.write((e * 2) as u16, (sprite_color & 0xFF) as u8);
        cgram.write((e * 2 + 1) as u16, (sprite_color >> 8) as u8);
    }

    let mut regs = PpuRegisters {
        inidisp: 0x0F,
        obsel: 0x00,
        tm: 0x10, // sprites only on main
        ..Default::default()
    };
    // Math: enable on OBJ (bit4), add, full. Operand = fixed color,
    // pure green (g=20) so the blended pixel visibly changes.
    regs.cgadsub = 0x10;
    regs.cgwsel = 0x00;
    regs.coldata = 20 << 5;

    let fb = render_frame(&vram, &cgram, &oam, &regs);

    let raw = bgr555_to_rgb8(sprite_color);
    let blended = bgr555_to_rgb8(sprite_color | (20 << 5));
    let pal0_idx = (10 * SCREEN_WIDTH + 20) * 4;
    let pal4_idx = (10 * SCREEN_WIDTH + 40) * 4;
    assert_eq!(
        (fb[pal0_idx], fb[pal0_idx + 1], fb[pal0_idx + 2]),
        raw,
        "a palette-0 sprite pixel must NOT be color-mathed even with CGADSUB bit 4 set"
    );
    assert_eq!(
        (fb[pal4_idx], fb[pal4_idx + 1], fb[pal4_idx + 2]),
        blended,
        "a palette-4 sprite pixel MUST be color-mathed when CGADSUB bit 4 is set"
    );
}

#[test]
fn pseudo_hires_averages_main_and_subscreen_pixels() {
    // SETINI bit 3 (pseudo-hires): hardware interleaves subscreen
    // pixels on even half-dots and main-screen pixels on odd ones; on
    // this fixed 256-wide raster that collapses to averaging the two
    // (the same collapse the true hi-res modes use).
    let mut vram = Vram::new();
    let mut cgram = Cgram::new();

    // 4bpp tile 1: solid pixel value 1.
    for row in 0..8u16 {
        vram.write(32 + row * 2, 0xFF);
    }
    // BG1 tilemap at word 0x400: tile 1, palette 0 -> color 1 (red).
    vram.write(0x800, 0x01);
    vram.write(0x801, 0x00);
    // BG2 tilemap at word 0x800: tile 1, palette 1 -> color 17 (blue).
    vram.write(0x1000, 0x01);
    vram.write(0x1001, 0x04);

    cgram.write(2, 0x1F); // color 1 = pure red (BGR555 0x001F)
    cgram.write(2 + 1, 0x00);
    cgram.write(17 * 2, 0x00); // color 17 = pure blue (BGR555 0x7C00)
    cgram.write(17 * 2 + 1, 0x7C);

    let mut regs = PpuRegisters {
        inidisp: 0x0F,
        bgmode: 1,
        tm: 0x01, // main screen: BG1 (red)
        ts: 0x02, // subscreen: BG2 (blue)
        setini: 0x08, // pseudo-hires
        ..Default::default()
    };
    regs.bg_sc[0] = 0x04; // BG1 map at word 0x400
    regs.bg_sc[1] = 0x08; // BG2 map at word 0x800

    let fb = render_frame(&vram, &cgram, &oam_empty(), &regs);
    // avg(red 0x001F, blue 0x7C00) = r 15, g 0, b 15 = 0x3C0F.
    let expected = bgr555_to_rgb8(0x3C0F);
    assert_eq!((fb[0], fb[1], fb[2]), expected, "pseudo-hires must blend main and subscreen");

    // Without the bit, only the main screen shows.
    regs.setini = 0x00;
    let fb = render_frame(&vram, &cgram, &oam_empty(), &regs);
    let expected = bgr555_to_rgb8(0x001F);
    assert_eq!((fb[0], fb[1], fb[2]), expected, "without SETINI bit 3 the subscreen stays hidden");
}

#[test]
fn frame_tile_decode_uses_row_interleaved_snes_bitplane_layout() {
    // Pins the REAL SNES tile byte layout with hand-written raw bytes
    // (deliberately NOT built via make_2bpp_tile, so this test cannot
    // become self-consistently wrong alongside the encoder again).
    // 2bpp row-interleaved: byte 0 = row0 plane0, byte 1 = row0 plane1.
    let mut vram = Vram::new();
    vram.write(0, 0b1111_0000); // row 0, plane 0
    vram.write(1, 0b0000_1111); // row 0, plane 1
    vram.write(2, 0b1000_0001); // row 1, plane 0
    vram.write(3, 0b1000_0000); // row 1, plane 1

    let row0 = decode_tile_row(&vram, 0, 0, 2, 0);
    assert_eq!(row0, [1, 1, 1, 1, 2, 2, 2, 2],
        "row 0 must combine byte0 (plane0) and byte1 (plane1)");
    let row1 = decode_tile_row(&vram, 0, 0, 2, 1);
    assert_eq!(row1, [3, 0, 0, 0, 0, 0, 0, 1],
        "row 1 must come from bytes 2/3 (row-interleaved), not bytes 1/9 (planar)");

    // 4bpp: second bitplane pair starts 16 bytes in; its two planes
    // are also row-interleaved and contribute pixel bits 2/3.
    let mut vram4 = Vram::new();
    vram4.write(0, 0xFF); // row 0, plane 0
    vram4.write(16, 0xFF); // row 0, plane 2
    vram4.write(17, 0xFF); // row 0, plane 3
    let row0_4bpp = decode_tile_row(&vram4, 0, 0, 4, 0);
    assert_eq!(row0_4bpp, [0x0D; 8],
        "4bpp planes 0/2/3 set -> pixel value 0b1101 for every pixel of row 0");
}

#[test]
fn frame_forced_blank_renders_solid_black() {
    let vram = Vram::new();
    let cgram = Cgram::new();
    let oam = Oam::new();
    let mut regs = PpuRegisters::default();
    regs.inidisp = 0x80;

    let fb = render_frame(&vram, &cgram, &oam, &regs);
    assert_eq!(fb.len(), SCREEN_WIDTH * SCREEN_HEIGHT * 4);
    assert!(fb.chunks_exact(4).all(|px| px == [0, 0, 0, 0xFF]));
}

#[test]
fn frame_per_scanline_register_bands_render_each_row_with_its_own_state() {
    // The banded renderer must apply each scanline's captured register
    // state to that scanline only -- this is what makes SMW's
    // IRQ-driven status-bar split (different BG3 scroll above/below
    // the bar) and HDMA effects renderable at all with a
    // snapshot-based renderer.
    let mut vram = Vram::new();
    let mut cgram = Cgram::new();
    let oam = Oam::new();

    // Solid 4bpp-compatible tile (value 1) as tile 1 (tile 0 stays
    // all-transparent, since the zero-filled tilemap references it
    // everywhere); only map entry (0,0) uses the solid tile, so it is
    // visible exactly when hofs/vofs = 0.
    let solid = make_2bpp_tile([[1u8; 8]; 8]);
    for (i, &b) in solid.iter().enumerate() {
        vram.write(32 + i as u16, b); // 4bpp tile 1 starts at byte 32
    }
    vram.write_word(0x400 * 2, 0x0001);
    cgram.write(2, 0x1F); // CGRAM 1 = red
    cgram.write(3, 0x00);

    let mut top = PpuRegisters::default();
    top.inidisp = 0x0F;
    top.bgmode = 1;
    top.bg_sc[0] = 0x04; // tilemap word 0x400, 32x32
    top.tm = 0x01;

    let mut bottom = top;
    bottom.bg_hofs[0] = 64; // scroll the tile out of view below the split

    let mut lines = vec![top; SCREEN_HEIGHT];
    for line in lines.iter_mut().skip(4) {
        *line = bottom;
    }

    let fb = render_frame_per_scanline(&vram, &cgram, &oam, &lines);
    let red = bgr555_to_rgb8(cgram.read_color(1));
    let backdrop = bgr555_to_rgb8(cgram.read_color(0));

    // Row 2 (above the split): tile pixel visible at x=0.
    let above = (2 * SCREEN_WIDTH) * 4;
    assert_eq!((fb[above], fb[above + 1], fb[above + 2]), red,
        "rows before the split must use the first band's scroll");
    // Row 6 (below the split): the tile is scrolled away, backdrop shows.
    let below = (6 * SCREEN_WIDTH) * 4;
    assert_eq!((fb[below], fb[below + 1], fb[below + 2]), backdrop,
        "rows after the split must use the second band's scroll");
}

#[test]
fn per_scanline_cgram_renders_each_row_with_its_own_palette() {
    // Mid-frame palette rewrites are as common as mid-frame register
    // writes: Prince of Persia 2 HDMAs backdrop color 0 every line
    // for its sky gradient and restores the palette during vblank,
    // so rendering every row from one end-of-frame CGRAM flattens
    // the gradient into a single solid color. Each row must be
    // composited with the palette captured for ITS scanline.
    let vram = Vram::new();
    let oam = Oam::new();

    let mut regs = PpuRegisters::default();
    regs.inidisp = 0x0F; // full brightness
    regs.bgmode = 1;
    regs.tm = 0x00; // backdrop-only frame
    let lines = vec![regs; SCREEN_HEIGHT];

    let mut sky_top = Cgram::new();
    sky_top.write_color(0, 0x001F); // red backdrop
    let mut sky_bottom = Cgram::new();
    sky_bottom.write_color(0, 0x7C00); // blue backdrop

    let mut cgram_lines = vec![sky_top; SCREEN_HEIGHT];
    for pal in cgram_lines.iter_mut().skip(100) {
        *pal = sky_bottom.clone();
    }

    let (fb, _) =
        render_frame_per_scanline_with_cgram(&vram, &cgram_lines, &oam, &lines);

    let above = (50 * SCREEN_WIDTH) * 4;
    assert_eq!((fb[above], fb[above + 1], fb[above + 2]), (255, 0, 0),
        "rows before the palette change must use their own line's backdrop color");
    let below = (150 * SCREEN_WIDTH) * 4;
    assert_eq!((fb[below], fb[below + 1], fb[below + 2]), (0, 0, 255),
        "rows after the palette change must use the rewritten backdrop color");
}

#[test]
fn mode7_mode7_identity_matrix_renders_the_field_one_to_one() {
    let mut vram = Vram::new();
    let mut cgram = Cgram::new();
    let oam = Oam::new();

    // Map entry (0,0) -> tile 1 (low byte of word 0). Everything else
    // stays tile 0 (all-transparent).
    vram.write(0, 0x01);
    write_mode7_tile(&mut vram, 1, 0x25); // tile 1: every pixel = color 0x25

    // CGRAM color 0x25 = pure green.
    cgram.write(0x25 * 2, 0xE0);
    cgram.write(0x25 * 2 + 1, 0x03);

    let regs = PpuRegisters {
        inidisp: 0x0F,
        bgmode: 7,
        tm: 0x01, // BG1 only
        m7a: 0x0100, // identity matrix (1.0 in 8.8 fixed point)
        m7b: 0x0000,
        m7c: 0x0000,
        m7d: 0x0100,
        ..Default::default()
    };

    let fb = render_frame(&vram, &cgram, &oam, &regs);
    let green = bgr555_to_rgb8(cgram.read_color(0x25));
    let backdrop = bgr555_to_rgb8(cgram.read_color(0));

    // Pixel (0,0) lands inside tile 1's 8x8 area.
    assert_eq!((fb[0], fb[1], fb[2]), green, "identity transform must map screen (0,0) to field (0,0)");
    // Pixel (8,0) is the next map entry (tile 0, transparent) -> backdrop.
    let idx = 8 * 4;
    assert_eq!((fb[idx], fb[idx + 1], fb[idx + 2]), backdrop, "field pixel (8,0) is a transparent tile");
}

#[test]
fn mode7_mode7_scaling_matrix_transforms_coordinates() {
    // A = 2.0 doubles the horizontal step: screen x=4 samples field
    // x=8, so tile 1 at map (0,0) (field x 0-7) must NOT cover screen
    // x=4 when scaled, while an unscaled render would.
    let mut vram = Vram::new();
    let mut cgram = Cgram::new();
    let oam = Oam::new();

    vram.write(0, 0x01);
    write_mode7_tile(&mut vram, 1, 0x25);
    cgram.write(0x25 * 2, 0xE0);
    cgram.write(0x25 * 2 + 1, 0x03);

    let regs = PpuRegisters {
        inidisp: 0x0F,
        bgmode: 7,
        tm: 0x01,
        m7a: 0x0200, // 2.0: horizontal zoom OUT (field moves 2px per screen px)
        m7b: 0,
        m7c: 0,
        m7d: 0x0100,
        ..Default::default()
    };

    let fb = render_frame(&vram, &cgram, &oam, &regs);
    let green = bgr555_to_rgb8(cgram.read_color(0x25));
    let backdrop = bgr555_to_rgb8(cgram.read_color(0));

    // Screen x=3 -> field x=6 (still inside tile 1's row 0).
    let inside = 3 * 4;
    assert_eq!((fb[inside], fb[inside + 1], fb[inside + 2]), green);
    // Screen x=4 -> field x=8 (tile 0, transparent -> backdrop).
    let outside = 4 * 4;
    assert_eq!((fb[outside], fb[outside + 1], fb[outside + 2]), backdrop,
        "M7A=2.0 must sample field x=8 at screen x=4");
}

#[test]
fn mode7_mode7_screen_over_transparent_vs_wrap() {
    // Point the transform far outside the 1024x1024 field via M7Y and
    // check M7SEL's screen-over modes: wrap (0) shows the field again,
    // transparent (2) shows the backdrop.
    let mut vram = Vram::new();
    let mut cgram = Cgram::new();
    let oam = Oam::new();

    // Fill the WHOLE map with tile 1 so any wrapped coordinate hits it.
    for entry in 0..(128u16 * 128) {
        vram.write(entry * 2, 0x01);
    }
    write_mode7_tile(&mut vram, 1, 0x25);
    cgram.write(0x25 * 2, 0xE0);
    cgram.write(0x25 * 2 + 1, 0x03);

    let mut regs = PpuRegisters {
        inidisp: 0x0F,
        bgmode: 7,
        tm: 0x01,
        m7a: 0x0100,
        m7b: 0,
        m7c: 0,
        m7d: 0x0100,
        ..Default::default()
    };
    // Scroll far negative: field y = -1024 + screen y, outside the field.
    regs.m7_vofs = (-1024i16 as u16) & 0x1FFF;

    // Screen-over 0: wrap -> still shows tile 1's color.
    regs.m7sel = 0x00;
    let fb = render_frame(&vram, &cgram, &oam, &regs);
    let green = bgr555_to_rgb8(cgram.read_color(0x25));
    assert_eq!((fb[0], fb[1], fb[2]), green, "screen-over 0 must wrap");

    // Screen-over 2: transparent -> backdrop.
    regs.m7sel = 0x80;
    let fb2 = render_frame(&vram, &cgram, &oam, &regs);
    let backdrop = bgr555_to_rgb8(cgram.read_color(0));
    assert_eq!((fb2[0], fb2[1], fb2[2]), backdrop, "screen-over 2 must render transparent");
}

#[test]
fn mode7_mode7_extbg_splits_bg2_by_pixel_priority_bit() {
    // With SETINI EXTBG, BG2 shows the mode-7 field split by pixel bit
    // 7: high-priority pixels (bit 7 set) draw in FRONT of BG1;
    // low-priority pixels draw behind it. Here BG1 and BG2 are both
    // enabled; the field pixel value 0xA5 has bit 7 set, so BG2's
    // interpretation (color 0x25) must beat BG1's (color 0xA5).
    let mut vram = Vram::new();
    let mut cgram = Cgram::new();
    let oam = Oam::new();

    vram.write(0, 0x01);
    write_mode7_tile(&mut vram, 1, 0xA5); // bit7=1, low 7 bits = 0x25
    cgram.write(0xA5u8 as u16 * 2, 0x1F); // BG1's color: red
    cgram.write(0xA5u8 as u16 * 2 + 1, 0x00);
    cgram.write(0x25 * 2, 0xE0); // BG2's color: green
    cgram.write(0x25 * 2 + 1, 0x03);

    let regs = PpuRegisters {
        inidisp: 0x0F,
        bgmode: 7,
        tm: 0x03, // BG1 + BG2
        setini: 0x40, // EXTBG
        m7a: 0x0100,
        m7b: 0,
        m7c: 0,
        m7d: 0x0100,
        ..Default::default()
    };

    let fb = render_frame(&vram, &cgram, &oam, &regs);
    let green = bgr555_to_rgb8(cgram.read_color(0x25));
    assert_eq!((fb[0], fb[1], fb[2]), green,
        "an EXTBG pixel with bit 7 set must draw its BG2 slot in front of BG1");
}

#[test]
fn sprites_sprite_size_pair_codes_6_and_7_are_non_square() {
    // OBSEL size-pair codes 6 and 7 are the two undocumented,
    // non-square pairs. An earlier version approximated both as
    // square (16x16/32x32), which is wrong for the "large" size of
    // code 6 (real hardware: 32x64) and for the "small" size of both
    // codes (real hardware: 16x32, not 16x16). Values cross-checked
    // against the SNESdev wiki PPU registers page and fullsnes's
    // OBJSEL OBJ Size table, which agree exactly:
    //   code 6: small 16x32, large 32x64
    //   code 7: small 16x32, large 32x32
    let (small6, large6) = sprite_size_pair(6);
    assert_eq!(small6, (16, 32), "code 6 small size must be 16x32, not square 16x16");
    assert_eq!(large6, (32, 64), "code 6 large size must be 32x64, not square 32x32");

    let (small7, large7) = sprite_size_pair(7);
    assert_eq!(small7, (16, 32), "code 7 small size must be 16x32, not square 16x16");
    assert_eq!(large7, (32, 32), "code 7 large size is genuinely square 32x32");
}

#[test]
fn sprites_sprite_renders_at_its_oam_position_with_object_palette() {
    let mut vram = Vram::new();
    let mut cgram = Cgram::new();
    let mut oam = Oam::new();

    // 4bpp tile, single pixel value 1 at (0,0), rest transparent.
    let mut tile_row0 = [0u8; 8];
    tile_row0[0] = 1;
    let tile = make_2bpp_tile([tile_row0, [0; 8], [0; 8], [0; 8], [0; 8], [0; 8], [0; 8], [0; 8]]);
    for (i, &b) in tile.iter().enumerate() {
        vram.write(i as u16, b);
    }

    // Sprite 0: X=20, Y=10, tile=0, palette=0, no flip, small size.
    // Raw OAM byte order per fullsnes: byte 0 = X, byte 1 = Y (an
    // earlier renderer read these swapped, and this test encoded the
    // same swapped order, so it kept passing).
    oam.write(0, 20); // X
    oam.write(1, 10); // Y
    oam.write(2, 0); // tile
    oam.write(3, 0x00); // attrs: palette 0
    oam.write(512, 0x00); // high table byte for sprites 0-3: X high bit 0, size 0

    // Object palette 0, pixel index 1 -> CGRAM index 128 + 1 = 129.
    cgram.write(129 * 2, 0xE0); // arbitrary nonzero BGR555 low byte
    cgram.write(129 * 2 + 1, 0x03);

    let mut regs = PpuRegisters::default();
    regs.inidisp = 0x0F;
    regs.obsel = 0x00; // size pair 0 (8x8/16x16), tile base word 0
    regs.tm = 0x10; // enable sprites only

    let fb = render_frame(&vram, &cgram, &oam, &regs);
    let expected = bgr555_to_rgb8(cgram.read_color(129));
    let idx = (10 * SCREEN_WIDTH + 20) * 4;
    assert_eq!((fb[idx], fb[idx + 1], fb[idx + 2]), expected);
}

#[test]
fn tall_sprite_near_the_bottom_wraps_its_rows_to_the_top_of_the_screen() {
    // Hardware's vertical range test is `(line - y) & 0xFF < height`, so a
    // 32-pixel sprite at Y=250 shows rows 6..31 on screen lines 0..25.
    // The old `y >= 0xF0 ? y - 256 : y` biasing reproduces that only for
    // sprites up to 16 pixels tall; taller ones lost the wrapped slice.
    let mut vram = Vram::new();
    let mut cgram = Cgram::new();
    let mut oam = Oam::new();

    // A tile whose every row has pixel value 1 in column 0, so any row of
    // the sprite that draws is detectable. A 32x32 sprite spans 4 tile
    // rows, and consecutive tile rows step the tile number by 16, so
    // tiles 0/16/32/48 are the four covering the sprite's first column.
    // Each 4bpp tile occupies 32 bytes of VRAM.
    let solid_col = [1u8, 0, 0, 0, 0, 0, 0, 0];
    let tile = make_2bpp_tile([solid_col; 8]);
    for tile_num in [0u16, 16, 32, 48] {
        for (i, &b) in tile.iter().enumerate() {
            vram.write(tile_num * 32 + i as u16, b);
        }
    }

    // Sprite 0: X=8, Y=250, large size (32x32 via OBSEL size pair 1).
    oam.write(0, 8); // X
    oam.write(1, 250); // Y
    oam.write(2, 0); // tile
    oam.write(3, 0x00); // attrs: palette 0, priority 0
    oam.write(512, 0x02); // high table: sprite 0 size bit set -> large

    cgram.write(129 * 2, 0xE0);
    cgram.write(129 * 2 + 1, 0x03);

    let mut regs = PpuRegisters::default();
    regs.inidisp = 0x0F;
    regs.obsel = 0x20; // size pair 1 = 8x8 / 32x32
    regs.tm = 0x10; // sprites only

    let fb = render_frame(&vram, &cgram, &oam, &regs);
    let expected = bgr555_to_rgb8(cgram.read_color(129));

    // Row 6 of the sprite lands on screen line 0 ((250 + 6) & 0xFF).
    let top = (0 * SCREEN_WIDTH + 8) * 4;
    assert_eq!(
        (fb[top], fb[top + 1], fb[top + 2]),
        expected,
        "the wrapped rows of a tall low-parked sprite must appear at the top"
    );
    // Row 25 lands on line 25; row 31 wraps to line 25 + 6 = ... the last
    // visible wrapped line is 31 - 6 = 25.
    let last = (25 * SCREEN_WIDTH + 8) * 4;
    assert_eq!(
        (fb[last], fb[last + 1], fb[last + 2]),
        expected,
        "the whole wrapped slice must draw, not only its first line"
    );
    // Line 26 is past the sprite's last row, so it must be backdrop.
    let past = (26 * SCREEN_WIDTH + 8) * 4;
    assert_ne!(
        (fb[past], fb[past + 1], fb[past + 2]),
        expected,
        "the sprite must not extend past its 32-pixel height"
    );
}

#[test]
fn sprites_obsel_and_oam_attributes_decode_per_real_hardware_bit_layout() {
    // Regression guard for two systematically-swapped decodes that
    // made every sprite unrecognizable mush: OBSEL's base address is
    // bits 0-2 (NOT 5-7, which are the size pair), and the OAM
    // attribute byte is `vhoopppN` (palette in bits 1-3, flips in
    // bits 6-7, tile bit 8 in bit 0 -- NOT palette 0-2 / flips 5-6).
    let mut vram = Vram::new();
    let mut cgram = Cgram::new();
    let mut oam = Oam::new();

    // OBJ tile base = OBSEL bits 0-2 = 1 -> word 0x2000 -> byte 0x4000.
    // Tile 0 there: pixel value 1 at (0,0), rest transparent.
    let mut tile_row0 = [0u8; 8];
    tile_row0[0] = 1;
    let tile = make_2bpp_tile([tile_row0, [0; 8], [0; 8], [0; 8], [0; 8], [0; 8], [0; 8], [0; 8]]);
    for (i, &b) in tile.iter().enumerate() {
        vram.write(0x4000 + i as u16, b);
    }
    // The SECOND tile table (tiles 256-511) for OBSEL base 1, name 0
    // sits at word 0x2000 + 0x1000 = 0x3000 -> byte 0x6000. Its tile 0
    // (= sprite tile number 0x100): pixel value 1 at (1,0).
    let mut tile2_row0 = [0u8; 8];
    tile2_row0[1] = 1;
    let tile2 = make_2bpp_tile([tile2_row0, [0; 8], [0; 8], [0; 8], [0; 8], [0; 8], [0; 8], [0; 8]]);
    for (i, &b) in tile2.iter().enumerate() {
        vram.write(0x6000 + i as u16, b);
    }

    // Sprite 0 at (20,10), tile 0, attrs = palette 1 (bits 1-3).
    // (raw byte order: byte 0 = X, byte 1 = Y)
    oam.write(0, 20);
    oam.write(1, 10);
    oam.write(2, 0);
    oam.write(3, 0b0000_0010); // palette 1
    oam.write(512, 0x00);
    // Sprite 1 at (40,10), tile bit8 set via attr bit 0 -> tile 0x100
    // from the second table, palette 0, H-FLIP via bit 6.
    oam.write(4, 40);
    oam.write(5, 10);
    oam.write(6, 0);
    oam.write(7, 0b0100_0001); // hflip + tile bit 8
    // (sprite 1 shares high-table byte 512; both X high bits 0, small size)

    // OBJ palette 1, index 1 -> CGRAM 128 + 16 + 1 = 145.
    cgram.write(145 * 2, 0x1F);
    cgram.write(145 * 2 + 1, 0x00);
    // OBJ palette 0, index 1 -> CGRAM 129.
    cgram.write(129 * 2, 0xE0);
    cgram.write(129 * 2 + 1, 0x03);

    let mut regs = PpuRegisters::default();
    regs.inidisp = 0x0F;
    regs.obsel = 0x01; // size pair 0 (8x8), name 0, BASE = word 0x2000
    regs.tm = 0x10;

    let fb = render_frame(&vram, &cgram, &oam, &regs);

    // Sprite 0's pixel must use OBJ palette 1 (CGRAM 145).
    let expected_pal1 = bgr555_to_rgb8(cgram.read_color(145));
    let i0 = (10 * SCREEN_WIDTH + 20) * 4;
    assert_eq!((fb[i0], fb[i0 + 1], fb[i0 + 2]), expected_pal1,
        "attr bits 1-3 must select the OBJ palette");

    // Sprite 1: tile 0x100 comes from the second table; its source
    // pixel at x=1 lands at x = 7-1 = 6 after the H-flip (attr bit 6).
    let expected_pal0 = bgr555_to_rgb8(cgram.read_color(129));
    let i1 = (10 * SCREEN_WIDTH + 40 + 6) * 4;
    assert_eq!((fb[i1], fb[i1 + 1], fb[i1 + 2]), expected_pal0,
        "attr bit 0 must select the second tile table and bit 6 must H-flip");
}

#[test]
fn sprites_large_sprite_tile_column_wraps_within_low_nibble() {
    // Regression guard for the multi-tile sprite tile-number bug: the
    // column component must wrap WITHIN the tile number's low nibble,
    // not carry into the row/table bits. Base tile 0x0E plus a column
    // offset of 3 (the 4th 8x8 cell of a 32x32 sprite) must land on
    // tile (0x0E + 3) & 0x0F = 0x01, NOT the unwrapped 0x0E + 3 = 0x11.
    let mut vram = Vram::new();
    let mut cgram = Cgram::new();
    let mut oam = Oam::new();

    // Tile index 1 (the CORRECT wrapped target): pixel value 1 at (0,0).
    let mut tile1_row0 = [0u8; 8];
    tile1_row0[0] = 1;
    let tile1 = make_2bpp_tile([tile1_row0, [0; 8], [0; 8], [0; 8], [0; 8], [0; 8], [0; 8], [0; 8]]);
    for (i, &b) in tile1.iter().enumerate() {
        vram.write(1 * 32 + i as u16, b); // 4bpp tile 1 starts at byte 32
    }
    // Tile index 0x11 = 17 (the WRONG unwrapped target) is left all
    // zero/transparent, so if the bug regresses the sprite pixel
    // silently disappears instead of showing the wrong graphics.

    // Sprite 0 at (20,10), base tile 0x0E, palette 0, no flip.
    // (raw byte order: byte 0 = X, byte 1 = Y)
    oam.write(0, 20); // X
    oam.write(1, 10); // Y
    oam.write(2, 0x0E); // tile low byte
    oam.write(3, 0x00); // attrs: palette 0, no flip, tile bit 8 = 0
    // Secondary OAM byte for sprites 0-3: sprite 0's size bit (bit 1)
    // set -> large size; X high bit (bit 0) clear.
    oam.write(512, 0x02);

    // OBJ palette 0, pixel index 1 -> CGRAM 128 + 1 = 129.
    cgram.write(129 * 2, 0x1F);
    cgram.write(129 * 2 + 1, 0x00);

    let mut regs = PpuRegisters::default();
    regs.inidisp = 0x0F;
    regs.obsel = 0x20; // size-pair code 1 (8x8/32x32), tile base word 0
    regs.tm = 0x10; // enable sprites only

    let fb = render_frame(&vram, &cgram, &oam, &regs);

    // Screen pixel for sprite-local (tx=24, ty=0) -> tile_row_idx=0,
    // tile_col_idx=3 -> must read wrapped tile index 1.
    let expected = bgr555_to_rgb8(cgram.read_color(129));
    let idx = (10 * SCREEN_WIDTH + 20 + 24) * 4;
    assert_eq!((fb[idx], fb[idx + 1], fb[idx + 2]), expected,
        "column offset must wrap within the tile number's low nibble, not carry into higher bits");
}

#[test]
fn sprites_oam_entry_byte_order_is_x_then_y_per_real_hardware() {
    // Pins the raw OAM byte order (fullsnes: byte 0 = X low 8 bits,
    // byte 1 = Y). The renderer used to read these swapped, which
    // transposed every sprite around the screen diagonal AND painted a
    // permanent garbage column at x=240: sprites parked offscreen with
    // Y=$F0 were drawn at X=240 with Y = whatever stale X they had.
    // Deliberately uses X != Y and an asymmetric assertion so a swap
    // cannot pass.
    let mut vram = Vram::new();
    for y in 0..8u16 {
        vram.write(y * 2, 0xFF); // tile 0: all pixels value 1
    }
    let mut cgram = Cgram::new();
    cgram.write(129 * 2, 0xFF);
    cgram.write(129 * 2 + 1, 0x7F);
    let mut oam = Oam::new();
    for s in 0..128u16 {
        oam.write(s * 4 + 1, 240); // park everything: Y byte = 240
    }
    // Sprite 0 raw bytes: [X=200, Y=50, tile=0, attr=0].
    oam.write(0, 200);
    oam.write(1, 50);
    oam.write(2, 0);
    oam.write(3, 0);
    oam.write(512, 0);

    let mut regs = PpuRegisters::default();
    regs.inidisp = 0x0F;
    regs.obsel = 0;
    regs.tm = 0x10;

    let fb = render_frame(&vram, &cgram, &oam, &regs);
    let at = |x: usize, y: usize| (fb[(y * SCREEN_WIDTH + x) * 4], fb[(y * SCREEN_WIDTH + x) * 4 + 1]) != (0, 0);
    assert!(
        at(200, 50),
        "raw OAM [200, 50] must place the sprite at X=200, Y=50"
    );
    assert!(
        !at(50, 200),
        "the transposed position must stay empty -- byte 0 is X, not Y"
    );
    // The parked sprites (Y byte = 240) must not paint anything at the
    // right edge -- the old swap drew them all in a column at x=240.
    for y in 0..SCREEN_HEIGHT {
        for x in 240..SCREEN_WIDTH {
            if y == 50 && x >= 200 {
                continue; // (not reachable: sprite spans 200-207)
            }
            assert!(
                !at(x, y),
                "parked sprite leaked to ({}, {}) -- Y=240 must keep it offscreen",
                x,
                y
            );
        }
    }
}

#[test]
fn sprites_sprite_range_limit_drops_the_33rd_sprite_on_a_line_and_flags_stat77() {
    // Hardware evaluates at most 32 sprites per scanline; a 33rd
    // in-range sprite is not drawn and sets STAT77 bit 6 (range over).
    let (vram, cgram, regs) = single_pixel_sprite_setup();
    let oam = oam_with_sprite_row(33, 7, false); // all 33 share lines 10-17
    let lines = vec![regs; SCREEN_HEIGHT];
    let (fb, flags) = render_frame_per_scanline_with_status(&vram, &cgram, &oam, &lines);

    let drawn = (10 * SCREEN_WIDTH) * 4; // sprite 0's pixel at (0,10)
    assert_ne!((fb[drawn], fb[drawn + 1], fb[drawn + 2]), (0, 0, 0), "sprite 0 must render");
    let dropped = (10 * SCREEN_WIDTH + 32 * 7) * 4; // sprite 32's pixel
    assert_eq!(
        (fb[dropped], fb[dropped + 1], fb[dropped + 2]),
        (0, 0, 0),
        "the 33rd sprite on the line must be dropped by the range limit"
    );
    assert_ne!(flags & 0x40, 0, "STAT77 range-over flag must be set");
    assert_eq!(flags & 0x80, 0, "33 8x8 sprites = 32 evaluated tiles: no time-over");
}

#[test]
fn sprites_sprite_tile_budget_drops_sprites_past_34_tiles_and_flags_time_over() {
    // 18 sprites of 16x16 = 2 tiles each on one line: the first 17
    // consume the full 34-tile budget, the 18th is dropped and STAT77
    // bit 7 (time over) sets.
    let (vram, cgram, regs) = single_pixel_sprite_setup();
    let oam = oam_with_sprite_row(18, 14, true);
    let lines = vec![regs; SCREEN_HEIGHT];
    let (fb, flags) = render_frame_per_scanline_with_status(&vram, &cgram, &oam, &lines);

    let drawn = (10 * SCREEN_WIDTH) * 4;
    assert_ne!((fb[drawn], fb[drawn + 1], fb[drawn + 2]), (0, 0, 0), "sprite 0 must render");
    let dropped = (10 * SCREEN_WIDTH + 17 * 14) * 4; // sprite 17's top-left pixel
    assert_eq!(
        (fb[dropped], fb[dropped + 1], fb[dropped + 2]),
        (0, 0, 0),
        "the sprite past the 34-tile budget must be dropped"
    );
    assert_ne!(flags & 0x80, 0, "STAT77 time-over flag must be set");
}

#[test]
fn sprites_first_sprite_rotation_changes_which_sprite_wins_overlaps() {
    // With $2103 bit 7 priority rotation, evaluation (and overlap
    // priority) starts at FirstSprite instead of sprite 0.
    let (vram, mut cgram, mut regs) = single_pixel_sprite_setup();
    // Sprite 1 uses OBJ palette 1 so the two sprites are colorimetrically
    // distinguishable (CGRAM 128 + 16 + 1 = 145).
    cgram.write(145 * 2, 0x1F);
    cgram.write(145 * 2 + 1, 0x00);

    let mut oam = oam_empty();
    for i in 0..2u16 {
        oam.write(i * 4, 20); // both at (20, 10)
        oam.write(i * 4 + 1, 10);
        oam.write(i * 4 + 2, 0);
        oam.write(i * 4 + 3, if i == 1 { 0b0000_0010 } else { 0 }); // sprite 1: palette 1
    }
    for i in 2..128u16 {
        oam.write(i * 4 + 1, 0xF0);
    }

    let idx = (10 * SCREEN_WIDTH + 20) * 4;
    let fb = render_frame(&vram, &cgram, &oam, &regs);
    let sprite0_color = bgr555_to_rgb8(cgram.read_color(129));
    assert_eq!((fb[idx], fb[idx + 1], fb[idx + 2]), sprite0_color, "FirstSprite 0: sprite 0 wins the overlap");

    regs.first_sprite = 1;
    let fb = render_frame(&vram, &cgram, &oam, &regs);
    let sprite1_color = bgr555_to_rgb8(cgram.read_color(145));
    assert_eq!((fb[idx], fb[idx + 1], fb[idx + 2]), sprite1_color, "FirstSprite 1: sprite 1 now has the highest priority");
}

#[test]
fn windows_window1_masks_bg1_inside_its_range_when_enabled_via_tmw() {
    let (vram, cgram, mut regs) = solid_bg1_setup();
    // Window 1 covers X 10-20; enable it for BG1 (W12SEL bit 1) and
    // apply on the main screen (TMW bit 0).
    regs.wh0 = 10;
    regs.wh1 = 20;
    regs.w12sel = 0x02;
    regs.tmw = 0x01;

    let fb = render_frame(&vram, &cgram, &oam_empty(), &regs);
    let red = bgr555_to_rgb8(cgram.read_color(1));
    let backdrop = bgr555_to_rgb8(cgram.read_color(0));

    let at = |x: usize| { let i = x * 4; (fb[i], fb[i + 1], fb[i + 2]) };
    assert_eq!(at(5), red, "outside the window the layer draws normally");
    assert_eq!(at(15), backdrop, "inside the window the layer must be masked out");
    assert_eq!(at(25), red, "past the window's right edge the layer draws again");
}

#[test]
fn windows_window1_invert_masks_outside_instead() {
    let (vram, cgram, mut regs) = solid_bg1_setup();
    regs.wh0 = 10;
    regs.wh1 = 20;
    regs.w12sel = 0x03; // W1 enable + invert for BG1
    regs.tmw = 0x01;

    let fb = render_frame(&vram, &cgram, &oam_empty(), &regs);
    let red = bgr555_to_rgb8(cgram.read_color(1));
    let backdrop = bgr555_to_rgb8(cgram.read_color(0));

    let at = |x: usize| { let i = x * 4; (fb[i], fb[i + 1], fb[i + 2]) };
    assert_eq!(at(15), red, "inverted window leaves the in-range region visible");
    assert_eq!(at(5), backdrop, "inverted window masks everything out of range");
}

#[test]
fn windows_two_windows_combine_with_or_logic() {
    let (vram, cgram, mut regs) = solid_bg1_setup();
    regs.wh0 = 10;
    regs.wh1 = 20; // W1: 10-20
    regs.wh2 = 30;
    regs.wh3 = 40; // W2: 30-40
    regs.w12sel = 0x0A; // W1 enable + W2 enable for BG1, no inverts
    regs.wbglog = 0x00; // OR
    regs.tmw = 0x01;

    let fb = render_frame(&vram, &cgram, &oam_empty(), &regs);
    let red = bgr555_to_rgb8(cgram.read_color(1));
    let backdrop = bgr555_to_rgb8(cgram.read_color(0));

    let at = |x: usize| { let i = x * 4; (fb[i], fb[i + 1], fb[i + 2]) };
    assert_eq!(at(15), backdrop, "inside W1 masked");
    assert_eq!(at(35), backdrop, "inside W2 masked");
    assert_eq!(at(25), red, "between the windows stays visible under OR");
}

#[test]
fn windows_window_without_tmw_bit_does_not_mask() {
    let (vram, cgram, mut regs) = solid_bg1_setup();
    regs.wh0 = 10;
    regs.wh1 = 20;
    regs.w12sel = 0x02; // window enabled for BG1...
    regs.tmw = 0x00; // ...but not applied to the main screen

    let fb = render_frame(&vram, &cgram, &oam_empty(), &regs);
    let red = bgr555_to_rgb8(cgram.read_color(1));
    let i = 15 * 4;
    assert_eq!((fb[i], fb[i + 1], fb[i + 2]), red,
        "a window that isn't enabled in TMW must not mask the main screen");
}

#[test]
fn windows_color_window_forces_main_screen_black_in_region() {
    let (vram, cgram, mut regs) = solid_bg1_setup();
    // Color window shape: W1 10-20 via WOBJSEL's high nibble (bit 5 =
    // W1 enable for the color window).
    regs.wh0 = 10;
    regs.wh1 = 20;
    regs.wobjsel = 0x20;
    regs.cgwsel = 0x80; // clip-to-black mode 2: inside the window

    let fb = render_frame(&vram, &cgram, &oam_empty(), &regs);
    let red = bgr555_to_rgb8(cgram.read_color(1));

    let at = |x: usize| { let i = x * 4; (fb[i], fb[i + 1], fb[i + 2]) };
    assert_eq!(at(5), red, "outside the color window the pixel is untouched");
    assert_eq!(at(15), (0, 0, 0), "inside the color window the main screen must be black");
}

#[test]
fn renderer_sprite_size_pair_codes_6_and_7_are_non_square() {
    // OBSEL size-pair codes 6 and 7 are the two undocumented,
    // non-square pairs. An earlier version approximated both as
    // square (16x16/32x32), which is wrong for the "large" size of
    // code 6 (real hardware: 32x64) and for the "small" size of both
    // codes (real hardware: 16x32, not 16x16). Values cross-checked
    // against the SNESdev wiki PPU registers page and fullsnes's
    // OBJSEL OBJ Size table, which agree exactly:
    //   code 6: small 16x32, large 32x64
    //   code 7: small 16x32, large 32x32
    let (small6, large6) = sprite_size_pair(6);
    assert_eq!(small6, (16, 32), "code 6 small size must be 16x32, not square 16x16");
    assert_eq!(large6, (32, 64), "code 6 large size must be 32x64, not square 32x32");

    let (small7, large7) = sprite_size_pair(7);
    assert_eq!(small7, (16, 32), "code 7 small size must be 16x32, not square 16x16");
    assert_eq!(large7, (32, 32), "code 7 large size is genuinely square 32x32");
}

#[test]
fn renderer_tile_decode_uses_row_interleaved_snes_bitplane_layout() {
    // Pins the REAL SNES tile byte layout with hand-written raw bytes
    // (deliberately NOT built via make_2bpp_tile, so this test cannot
    // become self-consistently wrong alongside the encoder again).
    // 2bpp row-interleaved: byte 0 = row0 plane0, byte 1 = row0 plane1.
    let mut vram = Vram::new();
    vram.write(0, 0b1111_0000); // row 0, plane 0
    vram.write(1, 0b0000_1111); // row 0, plane 1
    vram.write(2, 0b1000_0001); // row 1, plane 0
    vram.write(3, 0b1000_0000); // row 1, plane 1

    let row0 = decode_tile_row(&vram, 0, 0, 2, 0);
    assert_eq!(row0, [1, 1, 1, 1, 2, 2, 2, 2],
        "row 0 must combine byte0 (plane0) and byte1 (plane1)");
    let row1 = decode_tile_row(&vram, 0, 0, 2, 1);
    assert_eq!(row1, [3, 0, 0, 0, 0, 0, 0, 1],
        "row 1 must come from bytes 2/3 (row-interleaved), not bytes 1/9 (planar)");

    // 4bpp: second bitplane pair starts 16 bytes in; its two planes
    // are also row-interleaved and contribute pixel bits 2/3.
    let mut vram4 = Vram::new();
    vram4.write(0, 0xFF); // row 0, plane 0
    vram4.write(16, 0xFF); // row 0, plane 2
    vram4.write(17, 0xFF); // row 0, plane 3
    let row0_4bpp = decode_tile_row(&vram4, 0, 0, 4, 0);
    assert_eq!(row0_4bpp, [0x0D; 8],
        "4bpp planes 0/2/3 set -> pixel value 0b1101 for every pixel of row 0");
}

#[test]
fn renderer_forced_blank_renders_solid_black() {
    let vram = Vram::new();
    let cgram = Cgram::new();
    let oam = Oam::new();
    let mut regs = PpuRegisters::default();
    regs.inidisp = 0x80;

    let fb = render_frame(&vram, &cgram, &oam, &regs);
    assert_eq!(fb.len(), SCREEN_WIDTH * SCREEN_HEIGHT * 4);
    assert!(fb.chunks_exact(4).all(|px| px == [0, 0, 0, 0xFF]));
}

#[test]
fn renderer_bgr555_to_rgb8_matches_known_values() {
    // Pure red (R=31,G=0,B=0) -> (255,0,0) after 5->8 bit expansion.
    assert_eq!(bgr555_to_rgb8(0x001F), (255, 0, 0));
    // Pure green (G=31) -> (0,255,0).
    assert_eq!(bgr555_to_rgb8(0x03E0), (0, 255, 0));
    // Pure blue (B=31) -> (0,0,255).
    assert_eq!(bgr555_to_rgb8(0x7C00), (0, 0, 255));
    // Black.
    assert_eq!(bgr555_to_rgb8(0x0000), (0, 0, 0));
}

#[test]
fn renderer_mode1_bg1_tile_renders_with_correct_palette_colors() {
    let mut vram = Vram::new();
    let mut cgram = Cgram::new();
    let oam = Oam::new();

    // A 4bpp tile needs 2 bitplane pairs (32 bytes); use only pixel
    // values 0 (transparent) and 1 so a single 2bpp pair suffices and
    // the second pair (all zero) contributes nothing.
    let mut tile_row0 = [0u8; 8];
    tile_row0[0] = 1; // first pixel uses palette index 1
    let tile = make_2bpp_tile([tile_row0, [0; 8], [0; 8], [0; 8], [0; 8], [0; 8], [0; 8], [0; 8]]);
    // Tile data base word 0 -> byte 0. Tile index 0.
    for (i, &b) in tile.iter().enumerate() {
        vram.write(i as u16, b);
    }

    // Tilemap base word 0x400 (so it doesn't overlap tile data).
    // Map entry 0 (top-left tile) = tile index 0, palette 0, no flip.
    vram.write_word(0x400 * 2, 0x0000);

    // CGRAM color for BG palette 0, pixel index 1 -> entry 1 -> pure
    // red.
    cgram.write(1 * 2, 0xFF);
    cgram.write(1 * 2 + 1, 0x7F); // low byte 0xFF, high byte 0x7F -> 0x7FFF -> R=31,G=31,B=31? recompute below

    let mut regs = PpuRegisters::default();
    regs.inidisp = 0x0F; // not forced blank, full brightness
    regs.bgmode = 1; // BG1 = 4bpp
    regs.bg_sc[0] = 0x04; // tilemap base = (0x04>>2)*0x400 = 0x400, size 32x32
    regs.bg12nba = 0x00; // BG1 tile data base = 0
    regs.tm = 0x01; // enable BG1 only

    let fb = render_frame(&vram, &cgram, &oam, &regs);
    let expected = bgr555_to_rgb8(cgram.read_color(1));
    let idx = 0; // pixel (0,0)
    assert_eq!((fb[idx], fb[idx + 1], fb[idx + 2]), expected);
    assert_eq!(fb[idx + 3], 0xFF);

    // A pixel using value 0 elsewhere in the same tile must show the
    // backdrop color (CGRAM index 0), not the tile's palette color.
    let backdrop = bgr555_to_rgb8(cgram.read_color(0));
    let idx2 = (1) * 4; // pixel (1,0), tile pixel value 0
    assert_eq!((fb[idx2], fb[idx2 + 1], fb[idx2 + 2]), backdrop);
}

#[test]
fn renderer_sprite_renders_at_its_oam_position_with_object_palette() {
    let mut vram = Vram::new();
    let mut cgram = Cgram::new();
    let mut oam = Oam::new();

    // 4bpp tile, single pixel value 1 at (0,0), rest transparent.
    let mut tile_row0 = [0u8; 8];
    tile_row0[0] = 1;
    let tile = make_2bpp_tile([tile_row0, [0; 8], [0; 8], [0; 8], [0; 8], [0; 8], [0; 8], [0; 8]]);
    for (i, &b) in tile.iter().enumerate() {
        vram.write(i as u16, b);
    }

    // Sprite 0: X=20, Y=10, tile=0, palette=0, no flip, small size.
    // Raw OAM byte order per fullsnes: byte 0 = X, byte 1 = Y (an
    // earlier renderer read these swapped, and this test encoded the
    // same swapped order, so it kept passing).
    oam.write(0, 20); // X
    oam.write(1, 10); // Y
    oam.write(2, 0); // tile
    oam.write(3, 0x00); // attrs: palette 0
    oam.write(512, 0x00); // high table byte for sprites 0-3: X high bit 0, size 0

    // Object palette 0, pixel index 1 -> CGRAM index 128 + 1 = 129.
    cgram.write(129 * 2, 0xE0); // arbitrary nonzero BGR555 low byte
    cgram.write(129 * 2 + 1, 0x03);

    let mut regs = PpuRegisters::default();
    regs.inidisp = 0x0F;
    regs.obsel = 0x00; // size pair 0 (8x8/16x16), tile base word 0
    regs.tm = 0x10; // enable sprites only

    let fb = render_frame(&vram, &cgram, &oam, &regs);
    let expected = bgr555_to_rgb8(cgram.read_color(129));
    let idx = (10 * SCREEN_WIDTH + 20) * 4;
    assert_eq!((fb[idx], fb[idx + 1], fb[idx + 2]), expected);
}

#[test]
fn renderer_obsel_and_oam_attributes_decode_per_real_hardware_bit_layout() {
    // Regression guard for two systematically-swapped decodes that
    // made every sprite unrecognizable mush: OBSEL's base address is
    // bits 0-2 (NOT 5-7, which are the size pair), and the OAM
    // attribute byte is `vhoopppN` (palette in bits 1-3, flips in
    // bits 6-7, tile bit 8 in bit 0 -- NOT palette 0-2 / flips 5-6).
    let mut vram = Vram::new();
    let mut cgram = Cgram::new();
    let mut oam = Oam::new();

    // OBJ tile base = OBSEL bits 0-2 = 1 -> word 0x2000 -> byte 0x4000.
    // Tile 0 there: pixel value 1 at (0,0), rest transparent.
    let mut tile_row0 = [0u8; 8];
    tile_row0[0] = 1;
    let tile = make_2bpp_tile([tile_row0, [0; 8], [0; 8], [0; 8], [0; 8], [0; 8], [0; 8], [0; 8]]);
    for (i, &b) in tile.iter().enumerate() {
        vram.write(0x4000 + i as u16, b);
    }
    // The SECOND tile table (tiles 256-511) for OBSEL base 1, name 0
    // sits at word 0x2000 + 0x1000 = 0x3000 -> byte 0x6000. Its tile 0
    // (= sprite tile number 0x100): pixel value 1 at (1,0).
    let mut tile2_row0 = [0u8; 8];
    tile2_row0[1] = 1;
    let tile2 = make_2bpp_tile([tile2_row0, [0; 8], [0; 8], [0; 8], [0; 8], [0; 8], [0; 8], [0; 8]]);
    for (i, &b) in tile2.iter().enumerate() {
        vram.write(0x6000 + i as u16, b);
    }

    // Sprite 0 at (20,10), tile 0, attrs = palette 1 (bits 1-3).
    // (raw byte order: byte 0 = X, byte 1 = Y)
    oam.write(0, 20);
    oam.write(1, 10);
    oam.write(2, 0);
    oam.write(3, 0b0000_0010); // palette 1
    oam.write(512, 0x00);
    // Sprite 1 at (40,10), tile bit8 set via attr bit 0 -> tile 0x100
    // from the second table, palette 0, H-FLIP via bit 6.
    oam.write(4, 40);
    oam.write(5, 10);
    oam.write(6, 0);
    oam.write(7, 0b0100_0001); // hflip + tile bit 8
    // (sprite 1 shares high-table byte 512; both X high bits 0, small size)

    // OBJ palette 1, index 1 -> CGRAM 128 + 16 + 1 = 145.
    cgram.write(145 * 2, 0x1F);
    cgram.write(145 * 2 + 1, 0x00);
    // OBJ palette 0, index 1 -> CGRAM 129.
    cgram.write(129 * 2, 0xE0);
    cgram.write(129 * 2 + 1, 0x03);

    let mut regs = PpuRegisters::default();
    regs.inidisp = 0x0F;
    regs.obsel = 0x01; // size pair 0 (8x8), name 0, BASE = word 0x2000
    regs.tm = 0x10;

    let fb = render_frame(&vram, &cgram, &oam, &regs);

    // Sprite 0's pixel must use OBJ palette 1 (CGRAM 145).
    let expected_pal1 = bgr555_to_rgb8(cgram.read_color(145));
    let i0 = (10 * SCREEN_WIDTH + 20) * 4;
    assert_eq!((fb[i0], fb[i0 + 1], fb[i0 + 2]), expected_pal1,
        "attr bits 1-3 must select the OBJ palette");

    // Sprite 1: tile 0x100 comes from the second table; its source
    // pixel at x=1 lands at x = 7-1 = 6 after the H-flip (attr bit 6).
    let expected_pal0 = bgr555_to_rgb8(cgram.read_color(129));
    let i1 = (10 * SCREEN_WIDTH + 40 + 6) * 4;
    assert_eq!((fb[i1], fb[i1 + 1], fb[i1 + 2]), expected_pal0,
        "attr bit 0 must select the second tile table and bit 6 must H-flip");
}

#[test]
fn renderer_large_sprite_tile_column_wraps_within_low_nibble() {
    // Regression guard for the multi-tile sprite tile-number bug: the
    // column component must wrap WITHIN the tile number's low nibble,
    // not carry into the row/table bits. Base tile 0x0E plus a column
    // offset of 3 (the 4th 8x8 cell of a 32x32 sprite) must land on
    // tile (0x0E + 3) & 0x0F = 0x01, NOT the unwrapped 0x0E + 3 = 0x11.
    let mut vram = Vram::new();
    let mut cgram = Cgram::new();
    let mut oam = Oam::new();

    // Tile index 1 (the CORRECT wrapped target): pixel value 1 at (0,0).
    let mut tile1_row0 = [0u8; 8];
    tile1_row0[0] = 1;
    let tile1 = make_2bpp_tile([tile1_row0, [0; 8], [0; 8], [0; 8], [0; 8], [0; 8], [0; 8], [0; 8]]);
    for (i, &b) in tile1.iter().enumerate() {
        vram.write(1 * 32 + i as u16, b); // 4bpp tile 1 starts at byte 32
    }
    // Tile index 0x11 = 17 (the WRONG unwrapped target) is left all
    // zero/transparent, so if the bug regresses the sprite pixel
    // silently disappears instead of showing the wrong graphics.

    // Sprite 0 at (20,10), base tile 0x0E, palette 0, no flip.
    // (raw byte order: byte 0 = X, byte 1 = Y)
    oam.write(0, 20); // X
    oam.write(1, 10); // Y
    oam.write(2, 0x0E); // tile low byte
    oam.write(3, 0x00); // attrs: palette 0, no flip, tile bit 8 = 0
    // Secondary OAM byte for sprites 0-3: sprite 0's size bit (bit 1)
    // set -> large size; X high bit (bit 0) clear.
    oam.write(512, 0x02);

    // OBJ palette 0, pixel index 1 -> CGRAM 128 + 1 = 129.
    cgram.write(129 * 2, 0x1F);
    cgram.write(129 * 2 + 1, 0x00);

    let mut regs = PpuRegisters::default();
    regs.inidisp = 0x0F;
    regs.obsel = 0x20; // size-pair code 1 (8x8/32x32), tile base word 0
    regs.tm = 0x10; // enable sprites only

    let fb = render_frame(&vram, &cgram, &oam, &regs);

    // Screen pixel for sprite-local (tx=24, ty=0) -> tile_row_idx=0,
    // tile_col_idx=3 -> must read wrapped tile index 1.
    let expected = bgr555_to_rgb8(cgram.read_color(129));
    let idx = (10 * SCREEN_WIDTH + 20 + 24) * 4;
    assert_eq!((fb[idx], fb[idx + 1], fb[idx + 2]), expected,
        "column offset must wrap within the tile number's low nibble, not carry into higher bits");
}

#[test]
fn renderer_per_scanline_register_bands_render_each_row_with_its_own_state() {
    // The banded renderer must apply each scanline's captured register
    // state to that scanline only -- this is what makes SMW's
    // IRQ-driven status-bar split (different BG3 scroll above/below
    // the bar) and HDMA effects renderable at all with a
    // snapshot-based renderer.
    let mut vram = Vram::new();
    let mut cgram = Cgram::new();
    let oam = Oam::new();

    // Solid 4bpp-compatible tile (value 1) as tile 1 (tile 0 stays
    // all-transparent, since the zero-filled tilemap references it
    // everywhere); only map entry (0,0) uses the solid tile, so it is
    // visible exactly when hofs/vofs = 0.
    let solid = make_2bpp_tile([[1u8; 8]; 8]);
    for (i, &b) in solid.iter().enumerate() {
        vram.write(32 + i as u16, b); // 4bpp tile 1 starts at byte 32
    }
    vram.write_word(0x400 * 2, 0x0001);
    cgram.write(2, 0x1F); // CGRAM 1 = red
    cgram.write(3, 0x00);

    let mut top = PpuRegisters::default();
    top.inidisp = 0x0F;
    top.bgmode = 1;
    top.bg_sc[0] = 0x04; // tilemap word 0x400, 32x32
    top.tm = 0x01;

    let mut bottom = top;
    bottom.bg_hofs[0] = 64; // scroll the tile out of view below the split

    let mut lines = vec![top; SCREEN_HEIGHT];
    for line in lines.iter_mut().skip(4) {
        *line = bottom;
    }

    let fb = render_frame_per_scanline(&vram, &cgram, &oam, &lines);
    let red = bgr555_to_rgb8(cgram.read_color(1));
    let backdrop = bgr555_to_rgb8(cgram.read_color(0));

    // Row 2 (above the split): tile pixel visible at x=0.
    let above = (2 * SCREEN_WIDTH) * 4;
    assert_eq!((fb[above], fb[above + 1], fb[above + 2]), red,
        "rows before the split must use the first band's scroll");
    // Row 6 (below the split): the tile is scrolled away, backdrop shows.
    let below = (6 * SCREEN_WIDTH) * 4;
    assert_eq!((fb[below], fb[below + 1], fb[below + 2]), backdrop,
        "rows after the split must use the second band's scroll");
}

#[test]
fn renderer_color_math_add_half_with_fixed_color_blends_the_backdrop() {
    // The regression this whole subscreen/color-math path fixes:
    // layers that real hardware only shows blended (SMW's title
    // background) used to render as harsh, fully-opaque tile noise
    // because color math was ignored entirely. Here the backdrop
    // (CGRAM 0) is the only thing on screen, color math is enabled for
    // the backdrop layer (CGADSUB bit 5) in add+half mode against a
    // fixed COLDATA color, and the output pixel must be the blended
    // result, not the raw backdrop.
    let vram = Vram::new();
    let mut cgram = Cgram::new();
    let oam = Oam::new();

    // Backdrop (CGRAM index 0) = BGR555 (r=10, g=20, b=0) = 0x028A.
    let backdrop_color: u16 = 10 | (20 << 5);
    cgram.write(0, (backdrop_color & 0xFF) as u8);
    cgram.write(1, (backdrop_color >> 8) as u8);

    let mut regs = PpuRegisters::default();
    regs.inidisp = 0x0F; // full brightness, not blanked
    regs.bgmode = 1;
    regs.tm = 0x00; // nothing on the main screen except the backdrop
    // Color math: enable on backdrop (bit5), add (bit7=0), half (bit6).
    regs.cgadsub = 0x20 | 0x40;
    regs.cgwsel = 0x00; // blend with fixed COLDATA, not the subscreen
    // Fixed color = BGR555 (r=6, g=4, b=0).
    regs.coldata = 6 | (4 << 5);

    // Expected: per channel (backdrop + fixed) >> 1, clamped 0..31.
    let er = (10 + 6) >> 1; // 8
    let eg = (20 + 4) >> 1; // 12
    let eb = (0 + 0) >> 1; // 0
    let expected = bgr555_to_rgb8((er as u16) | ((eg as u16) << 5) | ((eb as u16) << 10));

    let fb = render_frame(&vram, &cgram, &oam, &regs);
    assert_eq!((fb[0], fb[1], fb[2]), expected,
        "backdrop must be color-math-blended with the fixed color (add, half)");

    // With color math disabled, the same pixel must be the raw backdrop.
    regs.cgadsub = 0x00;
    let fb2 = render_frame(&vram, &cgram, &oam, &regs);
    let raw = bgr555_to_rgb8(backdrop_color);
    assert_eq!((fb2[0], fb2[1], fb2[2]), raw,
        "with color math off, the backdrop must render unmodified");
}

#[test]
fn renderer_oam_entry_byte_order_is_x_then_y_per_real_hardware() {
    // Pins the raw OAM byte order (fullsnes: byte 0 = X low 8 bits,
    // byte 1 = Y). The renderer used to read these swapped, which
    // transposed every sprite around the screen diagonal AND painted a
    // permanent garbage column at x=240: sprites parked offscreen with
    // Y=$F0 were drawn at X=240 with Y = whatever stale X they had.
    // Deliberately uses X != Y and an asymmetric assertion so a swap
    // cannot pass.
    let mut vram = Vram::new();
    for y in 0..8u16 {
        vram.write(y * 2, 0xFF); // tile 0: all pixels value 1
    }
    let mut cgram = Cgram::new();
    cgram.write(129 * 2, 0xFF);
    cgram.write(129 * 2 + 1, 0x7F);
    let mut oam = Oam::new();
    for s in 0..128u16 {
        oam.write(s * 4 + 1, 240); // park everything: Y byte = 240
    }
    // Sprite 0 raw bytes: [X=200, Y=50, tile=0, attr=0].
    oam.write(0, 200);
    oam.write(1, 50);
    oam.write(2, 0);
    oam.write(3, 0);
    oam.write(512, 0);

    let mut regs = PpuRegisters::default();
    regs.inidisp = 0x0F;
    regs.obsel = 0;
    regs.tm = 0x10;

    let fb = render_frame(&vram, &cgram, &oam, &regs);
    let at = |x: usize, y: usize| (fb[(y * SCREEN_WIDTH + x) * 4], fb[(y * SCREEN_WIDTH + x) * 4 + 1]) != (0, 0);
    assert!(
        at(200, 50),
        "raw OAM [200, 50] must place the sprite at X=200, Y=50"
    );
    assert!(
        !at(50, 200),
        "the transposed position must stay empty -- byte 0 is X, not Y"
    );
    // The parked sprites (Y byte = 240) must not paint anything at the
    // right edge -- the old swap drew them all in a column at x=240.
    for y in 0..SCREEN_HEIGHT {
        for x in 240..SCREEN_WIDTH {
            if y == 50 && x >= 200 {
                continue; // (not reachable: sprite spans 200-207)
            }
            assert!(
                !at(x, y),
                "parked sprite leaked to ({}, {}) -- Y=240 must keep it offscreen",
                x,
                y
            );
        }
    }
}

#[test]
fn renderer_color_math_exempts_sprites_on_obj_palettes_0_to_3() {
    // Hardware rule (fullsnes "Color Math"): CGADSUB bit 4 enables
    // math only for sprite pixels using OBJ palettes 4-7; palettes 0-3
    // are NEVER blended. Character sprites (Mario, enemies) live on
    // the low palettes precisely so a game can make pal-4-7 effect
    // sprites (bubbles, spotlights) translucent without washing out
    // the actors -- blending everything made characters look wrong
    // anywhere OBJ math was on (e.g. SMW's overworld, CGADSUB=$30).
    let mut vram = Vram::new();
    let mut cgram = Cgram::new();
    let mut oam = Oam::new();

    // One tile, all 64 pixels = value 1.
    let tile = make_2bpp_tile([[1; 8]; 8]);
    for (i, &b) in tile.iter().enumerate() {
        vram.write(i as u16, b);
    }

    // Sprite 0: palette 0 (math-exempt). Sprite 1: palette 4 (blended).
    // Both 8x8, at y=10, x=20 and x=40. (byte 0 = X, byte 1 = Y)
    oam.write(0, 20);
    oam.write(1, 10);
    oam.write(2, 0);
    oam.write(3, 0x00); // palette 0
    oam.write(4, 40);
    oam.write(5, 10);
    oam.write(6, 0);
    oam.write(7, 0x08); // attrs bit3-1 = 100 -> palette 4
    oam.write(512, 0x00);

    // Both palettes' color 1 = the same mid red (r=16).
    let sprite_color: u16 = 16;
    for pal in [0usize, 4] {
        let e = 128 + pal * 16 + 1;
        cgram.write((e * 2) as u16, (sprite_color & 0xFF) as u8);
        cgram.write((e * 2 + 1) as u16, (sprite_color >> 8) as u8);
    }

    let mut regs = PpuRegisters::default();
    regs.inidisp = 0x0F;
    regs.obsel = 0x00;
    regs.tm = 0x10; // sprites only on main
    // Math: enable on OBJ (bit4), add, full. Operand = fixed color,
    // pure green (g=20) so the blended pixel visibly changes.
    regs.cgadsub = 0x10;
    regs.cgwsel = 0x00;
    regs.coldata = 20 << 5;

    let fb = render_frame(&vram, &cgram, &oam, &regs);

    let raw = bgr555_to_rgb8(sprite_color);
    let blended = bgr555_to_rgb8(sprite_color | (20 << 5));
    let pal0_idx = (10 * SCREEN_WIDTH + 20) * 4;
    let pal4_idx = (10 * SCREEN_WIDTH + 40) * 4;
    assert_eq!(
        (fb[pal0_idx], fb[pal0_idx + 1], fb[pal0_idx + 2]),
        raw,
        "a palette-0 sprite pixel must NOT be color-mathed even with CGADSUB bit 4 set"
    );
    assert_eq!(
        (fb[pal4_idx], fb[pal4_idx + 1], fb[pal4_idx + 2]),
        blended,
        "a palette-4 sprite pixel MUST be color-mathed when CGADSUB bit 4 is set"
    );
}

#[test]
fn renderer_mode7_identity_matrix_renders_the_field_one_to_one() {
    let mut vram = Vram::new();
    let mut cgram = Cgram::new();
    let oam = Oam::new();

    // Map entry (0,0) -> tile 1 (low byte of word 0). Everything else
    // stays tile 0 (all-transparent).
    vram.write(0, 0x01);
    write_mode7_tile(&mut vram, 1, 0x25); // tile 1: every pixel = color 0x25

    // CGRAM color 0x25 = pure green.
    cgram.write(0x25 * 2, 0xE0);
    cgram.write(0x25 * 2 + 1, 0x03);

    let mut regs = PpuRegisters::default();
    regs.inidisp = 0x0F;
    regs.bgmode = 7;
    regs.tm = 0x01; // BG1 only
    regs.m7a = 0x0100; // identity matrix (1.0 in 8.8 fixed point)
    regs.m7b = 0x0000;
    regs.m7c = 0x0000;
    regs.m7d = 0x0100;

    let fb = render_frame(&vram, &cgram, &oam, &regs);
    let green = bgr555_to_rgb8(cgram.read_color(0x25));
    let backdrop = bgr555_to_rgb8(cgram.read_color(0));

    // Pixel (0,0) lands inside tile 1's 8x8 area.
    assert_eq!((fb[0], fb[1], fb[2]), green, "identity transform must map screen (0,0) to field (0,0)");
    // Pixel (8,0) is the next map entry (tile 0, transparent) -> backdrop.
    let idx = 8 * 4;
    assert_eq!((fb[idx], fb[idx + 1], fb[idx + 2]), backdrop, "field pixel (8,0) is a transparent tile");
}

#[test]
fn renderer_mode7_scaling_matrix_transforms_coordinates() {
    // A = 2.0 doubles the horizontal step: screen x=4 samples field
    // x=8, so tile 1 at map (0,0) (field x 0-7) must NOT cover screen
    // x=4 when scaled, while an unscaled render would.
    let mut vram = Vram::new();
    let mut cgram = Cgram::new();
    let oam = Oam::new();

    vram.write(0, 0x01);
    write_mode7_tile(&mut vram, 1, 0x25);
    cgram.write(0x25 * 2, 0xE0);
    cgram.write(0x25 * 2 + 1, 0x03);

    let mut regs = PpuRegisters::default();
    regs.inidisp = 0x0F;
    regs.bgmode = 7;
    regs.tm = 0x01;
    regs.m7a = 0x0200; // 2.0: horizontal zoom OUT (field moves 2px per screen px)
    regs.m7b = 0;
    regs.m7c = 0;
    regs.m7d = 0x0100;

    let fb = render_frame(&vram, &cgram, &oam, &regs);
    let green = bgr555_to_rgb8(cgram.read_color(0x25));
    let backdrop = bgr555_to_rgb8(cgram.read_color(0));

    // Screen x=3 -> field x=6 (still inside tile 1's row 0).
    let inside = 3 * 4;
    assert_eq!((fb[inside], fb[inside + 1], fb[inside + 2]), green);
    // Screen x=4 -> field x=8 (tile 0, transparent -> backdrop).
    let outside = 4 * 4;
    assert_eq!((fb[outside], fb[outside + 1], fb[outside + 2]), backdrop,
        "M7A=2.0 must sample field x=8 at screen x=4");
}

#[test]
fn renderer_mode7_screen_over_transparent_vs_wrap() {
    // Point the transform far outside the 1024x1024 field via M7Y and
    // check M7SEL's screen-over modes: wrap (0) shows the field again,
    // transparent (2) shows the backdrop.
    let mut vram = Vram::new();
    let mut cgram = Cgram::new();
    let oam = Oam::new();

    // Fill the WHOLE map with tile 1 so any wrapped coordinate hits it.
    for entry in 0..(128u16 * 128) {
        vram.write(entry * 2, 0x01);
    }
    write_mode7_tile(&mut vram, 1, 0x25);
    cgram.write(0x25 * 2, 0xE0);
    cgram.write(0x25 * 2 + 1, 0x03);

    let mut regs = PpuRegisters::default();
    regs.inidisp = 0x0F;
    regs.bgmode = 7;
    regs.tm = 0x01;
    regs.m7a = 0x0100;
    regs.m7b = 0;
    regs.m7c = 0;
    regs.m7d = 0x0100;
    // Scroll far negative: field y = -1024 + screen y, outside the field.
    regs.m7_vofs = (-1024i16 as u16) & 0x1FFF;

    // Screen-over 0: wrap -> still shows tile 1's color.
    regs.m7sel = 0x00;
    let fb = render_frame(&vram, &cgram, &oam, &regs);
    let green = bgr555_to_rgb8(cgram.read_color(0x25));
    assert_eq!((fb[0], fb[1], fb[2]), green, "screen-over 0 must wrap");

    // Screen-over 2: transparent -> backdrop.
    regs.m7sel = 0x80;
    let fb2 = render_frame(&vram, &cgram, &oam, &regs);
    let backdrop = bgr555_to_rgb8(cgram.read_color(0));
    assert_eq!((fb2[0], fb2[1], fb2[2]), backdrop, "screen-over 2 must render transparent");
}

#[test]
fn renderer_mode7_extbg_splits_bg2_by_pixel_priority_bit() {
    // With SETINI EXTBG, BG2 shows the mode-7 field split by pixel bit
    // 7: high-priority pixels (bit 7 set) draw in FRONT of BG1;
    // low-priority pixels draw behind it. Here BG1 and BG2 are both
    // enabled; the field pixel value 0xA5 has bit 7 set, so BG2's
    // interpretation (color 0x25) must beat BG1's (color 0xA5).
    let mut vram = Vram::new();
    let mut cgram = Cgram::new();
    let oam = Oam::new();

    vram.write(0, 0x01);
    write_mode7_tile(&mut vram, 1, 0xA5); // bit7=1, low 7 bits = 0x25
    cgram.write(0xA5u8 as u16 * 2, 0x1F); // BG1's color: red
    cgram.write(0xA5u8 as u16 * 2 + 1, 0x00);
    cgram.write(0x25 * 2, 0xE0); // BG2's color: green
    cgram.write(0x25 * 2 + 1, 0x03);

    let mut regs = PpuRegisters::default();
    regs.inidisp = 0x0F;
    regs.bgmode = 7;
    regs.tm = 0x03; // BG1 + BG2
    regs.setini = 0x40; // EXTBG
    regs.m7a = 0x0100;
    regs.m7b = 0;
    regs.m7c = 0;
    regs.m7d = 0x0100;

    let fb = render_frame(&vram, &cgram, &oam, &regs);
    let green = bgr555_to_rgb8(cgram.read_color(0x25));
    assert_eq!((fb[0], fb[1], fb[2]), green,
        "an EXTBG pixel with bit 7 set must draw its BG2 slot in front of BG1");
}

#[test]
fn renderer_window1_masks_bg1_inside_its_range_when_enabled_via_tmw() {
    let (vram, cgram, mut regs) = solid_bg1_setup();
    // Window 1 covers X 10-20; enable it for BG1 (W12SEL bit 1) and
    // apply on the main screen (TMW bit 0).
    regs.wh0 = 10;
    regs.wh1 = 20;
    regs.w12sel = 0x02;
    regs.tmw = 0x01;

    let fb = render_frame(&vram, &cgram, &oam_empty(), &regs);
    let red = bgr555_to_rgb8(cgram.read_color(1));
    let backdrop = bgr555_to_rgb8(cgram.read_color(0));

    let at = |x: usize| { let i = x * 4; (fb[i], fb[i + 1], fb[i + 2]) };
    assert_eq!(at(5), red, "outside the window the layer draws normally");
    assert_eq!(at(15), backdrop, "inside the window the layer must be masked out");
    assert_eq!(at(25), red, "past the window's right edge the layer draws again");
}

#[test]
fn renderer_window1_invert_masks_outside_instead() {
    let (vram, cgram, mut regs) = solid_bg1_setup();
    regs.wh0 = 10;
    regs.wh1 = 20;
    regs.w12sel = 0x03; // W1 enable + invert for BG1
    regs.tmw = 0x01;

    let fb = render_frame(&vram, &cgram, &oam_empty(), &regs);
    let red = bgr555_to_rgb8(cgram.read_color(1));
    let backdrop = bgr555_to_rgb8(cgram.read_color(0));

    let at = |x: usize| { let i = x * 4; (fb[i], fb[i + 1], fb[i + 2]) };
    assert_eq!(at(15), red, "inverted window leaves the in-range region visible");
    assert_eq!(at(5), backdrop, "inverted window masks everything out of range");
}

#[test]
fn renderer_two_windows_combine_with_or_logic() {
    let (vram, cgram, mut regs) = solid_bg1_setup();
    regs.wh0 = 10;
    regs.wh1 = 20; // W1: 10-20
    regs.wh2 = 30;
    regs.wh3 = 40; // W2: 30-40
    regs.w12sel = 0x0A; // W1 enable + W2 enable for BG1, no inverts
    regs.wbglog = 0x00; // OR
    regs.tmw = 0x01;

    let fb = render_frame(&vram, &cgram, &oam_empty(), &regs);
    let red = bgr555_to_rgb8(cgram.read_color(1));
    let backdrop = bgr555_to_rgb8(cgram.read_color(0));

    let at = |x: usize| { let i = x * 4; (fb[i], fb[i + 1], fb[i + 2]) };
    assert_eq!(at(15), backdrop, "inside W1 masked");
    assert_eq!(at(35), backdrop, "inside W2 masked");
    assert_eq!(at(25), red, "between the windows stays visible under OR");
}

#[test]
fn renderer_window_without_tmw_bit_does_not_mask() {
    let (vram, cgram, mut regs) = solid_bg1_setup();
    regs.wh0 = 10;
    regs.wh1 = 20;
    regs.w12sel = 0x02; // window enabled for BG1...
    regs.tmw = 0x00; // ...but not applied to the main screen

    let fb = render_frame(&vram, &cgram, &oam_empty(), &regs);
    let red = bgr555_to_rgb8(cgram.read_color(1));
    let i = 15 * 4;
    assert_eq!((fb[i], fb[i + 1], fb[i + 2]), red,
        "a window that isn't enabled in TMW must not mask the main screen");
}

#[test]
fn renderer_color_window_forces_main_screen_black_in_region() {
    let (vram, cgram, mut regs) = solid_bg1_setup();
    // Color window shape: W1 10-20 via WOBJSEL's high nibble (bit 5 =
    // W1 enable for the color window).
    regs.wh0 = 10;
    regs.wh1 = 20;
    regs.wobjsel = 0x20;
    regs.cgwsel = 0x80; // clip-to-black mode 2: inside the window

    let fb = render_frame(&vram, &cgram, &oam_empty(), &regs);
    let red = bgr555_to_rgb8(cgram.read_color(1));

    let at = |x: usize| { let i = x * 4; (fb[i], fb[i + 1], fb[i + 2]) };
    assert_eq!(at(5), red, "outside the color window the pixel is untouched");
    assert_eq!(at(15), (0, 0, 0), "inside the color window the main screen must be black");
}

#[test]
fn renderer_sprite_range_limit_drops_the_33rd_sprite_on_a_line_and_flags_stat77() {
    // Hardware evaluates at most 32 sprites per scanline; a 33rd
    // in-range sprite is not drawn and sets STAT77 bit 6 (range over).
    let (vram, cgram, regs) = single_pixel_sprite_setup();
    let oam = oam_with_sprite_row(33, 7, false); // all 33 share lines 10-17
    let lines = vec![regs; SCREEN_HEIGHT];
    let (fb, flags) = render_frame_per_scanline_with_status(&vram, &cgram, &oam, &lines);

    let drawn = (10 * SCREEN_WIDTH) * 4; // sprite 0's pixel at (0,10)
    assert_ne!((fb[drawn], fb[drawn + 1], fb[drawn + 2]), (0, 0, 0), "sprite 0 must render");
    let dropped = (10 * SCREEN_WIDTH + 32 * 7) * 4; // sprite 32's pixel
    assert_eq!(
        (fb[dropped], fb[dropped + 1], fb[dropped + 2]),
        (0, 0, 0),
        "the 33rd sprite on the line must be dropped by the range limit"
    );
    assert_ne!(flags & 0x40, 0, "STAT77 range-over flag must be set");
    assert_eq!(flags & 0x80, 0, "33 8x8 sprites = 32 evaluated tiles: no time-over");
}

#[test]
fn renderer_sprite_tile_budget_drops_sprites_past_34_tiles_and_flags_time_over() {
    // 18 sprites of 16x16 = 2 tiles each on one line: the first 17
    // consume the full 34-tile budget, the 18th is dropped and STAT77
    // bit 7 (time over) sets.
    let (vram, cgram, regs) = single_pixel_sprite_setup();
    let oam = oam_with_sprite_row(18, 14, true);
    let lines = vec![regs; SCREEN_HEIGHT];
    let (fb, flags) = render_frame_per_scanline_with_status(&vram, &cgram, &oam, &lines);

    let drawn = (10 * SCREEN_WIDTH) * 4;
    assert_ne!((fb[drawn], fb[drawn + 1], fb[drawn + 2]), (0, 0, 0), "sprite 0 must render");
    let dropped = (10 * SCREEN_WIDTH + 17 * 14) * 4; // sprite 17's top-left pixel
    assert_eq!(
        (fb[dropped], fb[dropped + 1], fb[dropped + 2]),
        (0, 0, 0),
        "the sprite past the 34-tile budget must be dropped"
    );
    assert_ne!(flags & 0x80, 0, "STAT77 time-over flag must be set");
}

#[test]
fn renderer_first_sprite_rotation_changes_which_sprite_wins_overlaps() {
    // With $2103 bit 7 priority rotation, evaluation (and overlap
    // priority) starts at FirstSprite instead of sprite 0.
    let (vram, mut cgram, mut regs) = single_pixel_sprite_setup();
    // Sprite 1 uses OBJ palette 1 so the two sprites are colorimetrically
    // distinguishable (CGRAM 128 + 16 + 1 = 145).
    cgram.write(145 * 2, 0x1F);
    cgram.write(145 * 2 + 1, 0x00);

    let mut oam = oam_empty();
    for i in 0..2u16 {
        oam.write(i * 4, 20); // both at (20, 10)
        oam.write(i * 4 + 1, 10);
        oam.write(i * 4 + 2, 0);
        oam.write(i * 4 + 3, if i == 1 { 0b0000_0010 } else { 0 }); // sprite 1: palette 1
    }
    for i in 2..128u16 {
        oam.write(i * 4 + 1, 0xF0);
    }

    let idx = (10 * SCREEN_WIDTH + 20) * 4;
    let fb = render_frame(&vram, &cgram, &oam, &regs);
    let sprite0_color = bgr555_to_rgb8(cgram.read_color(129));
    assert_eq!((fb[idx], fb[idx + 1], fb[idx + 2]), sprite0_color, "FirstSprite 0: sprite 0 wins the overlap");

    regs.first_sprite = 1;
    let fb = render_frame(&vram, &cgram, &oam, &regs);
    let sprite1_color = bgr555_to_rgb8(cgram.read_color(145));
    assert_eq!((fb[idx], fb[idx + 1], fb[idx + 2]), sprite1_color, "FirstSprite 1: sprite 1 now has the highest priority");
}

#[test]
fn renderer_offset_per_tile_mode2_overrides_bg1_h_scroll_per_column() {
    // Mode 2: BG3's tilemap supplies per-8-pixel-column scroll
    // overrides. Column 0 always uses the normal scroll; column 1's
    // override entry (BG3 map tile (0,0)) redirects BG1's horizontal
    // offset so the solid tile at world column 0 repeats there;
    // column 2 has no valid override and stays at the normal scroll.
    let mut vram = Vram::new();
    let mut cgram = Cgram::new();

    // BG1 4bpp tile 1: solid pixel value 1 (plane 0 = 0xFF each row).
    for row in 0..8u16 {
        vram.write(32 + row * 2, 0xFF);
    }
    // BG1 tilemap at word 0x400: tile 1 at map position (0,0) only.
    vram.write(0x800, 0x01);
    vram.write(0x801, 0x00);
    // BG3 tilemap at word 0x800: OPT entry for screen column 1 --
    // valid-for-BG1 (bit 13) + H offset 0x3F8 (walks the sample back
    // to world column 0: 8 + 1016 wraps to tile 0 of the 256-wide map).
    vram.write(0x1000, 0xF8);
    vram.write(0x1001, 0x23);

    cgram.write(1 * 2, 0xE0); // BG palette 0, pixel 1
    cgram.write(1 * 2 + 1, 0x03);

    let mut regs = PpuRegisters::default();
    regs.inidisp = 0x0F;
    regs.bgmode = 2;
    regs.tm = 0x01; // BG1 only
    regs.bg_sc[0] = 0x04; // BG1 tilemap base word 0x400
    regs.bg_sc[2] = 0x08; // BG3 tilemap base word 0x800 (the OPT table)

    let fb = render_frame(&vram, &cgram, &oam_empty(), &regs);
    let color = bgr555_to_rgb8(cgram.read_color(1));
    let px = |x: usize| {
        let i = (0 * SCREEN_WIDTH + x) * 4;
        (fb[i], fb[i + 1], fb[i + 2])
    };
    assert_eq!(px(0), color, "column 0 uses the normal (zero) scroll: tile 1 shows");
    assert_eq!(px(8), color, "column 1's OPT entry must override BG1's H offset");
    assert_eq!(px(16), (0, 0, 0), "column 2 has no valid OPT entry: backdrop");
}

#[test]
fn renderer_bgmode_size_bit_selects_16x16_tiles_with_obj_style_cell_layout() {
    // Mode 1 with BGMODE bit 4 (BG1 16x16 tiles): the tile's four 8x8
    // cells are base, base+1, base+16, base+17 -- pixel (8,0) must
    // come from tile base+1 and pixel (0,8) from tile base+16.
    let mut vram = Vram::new();
    let mut cgram = Cgram::new();
    let oam = Oam::new();

    let solid = make_2bpp_tile([[1u8; 8]; 8]);
    // 4bpp tiles are 32 bytes each. Tile 2 (base+1) and tile 17
    // (base+16) are solid; base tile 1 and tile 18 stay transparent.
    for (i, &b) in solid.iter().enumerate() {
        vram.write(2 * 32 + i as u16, b);
        vram.write(17 * 32 + i as u16, b);
    }
    vram.write_word(0x400 * 2, 0x0001); // map (0,0) -> base tile 1
    cgram.write(2, 0x1F); // CGRAM 1 = red
    cgram.write(3, 0x00);

    let mut regs = PpuRegisters::default();
    regs.inidisp = 0x0F;
    regs.bgmode = 0x11; // mode 1 + BG1 16x16 tiles
    regs.bg_sc[0] = 0x04;
    regs.tm = 0x01;

    let fb = render_frame(&vram, &cgram, &oam, &regs);
    let red = bgr555_to_rgb8(cgram.read_color(1));
    let backdrop = bgr555_to_rgb8(cgram.read_color(0));

    let at = |x: usize, y: usize| {
        let i = (y * SCREEN_WIDTH + x) * 4;
        (fb[i], fb[i + 1], fb[i + 2])
    };
    assert_eq!(at(0, 0), backdrop, "cell (0,0) is the transparent base tile");
    assert_eq!(at(8, 0), red, "cell (1,0) must be tile base+1");
    assert_eq!(at(0, 8), red, "cell (0,1) must be tile base+16");
    assert_eq!(at(8, 8), backdrop, "cell (1,1) is the transparent base+17");
}

#[test]
fn renderer_mode5_hires_maps_two_dots_per_output_pixel() {
    // Mode 5: tiles are 16 dots wide in a 512-dot space; each output
    // pixel covers two dots. With the LEFT 8x8 cell solid and the
    // right transparent, output pixels 0-3 (dots 0-7) show the color
    // and pixels 4-7 (dots 8-15) show the backdrop.
    let mut vram = Vram::new();
    let mut cgram = Cgram::new();
    let oam = Oam::new();

    let solid = make_2bpp_tile([[1u8; 8]; 8]);
    for (i, &b) in solid.iter().enumerate() {
        vram.write(1 * 32 + i as u16, b); // 4bpp tile 1 solid (left cell)
    }
    vram.write_word(0x400 * 2, 0x0001); // map (0,0) -> base tile 1 (cells 1,2)
    cgram.write(2, 0x1F);
    cgram.write(3, 0x00);

    let mut regs = PpuRegisters::default();
    regs.inidisp = 0x0F;
    regs.bgmode = 5; // BG1 = 4bpp, 16-wide tiles
    regs.bg_sc[0] = 0x04;
    regs.tm = 0x01;

    let fb = render_frame(&vram, &cgram, &oam, &regs);
    let red = bgr555_to_rgb8(cgram.read_color(1));
    let backdrop = bgr555_to_rgb8(cgram.read_color(0));
    let at = |x: usize| {
        let i = x * 4;
        (fb[i], fb[i + 1], fb[i + 2])
    };
    assert_eq!(at(0), red, "dots 0/1 (left cell) -> output pixel 0");
    assert_eq!(at(3), red, "dots 6/7 (left cell) -> output pixel 3");
    assert_eq!(at(4), backdrop, "dots 8/9 (transparent right cell) -> output pixel 4");
}

#[test]
fn renderer_mode5_hires_averages_the_two_dots_of_each_output_pixel() {
    // A tile row alternating between two palette indices means every
    // output pixel spans one dot of each color -- the result must be
    // their per-channel average, not either dot alone.
    let mut vram = Vram::new();
    let mut cgram = Cgram::new();
    let oam = Oam::new();

    let tile = make_2bpp_tile([[1, 2, 1, 2, 1, 2, 1, 2]; 8]);
    for (i, &b) in tile.iter().enumerate() {
        vram.write(1 * 32 + i as u16, b);
    }
    vram.write_word(0x400 * 2, 0x0001);
    // Color 1 = pure red (r=31), color 2 = pure blue (b=31).
    cgram.write(2, 0x1F);
    cgram.write(3, 0x00);
    cgram.write(4, 0x00);
    cgram.write(5, 0x7C);

    let mut regs = PpuRegisters::default();
    regs.inidisp = 0x0F;
    regs.bgmode = 5;
    regs.bg_sc[0] = 0x04;
    regs.tm = 0x01;

    let fb = render_frame(&vram, &cgram, &oam, &regs);
    // Average of (31,0,0) and (0,0,31) in 5-bit space = (15,0,15).
    let expected = bgr555_to_rgb8(15 | (15 << 10));
    assert_eq!((fb[0], fb[1], fb[2]), expected,
        "output pixel 0 must average its red and blue dots");
}

#[test]
fn renderer_mode5_interlace_averages_both_field_lines() {
    // With SETINI bit 0 (interlace) in mode 5, each output row spans
    // two half-lines (the two fields). A tile whose row 0 is red and
    // row 1 is blue must render output row 0 as their average; without
    // the interlace bit, row 0 is pure red.
    let mut vram = Vram::new();
    let mut cgram = Cgram::new();
    let oam = Oam::new();

    let mut rows = [[0u8; 8]; 8];
    rows[0] = [1; 8];
    rows[1] = [2; 8];
    let tile = make_2bpp_tile(rows);
    for (i, &b) in tile.iter().enumerate() {
        vram.write(1 * 32 + i as u16, b);
    }
    vram.write_word(0x400 * 2, 0x0001);
    cgram.write(2, 0x1F); // color 1 = red
    cgram.write(3, 0x00);
    cgram.write(4, 0x00); // color 2 = blue
    cgram.write(5, 0x7C);

    let mut regs = PpuRegisters::default();
    regs.inidisp = 0x0F;
    regs.bgmode = 5;
    regs.bg_sc[0] = 0x04;
    regs.tm = 0x01;

    let fb = render_frame(&vram, &cgram, &oam, &regs);
    let red = bgr555_to_rgb8(cgram.read_color(1));
    assert_eq!((fb[0], fb[1], fb[2]), red, "non-interlaced row 0 is the tile's row 0");

    regs.setini = 0x01; // interlace
    let fb2 = render_frame(&vram, &cgram, &oam, &regs);
    let expected = bgr555_to_rgb8(15 | (15 << 10)); // avg of red and blue
    assert_eq!((fb2[0], fb2[1], fb2[2]), expected,
        "interlaced row 0 must average the tile's rows 0 and 1 (the two fields)");
}

#[test]
fn renderer_mosaic_repeats_each_blocks_top_left_pixel() {
    // BG1 with a single red tile at map (0,0): normally pixel (8,0) is
    // backdrop (tile 1 of the map is transparent). With an 8x8 mosaic
    // whose block origin (8,0) is transparent, nothing changes there --
    // but pixel (7,0)..(0,0) belong to block origin (0,0), so the whole
    // first block is red. More telling: with mosaic 16x16, pixel
    // (12, 12) samples block origin (0,0) -- INSIDE the tile -- so it
    // must be red even though the un-mosaicked tile only spans 8x8.
    let mut vram = Vram::new();
    let mut cgram = Cgram::new();
    let oam = Oam::new();

    let solid = make_2bpp_tile([[1u8; 8]; 8]);
    for (i, &b) in solid.iter().enumerate() {
        vram.write(32 + i as u16, b); // 4bpp tile 1 (bytes 32..)
    }
    vram.write_word(0x400 * 2, 0x0001); // map (0,0) -> tile 1
    cgram.write(2, 0x1F); // CGRAM 1 = red
    cgram.write(3, 0x00);

    let mut regs = PpuRegisters::default();
    regs.inidisp = 0x0F;
    regs.bgmode = 1;
    regs.bg_sc[0] = 0x04;
    regs.tm = 0x01;
    regs.mosaic = 0xF1; // size 16, enabled for BG1

    let fb = render_frame(&vram, &cgram, &oam, &regs);
    let red = bgr555_to_rgb8(cgram.read_color(1));
    let idx = (12 * SCREEN_WIDTH + 12) * 4;
    assert_eq!((fb[idx], fb[idx + 1], fb[idx + 2]), red,
        "pixel (12,12) must repeat block origin (0,0)'s red with 16x16 mosaic");

    // Without mosaic the same pixel is backdrop (outside the 8x8 tile).
    regs.mosaic = 0x00;
    let fb2 = render_frame(&vram, &cgram, &oam, &regs);
    let backdrop = bgr555_to_rgb8(cgram.read_color(0));
    assert_eq!((fb2[idx], fb2[idx + 1], fb2[idx + 2]), backdrop);
}

#[test]
fn renderer_mode1_high_priority_bg3_tile_draws_in_front_of_bg1() {
    // Per-tile priority regression guard: in mode 1 with the BGMODE
    // bit-3 BG3-priority flag set, a BG3 tile whose tilemap priority
    // bit is set is the frontmost layer -- it must overwrite a BG1
    // pixel at the same location. The old renderer used a fixed
    // BG4<BG3<BG2<BG1 order and always drew BG1 on top, which is wrong
    // for this (very common in SMW) configuration.
    let mut vram = Vram::new();
    let mut cgram = Cgram::new();
    let oam = Oam::new();

    // Two distinct solid tiles: tile 0 (all pixel value 1) for BG1,
    // tile 1 (all pixel value 1) for BG3 -- same pixel value, different
    // palettes so we can tell which layer won.
    let solid = make_2bpp_tile([[1u8; 8]; 8]);
    for (i, &b) in solid.iter().enumerate() {
        vram.write(i as u16, b); // tile 0 at bytes 0..
    }

    // BG1 tilemap at word 0x1000, entry 0 -> tile 0, palette 0, priority 0.
    vram.write_word(0x1000 * 2, 0x0000);
    // BG3 tilemap at word 0x2000, entry 0 -> tile 0, palette 1, priority 1 (0x2000).
    vram.write_word(0x2000 * 2, 0x2000 | (1 << 10));

    // BG1 palette 0 index 1 -> CGRAM 1 = red-ish; BG3 palette 1 (2bpp)
    // index 1 -> CGRAM (1*4 + 1) = 5 = green-ish. Distinct colors.
    cgram.write(1 * 2, 0x1F); cgram.write(1 * 2 + 1, 0x00); // CGRAM1 = red
    cgram.write(5 * 2, 0xE0); cgram.write(5 * 2 + 1, 0x03); // CGRAM5 = green

    let mut regs = PpuRegisters::default();
    regs.inidisp = 0x0F;
    regs.bgmode = 0x09; // mode 1 + BG3 priority flag (bit 3)
    regs.bg_sc[0] = 0x10; // BG1 tilemap base word = (0x10>>2)*0x400 = 0x1000
    regs.bg_sc[2] = 0x20; // BG3 tilemap base word = (0x20>>2)*0x400 = 0x2000
    regs.bg12nba = 0x00; // BG1 tile data base word 0
    regs.bg34nba = 0x00; // BG3 tile data base word 0
    regs.tm = 0x05; // enable BG1 (bit0) + BG3 (bit2)

    let fb = render_frame(&vram, &cgram, &oam, &regs);
    let green = bgr555_to_rgb8(cgram.read_color(5));
    assert_eq!((fb[0], fb[1], fb[2]), green,
        "high-priority BG3 must render in front of BG1 in mode 1 with the BG3-priority flag set");
}
