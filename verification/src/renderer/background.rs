//! The tile-based background layers of modes 0-6: tilemap lookup across
//! the four screen sizes, 8x8/16x16 tiles with flips, per-tile priority,
//! palettes and direct color, mosaic, the hi-res dot-pair and interlace
//! collapse of modes 5/6, and offset-per-tile scrolling in modes 2/4.
use vstd::prelude::*;
use super::color::{average_bgr555, average_spec, direct_color, direct_color_spec};
use super::tile::{decode_tile_row, tile_byte_addr, tile_pixel};
use super::{LAYER_BG1, SCREEN_HEIGHT, SCREEN_WIDTH, layer_drawn, lemma_snap, lemma_u8_masks, mosaic_size_spec};
use crate::cgram::Cgram;
use crate::ppu::PpuRegisters;
use crate::vram::{Vram, word_of};

verus! {

/// Everything a BG layer's pixels depend on besides the memories and the
/// screen position, derived once from the registers.
#[derive(Clone, Copy)]
pub struct BgParams {
    /// Which BG (0-3).
    pub bg: usize,
    /// Bits per pixel (2, 4 or 8).
    pub depth: u8,
    /// The tile-priority pass being drawn (0 or 1).
    pub want_priority: u8,
    /// BGMODE bits 0-2.
    pub mode: u8,
    /// Modes 5/6: 512-dot horizontal space, tiles 16 wide.
    pub hires: bool,
    /// Hi-res with SETINI interlace: two field lines per output row.
    pub interlaced: bool,
    pub tilemap_base_word: u16,
    /// BGnSC bits 0-1: 0=32x32, 1=64x32, 2=32x64, 3=64x64 tiles.
    pub screen_size: u8,
    pub tile_data_base_word: u16,
    pub hofs: u16,
    pub vofs: u16,
    pub tile_w: u32,
    pub tile_h: u32,
    pub mosaic_size: usize,
    /// Mode 0 gives each BG its own 32-color block of CGRAM.
    pub palette_base: u16,
    /// Direct color for this layer's 8bpp pixels.
    pub direct: bool,
    /// Offset-per-tile applies (modes 2/4, BG1/BG2).
    pub opt_active: bool,
    /// The BG3 entry bit that enables an override for this BG.
    pub opt_valid_mask: u16,
    pub bg3_tilemap_base_word: u16,
    pub bg3_screen_size: u8,
    pub bg3_hofs: u16,
    pub bg3_vofs: u16,
}

/// The layer parameters of BG `bg` at `depth` bpp, drawing tile priority
/// `want_priority`.
pub open spec fn bg_params_spec(regs: PpuRegisters, bg: usize, depth: u8, want_priority: u8) -> BgParams {
    let mode = regs.bgmode & 0x07;
    let hires = mode == 5 || mode == 6;
    let nba = if bg < 2 { regs.bg12nba } else { regs.bg34nba };
    let nibble = if bg % 2 == 0 { nba & 0x0F } else { (nba >> 4) & 0x0F };
    let size16 = regs.bgmode & ((0x10u8 << (bg as u8)) as u8) != 0;
    BgParams {
        bg,
        depth,
        want_priority,
        mode,
        hires,
        interlaced: hires && (regs.setini & 0x01) != 0,
        tilemap_base_word: (((regs.bg_sc[bg as int] >> 2) as u16) * 0x400) as u16,
        screen_size: regs.bg_sc[bg as int] & 0x03,
        tile_data_base_word: ((nibble as u16) * 0x1000) as u16,
        hofs: regs.bg_hofs[bg as int],
        vofs: regs.bg_vofs[bg as int],
        tile_w: if hires || size16 { 16 } else { 8 },
        tile_h: if size16 { 16 } else { 8 },
        mosaic_size: mosaic_size_spec(regs, (1u8 << (bg as u8)) as u8) as usize,
        palette_base: if mode == 0 { ((bg as u16) * 32) as u16 } else { 0 },
        direct: depth == 8 && regs.cgwsel & 0x01 != 0,
        opt_active: !hires && (mode == 2 || mode == 4) && bg < 2,
        opt_valid_mask: (0x2000u16 << (bg as u16)) as u16,
        bg3_tilemap_base_word: (((regs.bg_sc[2] >> 2) as u16) * 0x400) as u16,
        bg3_screen_size: regs.bg_sc[2] & 0x03,
        bg3_hofs: regs.bg_hofs[2],
        bg3_vofs: regs.bg_vofs[2],
    }
}

/// The tilemap dimensions, in tiles, of a screen size.
pub open spec fn map_dims(size: u8) -> (u32, u32) {
    if size == 0 {
        (32, 32)
    } else if size == 1 {
        (64, 32)
    } else if size == 2 {
        (32, 64)
    } else {
        (64, 64)
    }
}

/// The tilemap word covering world position (wx, wy) with tiles of
/// tw x th pixels: maps larger than 32x32 are 2-4 consecutive 32x32 blocks.
pub open spec fn map_entry_spec(vram: Vram, base: u16, size: u8, tw: u32, th: u32, wx: u32, wy: u32) -> u16 {
    let (mw, mh) = map_dims(size);
    let tile_col = (wx / tw) % mw;
    let tile_row = (wy / th) % mh;
    let quad_col = tile_col / 32;
    let local_col = tile_col % 32;
    let quad_row = tile_row / 32;
    let local_row = tile_row % 32;
    let quadrant: u32 = if size == 0 {
        0
    } else if size == 1 {
        quad_col
    } else if size == 2 {
        quad_row
    } else {
        (quad_row * 2 + quad_col) as u32
    };
    let word = base.wrapping_add((quadrant * 0x400) as u16).wrapping_add((local_row * 32 + local_col) as u16);
    let a = word.wrapping_mul(2);
    word_of(vram.bytes()[(a & 0xFFFE) as int], vram.bytes()[(a & 0xFFFE) + 1])
}

/// The tilemap word at (wx, wy).
fn map_entry(vram: &Vram, base: u16, size: u8, tw: u32, th: u32, wx: u32, wy: u32) -> (r: u16)
    requires
        tw == 8 || tw == 16,
        th == 8 || th == 16,
    ensures
        r == map_entry_spec(*vram, base, size, tw, th, wx, wy),
{
    let (mw, mh): (u32, u32) = if size == 0 {
        (32, 32)
    } else if size == 1 {
        (64, 32)
    } else if size == 2 {
        (32, 64)
    } else {
        (64, 64)
    };
    let tile_col = (wx / tw) % mw;
    let tile_row = (wy / th) % mh;
    let (quad_col, local_col) = (tile_col / 32, tile_col % 32);
    let (quad_row, local_row) = (tile_row / 32, tile_row % 32);
    let quadrant: u32 = if size == 0 {
        0
    } else if size == 1 {
        quad_col
    } else if size == 2 {
        quad_row
    } else {
        quad_row * 2 + quad_col
    };
    let word = base.wrapping_add((quadrant * 0x400) as u16).wrapping_add((local_row * 32 + local_col) as u16);
    vram.read_word(word.wrapping_mul(2))
}

/// The layer's color at world position (wx, wy) (scroll already applied),
/// or `None` when the pixel is transparent or its tile belongs to the other
/// priority pass. 16-wide/-tall tiles pick their 8x8 cell like sprites do
/// (+1 per column, +16 per row, within 10 bits); flips mirror the whole
/// tile.
#[verifier::opaque]
pub open spec fn bg_sample_spec(vram: Vram, cgram: Cgram, p: BgParams, wx: u32, wy: u32) -> Option<u16> {
    let entry = map_entry_spec(vram, p.tilemap_base_word, p.screen_size, p.tile_w, p.tile_h, wx, wy);
    if ((entry >> 13) & 0x01) as u8 != p.want_priority {
        None
    } else {
        let base_tile = entry & 0x3FF;
        let palette_num = (entry >> 10) & 0x07;
        let ix0 = wx % p.tile_w;
        let iy0 = wy % p.tile_h;
        let in_x = if entry & 0x4000 != 0 { (p.tile_w - 1 - ix0) as u32 } else { ix0 };
        let in_y = if entry & 0x8000 != 0 { (p.tile_h - 1 - iy0) as u32 } else { iy0 };
        let tile_index = base_tile.wrapping_add((in_x / 8) as u16).wrapping_add(((in_y / 8) as u16 * 0x10) as u16) & 0x3FF;
        let pixel_value = tile_pixel(
            vram,
            tile_byte_addr(p.tile_data_base_word, tile_index, p.depth),
            (in_y % 8) as u8,
            (in_x % 8) as u8,
            (p.depth / 2) as nat,
        );
        if pixel_value == 0 {
            None
        } else if p.direct {
            Some(direct_color_spec(pixel_value, palette_num as u8))
        } else {
            let idx: u8 = if p.depth == 2 {
                (p.palette_base + palette_num * 4 + pixel_value as u16) as u8
            } else if p.depth == 4 {
                (palette_num * 16 + pixel_value as u16) as u8
            } else {
                pixel_value
            };
            Some(cgram.color(idx) & 0x7FFF)
        }
    }
}

pub open spec fn valid_params(p: BgParams) -> bool {
    &&& p.depth == 2 || p.depth == 4 || p.depth == 8
    &&& p.tile_w == 8 || p.tile_w == 16
    &&& p.tile_h == 8 || p.tile_h == 16
    &&& p.palette_base <= 96
    &&& 1 <= p.mosaic_size <= 16
}

/// The layer's color at world position (wx, wy).
fn bg_sample(vram: &Vram, cgram: &Cgram, p: &BgParams, wx: u32, wy: u32) -> (r: Option<u16>)
    requires
        valid_params(*p),
        cgram.bytes().len() == 512,
    ensures
        r == bg_sample_spec(*vram, *cgram, *p, wx, wy),
{
    reveal(bg_sample_spec);
    let entry = map_entry(vram, p.tilemap_base_word, p.screen_size, p.tile_w, p.tile_h, wx, wy);
    let tile_priority = ((entry >> 13) & 0x01) as u8;
    if tile_priority != p.want_priority {
        return None;
    }
    let base_tile = entry & 0x3FF;
    let palette_num = (entry >> 10) & 0x07;
    assert(palette_num <= 7) by (bit_vector)
        requires
            palette_num == (entry >> 10) & 0x07,
    ;
    let mut in_x = wx % p.tile_w;
    let mut in_y = wy % p.tile_h;
    if entry & 0x4000 != 0 {
        in_x = p.tile_w - 1 - in_x;
    }
    if entry & 0x8000 != 0 {
        in_y = p.tile_h - 1 - in_y;
    }
    let cell_x = (in_x / 8) as u16;
    let cell_y = (in_y / 8) as u16;
    let tile_index = base_tile.wrapping_add(cell_x).wrapping_add(cell_y * 0x10) & 0x3FF;
    let row_pixels = decode_tile_row(vram, p.tile_data_base_word, tile_index, p.depth, (in_y % 8) as u8);
    let pixel_value = row_pixels[(in_x % 8) as usize];
    if pixel_value == 0 {
        return None;
    }
    if p.direct {
        return Some(direct_color(pixel_value, palette_num as u8));
    }
    let cgram_index: u8 = if p.depth == 2 {
        (p.palette_base + palette_num * 4 + pixel_value as u16) as u8
    } else if p.depth == 4 {
        (palette_num * 16 + pixel_value as u16) as u8
    } else {
        pixel_value
    };
    Some(cgram.read_color(cgram_index) & 0x7FFF)
}

/// The layer parameters, from the registers.
pub fn bg_params(regs: &PpuRegisters, bg: usize, depth: u8, want_priority: u8) -> (p: BgParams)
    requires
        bg < 4,
        depth == 2 || depth == 4 || depth == 8,
    ensures
        p == bg_params_spec(*regs, bg, depth, want_priority),
        valid_params(p),
{
    let mode = regs.bgmode & 0x07;
    let hires = mode == 5 || mode == 6;
    let nba = if bg < 2 { regs.bg12nba } else { regs.bg34nba };
    let nibble = if bg % 2 == 0 { nba & 0x0F } else { (nba >> 4) & 0x0F };
    let size16 = regs.bgmode & (0x10u8 << (bg as u8)) != 0;
    let mosaic_bit: u8 = 1u8 << (bg as u8);
    let mosaic_size: usize = if regs.mosaic & mosaic_bit != 0 { ((regs.mosaic >> 4) & 0x0F) as usize + 1 } else { 1 };
    let sc = regs.bg_sc[bg];
    let sc3 = regs.bg_sc[2];
    let mosaic = regs.mosaic;
    proof {
        lemma_u8_masks();
    }
    BgParams {
        bg,
        depth,
        want_priority,
        mode,
        hires,
        interlaced: hires && (regs.setini & 0x01) != 0,
        tilemap_base_word: ((regs.bg_sc[bg] >> 2) as u16) * 0x400,
        screen_size: regs.bg_sc[bg] & 0x03,
        tile_data_base_word: (nibble as u16) * 0x1000,
        hofs: regs.bg_hofs[bg],
        vofs: regs.bg_vofs[bg],
        tile_w: if hires || size16 { 16 } else { 8 },
        tile_h: if size16 { 16 } else { 8 },
        mosaic_size,
        palette_base: if mode == 0 { (bg as u16) * 32 } else { 0 },
        direct: depth == 8 && regs.cgwsel & 0x01 != 0,
        opt_active: !hires && (mode == 2 || mode == 4) && bg < 2,
        opt_valid_mask: 0x2000u16 << (bg as u16),
        bg3_tilemap_base_word: ((regs.bg_sc[2] >> 2) as u16) * 0x400,
        bg3_screen_size: regs.bg_sc[2] & 0x03,
        bg3_hofs: regs.bg_hofs[2],
        bg3_vofs: regs.bg_vofs[2],
    }
}

/// The scroll (H, V) in effect at screen column `px`. With offset-per-tile
/// (modes 2/4, BG1/BG2), BG3's tilemap is a table of per-8-pixel-column
/// overrides: the first visible column uses the normal scroll; column N >= 1
/// reads BG3's entry at ((N-1)*8 + (BG3HOFS & !7), BG3VOFS), which replaces
/// H (keeping the BG's fine scroll HOFS & 7), and in mode 2 the entry one
/// row below replaces V; mode 4 reads one entry whose bit 15 picks H or V.
/// The BG's enable bit in the entry (13 for BG1, 14 for BG2) gates it.
pub open spec fn opt_scroll_spec(vram: Vram, p: BgParams, px: int) -> (u16, u16) {
    if !p.opt_active {
        (p.hofs, p.vofs)
    } else {
        let col = ((px as u32) + ((p.hofs as u32) & 7)) / 8;
        if col == 0 {
            (p.hofs, p.vofs)
        } else {
            let opt_x = (((col - 1) * 8) as u32).wrapping_add((p.bg3_hofs as u32) & !7u32);
            let hentry = map_entry_spec(vram, p.bg3_tilemap_base_word, p.bg3_screen_size, 8, 8, opt_x, p.bg3_vofs as u32);
            if p.mode == 4 {
                if hentry & p.opt_valid_mask != 0 {
                    if hentry & 0x8000 != 0 {
                        (p.hofs, hentry & 0x3FF)
                    } else {
                        ((hentry & 0x3F8) | (p.hofs & 7), p.vofs)
                    }
                } else {
                    (p.hofs, p.vofs)
                }
            } else {
                let ventry = map_entry_spec(vram, p.bg3_tilemap_base_word, p.bg3_screen_size, 8, 8, opt_x, (p.bg3_vofs as u32).wrapping_add(8));
                (
                    if hentry & p.opt_valid_mask != 0 { (hentry & 0x3F8) | (p.hofs & 7) } else { p.hofs },
                    if ventry & p.opt_valid_mask != 0 { ventry & 0x3FF } else { p.vofs },
                )
            }
        }
    }
}

fn opt_scroll(vram: &Vram, p: &BgParams, px: usize) -> (r: (u16, u16))
    requires
        px < 256,
    ensures
        r == opt_scroll_spec(*vram, *p, px as int),
{
    proof {
        lemma_u8_masks();
    }
    let (mut eff_hofs, mut eff_vofs) = (p.hofs, p.vofs);
    if p.opt_active {
        let col = ((px as u32) + ((p.hofs as u32) & 7)) / 8;
        if col > 0 {
            let opt_x = ((col - 1) * 8).wrapping_add((p.bg3_hofs as u32) & !7u32);
            let hentry = map_entry(vram, p.bg3_tilemap_base_word, p.bg3_screen_size, 8, 8, opt_x, p.bg3_vofs as u32);
            if p.mode == 4 {
                if hentry & p.opt_valid_mask != 0 {
                    if hentry & 0x8000 != 0 {
                        eff_vofs = hentry & 0x3FF;
                    } else {
                        eff_hofs = (hentry & 0x3F8) | (p.hofs & 7);
                    }
                }
            } else {
                let ventry = map_entry(vram, p.bg3_tilemap_base_word, p.bg3_screen_size, 8, 8, opt_x, (p.bg3_vofs as u32).wrapping_add(8));
                if hentry & p.opt_valid_mask != 0 {
                    eff_hofs = (hentry & 0x3F8) | (p.hofs & 7);
                }
                if ventry & p.opt_valid_mask != 0 {
                    eff_vofs = ventry & 0x3FF;
                }
            }
        }
    }
    (eff_hofs, eff_vofs)
}

/// `s` with `o`'s value appended when there is one.
pub open spec fn push_some(s: Seq<u16>, o: Option<u16>) -> Seq<u16> {
    match o {
        Some(c) => s.push(c),
        None => s,
    }
}

/// The opaque samples behind hi-res output pixel (x, y): both dots of the
/// pair, on both field lines when interlaced, in that order.
pub open spec fn hires_samples(vram: Vram, cgram: Cgram, p: BgParams, x: int, y: int) -> Seq<u16> {
    let d0 = ((2 * x) as u32).wrapping_add(p.hofs as u32);
    let d1 = ((2 * x + 1) as u32).wrapping_add(p.hofs as u32);
    let wy0 = if p.interlaced { ((2 * y) as u32).wrapping_add(p.vofs as u32) } else { (y as u32).wrapping_add(p.vofs as u32) };
    let s = push_some(push_some(Seq::empty(), bg_sample_spec(vram, cgram, p, d0, wy0)), bg_sample_spec(vram, cgram, p, d1, wy0));
    if p.interlaced {
        let wy1 = ((2 * y + 1) as u32).wrapping_add(p.vofs as u32);
        push_some(push_some(s, bg_sample_spec(vram, cgram, p, d0, wy1)), bg_sample_spec(vram, cgram, p, d1, wy1))
    } else {
        s
    }
}

/// What the layer shows at screen pixel (px, py), mosaic applied: in the
/// hi-res modes the average of the opaque samples behind it, otherwise the
/// sample at the (offset-per-tile adjusted) scrolled position.
pub open spec fn bg_pixel_spec(vram: Vram, cgram: Cgram, p: BgParams, px: int, py: int) -> Option<u16> {
    let m = p.mosaic_size as int;
    let ex = px - px % m;
    let ey = py - py % m;
    if p.hires {
        let s = hires_samples(vram, cgram, p, ex, ey);
        if s.len() == 0 {
            None
        } else {
            Some(average_spec(s))
        }
    } else {
        let (h, v) = opt_scroll_spec(vram, p, px);
        bg_sample_spec(vram, cgram, p, (ex as u32).wrapping_add(h as u32), (ey as u32).wrapping_add(v as u32))
    }
}

/// The layer's pixel with its source-layer id.
pub open spec fn bg_layer_pixel(vram: Vram, cgram: Cgram, p: BgParams, px: int, py: int) -> Option<(u16, u8)> {
    match bg_pixel_spec(vram, cgram, p, px, py) {
        Some(c) => Some((c, (LAYER_BG1 + p.bg) as u8)),
        None => None,
    }
}

/// The average of the opaque samples behind hi-res output pixel (x, y).
fn hires_pixel(vram: &Vram, cgram: &Cgram, p: &BgParams, eff_px: usize, eff_py: usize) -> (r: Option<u16>)
    requires
        valid_params(*p),
        cgram.bytes().len() == 512,
        eff_px < 256,
        eff_py < 224,
    ensures
        r == (if hires_samples(*vram, *cgram, *p, eff_px as int, eff_py as int).len() == 0 {
            None
        } else {
            Some(average_spec(hires_samples(*vram, *cgram, *p, eff_px as int, eff_py as int)))
        }),
{
    let d0 = ((2 * eff_px) as u32).wrapping_add(p.hofs as u32);
    let d1 = ((2 * eff_px + 1) as u32).wrapping_add(p.hofs as u32);
    let wy0 = if p.interlaced {
        ((2 * eff_py) as u32).wrapping_add(p.vofs as u32)
    } else {
        (eff_py as u32).wrapping_add(p.vofs as u32)
    };
    let mut samples = [0u16; 4];
    let mut count: usize = 0;
    push_sample(&mut samples, &mut count, bg_sample(vram, cgram, p, d0, wy0));
    push_sample(&mut samples, &mut count, bg_sample(vram, cgram, p, d1, wy0));
    if p.interlaced {
        let wy1 = ((2 * eff_py + 1) as u32).wrapping_add(p.vofs as u32);
        push_sample(&mut samples, &mut count, bg_sample(vram, cgram, p, d0, wy1));
        push_sample(&mut samples, &mut count, bg_sample(vram, cgram, p, d1, wy1));
    }
    assert(samples@.subrange(0, count as int) =~= hires_samples(*vram, *cgram, *p, eff_px as int, eff_py as int));
    if count == 0 {
        return None;
    }
    let (head, _) = samples.as_slice().split_at(count);
    Some(average_bgr555(head))
}

/// Appends `o`'s value, if any, to the first `count` entries of `samples`.
fn push_sample(samples: &mut [u16; 4], count: &mut usize, o: Option<u16>)
    requires
        *old(count) < 4 || (*old(count) == 4 && o is None),
    ensures
        *final(count) <= *old(count) + 1,
        *final(count) == *old(count) + (if o is Some { 1int } else { 0int }),
        final(samples)@.subrange(0, *final(count) as int) == push_some(old(samples)@.subrange(0, *old(count) as int), o),
{
    if let Some(c) = o {
        samples[*count] = c;
        *count = *count + 1;
        assert(samples@.subrange(0, *count as int) =~= old(samples)@.subrange(0, *old(count) as int).push(c));
    }
}

fn bg_pixel(vram: &Vram, cgram: &Cgram, p: &BgParams, px: usize, py: usize) -> (r: Option<u16>)
    requires
        valid_params(*p),
        p.bg < 4,
        cgram.bytes().len() == 512,
        px < 256,
        py < 224,
    ensures
        r == bg_pixel_spec(*vram, *cgram, *p, px as int, py as int),
{
    proof {
        lemma_snap(px as int, p.mosaic_size as int);
        lemma_snap(py as int, p.mosaic_size as int);
    }
    let eff_py = py - py % p.mosaic_size;
    let eff_px = px - px % p.mosaic_size;
    if p.hires {
        hires_pixel(vram, cgram, p, eff_px, eff_py)
    } else {
        let (eff_hofs, eff_vofs) = opt_scroll(vram, p, px);
        let world_x = (eff_px as u32).wrapping_add(eff_hofs as u32);
        let world_y = (eff_py as u32).wrapping_add(eff_vofs as u32);
        bg_sample(vram, cgram, p, world_x, world_y)
    }
}

/// Draws BG `bg` (0-3) at `depth` bpp over scanlines `y0..y1`, only tiles
/// whose priority bit is `want_priority`.
pub fn draw_bg_layer(
    buf: &mut [u16],
    layer_buf: &mut [u8],
    vram: &Vram,
    cgram: &Cgram,
    regs: &PpuRegisters,
    bg: usize,
    depth: u8,
    want_priority: u8,
    skip: &[bool; SCREEN_WIDTH],
    y0: usize,
    y1: usize,
)
    requires
        bg < 4,
        depth == 2 || depth == 4 || depth == 8,
        old(buf)@.len() == SCREEN_WIDTH * SCREEN_HEIGHT,
        old(layer_buf)@.len() == SCREEN_WIDTH * SCREEN_HEIGHT,
        y0 <= y1 <= SCREEN_HEIGHT,
    ensures
        layer_drawn(final(buf)@, final(layer_buf)@, old(buf)@, old(layer_buf)@, *skip, y0 as int, y1 as int,
            |px: int, py: int| bg_layer_pixel(*vram, *cgram, bg_params_spec(*regs, bg, depth, want_priority), px, py)),
{
    proof {
        cgram.lemma_len();
    }
    let p = bg_params(regs, bg, depth, want_priority);
    let layer = LAYER_BG1 + bg as u8;
    let ghost pixel = |px: int, py: int| bg_layer_pixel(*vram, *cgram, p, px, py);
    let mut py = y0;
    while py < y1
        invariant
            y0 <= py <= y1 <= 224,
            buf@.len() == 256 * 224,
            layer_buf@.len() == 256 * 224,
            valid_params(p),
            p.bg == bg < 4,
            layer == (LAYER_BG1 + bg) as u8,
            cgram.bytes().len() == 512,
            pixel == (|px: int, py: int| bg_layer_pixel(*vram, *cgram, p, px, py)),
            layer_drawn(buf@, layer_buf@, old(buf)@, old(layer_buf)@, *skip, y0 as int, py as int, pixel),
        decreases y1 - py,
    {
        let mut px: usize = 0;
        while px < SCREEN_WIDTH
            invariant
                y0 <= py < y1 <= 224,
                px <= 256,
                buf@.len() == 256 * 224,
                layer_buf@.len() == 256 * 224,
                valid_params(p),
                p.bg == bg < 4,
                layer == (LAYER_BG1 + bg) as u8,
                cgram.bytes().len() == 512,
                pixel == (|px: int, py: int| bg_layer_pixel(*vram, *cgram, p, px, py)),
                forall|i: int|
                    #![trigger buf@[i]]
                    #![trigger layer_buf@[i]]
                    0 <= i < buf@.len() ==> {
                        let (qx, qy) = (i % 256, i / 256);
                        if (y0 <= qy < py || (qy == py && qx < px)) && !skip[qx] && pixel(qx, qy) is Some {
                            buf@[i] == pixel(qx, qy)->Some_0.0 && layer_buf@[i] == pixel(qx, qy)->Some_0.1
                        } else {
                            buf@[i] == old(buf)@[i] && layer_buf@[i] == old(layer_buf)@[i]
                        }
                    },
            decreases 256 - px,
        {
            if !skip[px] {
                if let Some(color) = bg_pixel(vram, cgram, &p, px, py) {
                    let idx = py * SCREEN_WIDTH + px;
                    buf[idx] = color;
                    layer_buf[idx] = layer;
                }
            }
            px = px + 1;
        }
        py = py + 1;
    }
}

} // verus!
