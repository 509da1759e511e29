//! Sprite (OBJ) evaluation and drawing: OAM decoding, the per-scanline
//! 32-sprite / 34-tile hardware limits, and priority-ordered rendering.
use vstd::prelude::*;
use super::tile::{decode_tile_row, tile_byte_addr, tile_pixel};
use super::{LAYER_OBJ, LAYER_OBJ_PAL03, SCREEN_HEIGHT, SCREEN_WIDTH, layer_drawn, lemma_u8_masks};
use crate::cgram::Cgram;
use crate::oam::Oam;
use crate::ppu::PpuRegisters;
use crate::vram::Vram;

verus! {

/// (width, height) in pixels of the small and large sprite of each of
/// OBSEL's 8 size-pair codes; codes 6/7 are the non-square pairs.
pub open spec fn size_pair_spec(size_code: u8) -> ((u32, u32), (u32, u32)) {
    let c = size_code & 0x07;
    if c == 0 {
        ((8, 8), (16, 16))
    } else if c == 1 {
        ((8, 8), (32, 32))
    } else if c == 2 {
        ((8, 8), (64, 64))
    } else if c == 3 {
        ((16, 16), (32, 32))
    } else if c == 4 {
        ((16, 16), (64, 64))
    } else if c == 5 {
        ((32, 32), (64, 64))
    } else if c == 6 {
        ((16, 32), (32, 64))
    } else {
        ((16, 32), (32, 32))
    }
}

/// The (small, large) sprite dimensions of an OBSEL size-pair code (bits
/// 5-7 of OBSEL, already shifted down).
pub fn sprite_size_pair(size_code: u8) -> (r: ((u32, u32), (u32, u32)))
    ensures
        r == size_pair_spec(size_code),
{
    match size_code & 0x07 {
        0 => ((8, 8), (16, 16)),
        1 => ((8, 8), (32, 32)),
        2 => ((8, 8), (64, 64)),
        3 => ((16, 16), (32, 32)),
        4 => ((16, 16), (64, 64)),
        5 => ((32, 32), (64, 64)),
        6 => ((16, 32), (32, 64)),
        _ => ((16, 32), (32, 32)),
    }
}

/// Sprite `s`'s screen rectangle: X (9 bits, signed), the raw Y, width and
/// height. OAM entry `s` is X, Y, tile, attributes at 4s; the high table
/// at 512 + s/4 holds X bit 8 and the size bit at bits 2(s%4) and 2(s%4)+1.
pub open spec fn sprite_geom_spec(oam: Oam, regs: PpuRegisters, s: int) -> (i32, i32, u32, u32) {
    let (small, large) = size_pair_spec((regs.obsel >> 5) & 0x07);
    let x_low = oam.bytes()[s * 4];
    let y_raw = oam.bytes()[s * 4 + 1];
    let high = oam.bytes()[512 + s / 4];
    let shift = ((s % 4) * 2) as u8;
    let x_high_bit = (high >> shift) & 0x01;
    let size_bit = (high >> ((shift + 1) as u8)) & 0x01;
    let (w, h) = if size_bit != 0 { large } else { small };
    let x_full = ((x_high_bit as u16) << 8) | (x_low as u16);
    let x: i32 = if x_full & 0x100 != 0 { (x_full as i32 - 512) as i32 } else { x_full as i32 };
    (x, y_raw as i32, w, h)
}

pub open spec fn size_ok(w: u32, h: u32) -> bool {
    &&& 8 <= w <= 64
    &&& 8 <= h <= 64
    &&& w % 8 == 0
}

proof fn lemma_size_pairs(code: u8)
    ensures
        size_ok(size_pair_spec(code).0.0, size_pair_spec(code).0.1),
        size_ok(size_pair_spec(code).1.0, size_pair_spec(code).1.1),
{
}

proof fn lemma_sprite_bits()
    by (bit_vector)
    ensures
        forall|v: u8, sh: u8| #[trigger] ((v >> sh) & 0x01) <= 1,
        forall|b: u8, l: u8|
            b <= 1 ==> #[trigger] (((b as u16) << 8) | (l as u16)) <= 511 && ((((b as u16) << 8) | (l as u16)) & 0x100 == 0
                ==> (((b as u16) << 8) | (l as u16)) <= 255) && ((((b as u16) << 8) | (l as u16)) & 0x100 != 0
                ==> (((b as u16) << 8) | (l as u16)) >= 256),
        forall|v: i32| 0 <= #[trigger] (v & 0xFF) <= 0xFF,
        forall|v: i32| 0 <= v ==> #[trigger] (v & 0xFF) == v % 256,
{
}

/// Sprite `s`'s rectangle.
pub fn sprite_geom(oam: &Oam, regs: &PpuRegisters, s: usize) -> (r: (i32, i32, u32, u32))
    requires
        s < 128,
    ensures
        r == sprite_geom_spec(*oam, *regs, s as int),
        -256 <= r.0 <= 255,
        0 <= r.1 <= 255,
        size_ok(r.2, r.3),
{
    proof {
        oam.lemma_len();
        lemma_size_pairs((regs.obsel >> 5) & 0x07);
        lemma_sprite_bits();
    }
    let (small_size, large_size) = sprite_size_pair((regs.obsel >> 5) & 0x07);
    let base = (s * 4) as u16;
    let x_low = oam.read(base);
    let y_raw = oam.read(base + 1);
    let high_table_byte = oam.read(512 + (s as u16) / 4);
    let shift = ((s % 4) * 2) as u8;
    let x_high_bit = (high_table_byte >> shift) & 0x01;
    let size_bit = (high_table_byte >> (shift + 1)) & 0x01;
    let (w, h) = if size_bit != 0 { large_size } else { small_size };
    let x_full = ((x_high_bit as u16) << 8) | (x_low as u16);
    let x: i32 = if x_full & 0x100 != 0 { (x_full as i32) - 512 } else { x_full as i32 };
    (x, y_raw as i32, w, h)
}

/// The per-line evaluation state: sprites in range so far, tile budget
/// left, the surviving-sprite mask and the STAT77 flags.
pub type EvalState = (u32, i32, u128, u8);

/// One step of the hardware's per-line scan: a sprite covering the line
/// (the vertical test wraps at 256) and the screen horizontally counts
/// toward the 32-sprite range limit (the 33rd sets range-over, bit 6) and
/// spends its width in 8-pixel tiles from the 34-tile budget (running out
/// sets time-over, bit 7; a sprite that starts with no budget left is
/// dropped).
pub open spec fn eval_step(g: (i32, i32, u32, u32), ly: int, st: EvalState, s: int) -> EvalState {
    let (in_range, tiles, mask, flags) = st;
    let (x, y, w, h) = g;
    if ((ly - y) as i32 & 0xFF) as u32 >= h {
        st
    } else if x + w <= 0 || x >= 256 {
        st
    } else if in_range >= 32 {
        (in_range, tiles, mask, flags | 0x40)
    } else if tiles <= 0 {
        ((in_range + 1) as u32, tiles, mask, flags | 0x80)
    } else {
        let t2 = (tiles - (w / 8) as i32) as i32;
        ((in_range + 1) as u32, t2, mask | (1u128 << (s as u128)), if t2 < 0 { flags | 0x80 } else { flags })
    }
}

/// Every sprite's rectangle, by OAM index.
pub open spec fn geoms_spec(oam: Oam, regs: PpuRegisters) -> Seq<(i32, i32, u32, u32)> {
    Seq::new(128, |s: int| sprite_geom_spec(oam, regs, s))
}

/// The scan of line `ly` from the `k`-th sprite in evaluation order, which
/// starts at FirstSprite and wraps.
pub open spec fn eval_line_from(geoms: Seq<(i32, i32, u32, u32)>, first: u8, ly: int, k: nat, st: EvalState) -> EvalState
    decreases 128 - k,
{
    if k >= 128 {
        st
    } else {
        let s = (first as int + k) % 128;
        eval_line_from(geoms, first, ly, k + 1, eval_step(geoms[s], ly, st, s))
    }
}

/// The result of evaluating line `ly`.
pub open spec fn line_eval(oam: Oam, regs: PpuRegisters, ly: int) -> EvalState {
    eval_line_from(geoms_spec(oam, regs), regs.first_sprite & 0x7F, ly, 0, (0, 34, 0, 0))
}

/// The STAT77 flags accumulated over lines `y0 .. y0 + n`.
pub open spec fn band_flags(oam: Oam, regs: PpuRegisters, y0: int, n: nat) -> u8
    decreases n,
{
    if n == 0 {
        0
    } else {
        band_flags(oam, regs, y0, (n - 1) as nat) | line_eval(oam, regs, y0 + n - 1).3
    }
}

/// Per-line sprite evaluation for one band: bit N of `masks[line - y0]`
/// says sprite N survived that line's limits; `range_time_over` holds the
/// accumulated STAT77 flags (bit 6 range over, bit 7 time over).
pub struct SpriteEval {
    pub y0: usize,
    pub masks: Vec<u128>,
    pub range_time_over: u8,
}

pub open spec fn eval_inv(st: EvalState) -> bool {
    &&& st.0 <= 32
    &&& -7 <= st.1 <= 34
}

proof fn lemma_eval_step_inv(g: (i32, i32, u32, u32), ly: int, st: EvalState, s: int)
    requires
        eval_inv(st),
        size_ok(g.2, g.3),
    ensures
        eval_inv(eval_step(g, ly, st, s)),
{
}

/// Evaluates lines `y0..y1`, walking OAM from FirstSprite like the
/// hardware's priority scan.
pub fn evaluate_sprites(oam: &Oam, regs: &PpuRegisters, y0: usize, y1: usize) -> (r: SpriteEval)
    requires
        y0 <= y1 <= SCREEN_HEIGHT,
    ensures
        r.y0 == y0,
        r.masks@.len() == y1 - y0,
        forall|l: int| 0 <= l < y1 - y0 ==> #[trigger] r.masks@[l] == line_eval(*oam, *regs, y0 + l).2,
        r.range_time_over == band_flags(*oam, *regs, y0 as int, (y1 - y0) as nat),
{
    let first = regs.first_sprite & 0x7F;
    let mut geom = [(0i32, 0i32, 8u32, 8u32); 128];
    let mut s: usize = 0;
    while s < 128
        invariant
            s <= 128,
            forall|t: int| 0 <= t < s ==> #[trigger] geom[t] == sprite_geom_spec(*oam, *regs, t),
            forall|t: int| 0 <= t < 128 ==> size_ok(#[trigger] geom[t].2, geom[t].3),
        decreases 128 - s,
    {
        geom[s] = sprite_geom(oam, regs, s);
        s = s + 1;
    }
    assert(geom@ =~= geoms_spec(*oam, *regs));
    let mut masks: Vec<u128> = Vec::new();
    let mut range_time_over: u8 = 0;
    let mut line = y0;
    while line < y1
        invariant
            y0 <= line <= y1 <= 224,
            first == regs.first_sprite & 0x7F,
            geom@ == geoms_spec(*oam, *regs),
            forall|t: int| 0 <= t < 128 ==> size_ok(#[trigger] geom[t].2, geom[t].3),
            masks@.len() == line - y0,
            forall|l: int| 0 <= l < line - y0 ==> #[trigger] masks@[l] == line_eval(*oam, *regs, y0 + l).2,
            range_time_over == band_flags(*oam, *regs, y0 as int, (line - y0) as nat),
        decreases y1 - line,
    {
        let ly = line as i32;
        let mut st: (u32, i32, u128, u8) = (0, 34, 0, 0);
        let mut k: usize = 0;
        while k < 128
            invariant
                k <= 128,
                ly == line as i32,
                line < 224,
                first == regs.first_sprite & 0x7F,
                geom@ == geoms_spec(*oam, *regs),
                forall|t: int| 0 <= t < 128 ==> size_ok(#[trigger] geom[t].2, geom[t].3),
                eval_inv(st),
                eval_line_from(geom@, first, line as int, k as nat, st) == line_eval(*oam, *regs, line as int),
            decreases 128 - k,
        {
            let s = (first as usize + k) % 128;
            let (x, y, w, h) = geom[s];
            let (in_range, tiles, mask, flags) = st;
            proof {
                lemma_eval_step_inv(geom[s as int], line as int, st, s as int);
                lemma_sprite_bits();
            }
            let next = if ((ly - y) & 0xFF) as u32 >= h {
                st
            } else if x + (w as i32) <= 0 || x >= SCREEN_WIDTH as i32 {
                st
            } else if in_range >= 32 {
                (in_range, tiles, mask, flags | 0x40)
            } else if tiles <= 0 {
                (in_range + 1, tiles, mask, flags | 0x80)
            } else {
                let t2 = tiles - (w / 8) as i32;
                (in_range + 1, t2, mask | (1u128 << (s as u128)), if t2 < 0 { flags | 0x80 } else { flags })
            };
            assert(next == eval_step(geom[s as int], line as int, st, s as int));
            st = next;
            k = k + 1;
        }
        masks.push(st.2);
        range_time_over = range_time_over | st.3;
        line = line + 1;
    }
    SpriteEval { y0, masks, range_time_over }
}

/// The color and source layer of sprite `s` at sprite-local pixel
/// (tx, ty), or `None` where it is transparent. Attributes are `vhoopppN`:
/// flips, priority, palette, tile bit 8. A multi-tile sprite's tiles form a
/// 16-wide grid whose column wraps within the tile number's low nibble;
/// tiles 256-511 come from the second table, (name select + 1) * 0x1000
/// words past the base. Sprites on palettes 0-3 get the math-exempt id.
#[verifier::opaque]
pub open spec fn sprite_texel(vram: Vram, cgram: Cgram, oam: Oam, regs: PpuRegisters, s: int, tx: int, ty: int) -> Option<(u16, u8)> {
    let (x, y, w, h) = sprite_geom_spec(oam, regs, s);
    let attrs = oam.bytes()[s * 4 + 3];
    let tile_low = oam.bytes()[s * 4 + 2] as u16;
    let tile_data_base_word = (((regs.obsel & 0x07) as u16) * 0x2000) as u16;
    let name_select = ((regs.obsel >> 3) & 0x03) as u16;
    let palette_num = ((attrs >> 1) & 0x07) as u16;
    let tile_base = tile_low | (((attrs & 0x01) as u16) << 8);
    let src_ty = if attrs & 0x80 != 0 { h - 1 - ty } else { ty };
    let src_tx = if attrs & 0x40 != 0 { w - 1 - tx } else { tx };
    let row_component = ((src_ty / 8) as u16).wrapping_mul(16);
    let col_component = tile_base.wrapping_add((src_tx / 8) as u16) & 0x0F;
    let tile_index = (tile_base & 0xFFF0).wrapping_add(row_component).wrapping_add(col_component) & 0x1FF;
    let table_base_word = if tile_index >= 0x100 {
        tile_data_base_word.wrapping_add(((name_select + 1) * 0x1000) as u16)
    } else {
        tile_data_base_word
    };
    let tile_in_table = if tile_index >= 0x100 { tile_index & 0xFF } else { tile_index };
    let pv = tile_pixel(vram, tile_byte_addr(table_base_word, tile_in_table, 4), (src_ty % 8) as u8, (src_tx % 8) as u8, 2);
    if pv == 0 {
        None
    } else {
        Some((cgram.color((128 + (palette_num * 16 + pv as u16) as u8) as u8) & 0x7FFF, if palette_num < 4 { LAYER_OBJ_PAL03 } else { LAYER_OBJ }))
    }
}

/// What sprite `s` draws at screen pixel (sx, sy) in a priority-`want`
/// pass over lines `y0..y1`: only if its priority matches, it is on screen
/// horizontally, (sx, sy) falls inside it (rows placed modulo 256), the
/// line is in the band and the sprite survived that line's evaluation.
pub open spec fn sprite_pixel(
    vram: Vram,
    cgram: Cgram,
    oam: Oam,
    regs: PpuRegisters,
    masks: Seq<u128>,
    y0: int,
    y1: int,
    want: u8,
    s: int,
    sx: int,
    sy: int,
) -> Option<(u16, u8)> {
    let (x, y, w, h) = sprite_geom_spec(oam, regs, s);
    let attrs = oam.bytes()[s * 4 + 3];
    let ty = row_of(sy, y as int);
    let tx = sx - x;
    if (attrs >> 4) & 0x03 != want || x + w <= 0 || x >= 256 {
        None
    } else if ty >= h || tx < 0 || tx >= w || sy < y0 || sy >= y1 || masks[sy - y0] & (1u128 << (s as u128)) == 0 {
        None
    } else {
        sprite_texel(vram, cgram, oam, regs, s, tx, ty)
    }
}

/// The sprite pixel at (sx, sy) from the `k`-th sprite on in evaluation
/// order: the first one that draws there wins.
pub open spec fn sprites_from(
    vram: Vram,
    cgram: Cgram,
    oam: Oam,
    regs: PpuRegisters,
    masks: Seq<u128>,
    y0: int,
    y1: int,
    want: u8,
    k: nat,
    sx: int,
    sy: int,
) -> Option<(u16, u8)>
    decreases 128 - k,
{
    if k >= 128 {
        None
    } else {
        let s = ((regs.first_sprite & 0x7F) as int + k) % 128;
        match sprite_pixel(vram, cgram, oam, regs, masks, y0, y1, want, s, sx, sy) {
            Some(v) => Some(v),
            None => sprites_from(vram, cgram, oam, regs, masks, y0, y1, want, k + 1, sx, sy),
        }
    }
}

/// Sprite `s`'s pixel at sprite-local (tx, ty).
#[verifier::rlimit(40)]
#[verifier::spinoff_prover]
fn sprite_texel_at(vram: &Vram, cgram: &Cgram, oam: &Oam, regs: &PpuRegisters, s: usize, tx: u32, ty: u32, w: u32, h: u32) -> (r: Option<(u16, u8)>)
    requires
        s < 128,
        (w, h) == (sprite_geom_spec(*oam, *regs, s as int).2, sprite_geom_spec(*oam, *regs, s as int).3),
        size_ok(w, h),
        tx < w,
        ty < h,
    ensures
        r == sprite_texel(*vram, *cgram, *oam, *regs, s as int, tx as int, ty as int),
{
    reveal(sprite_texel);
    proof {
        oam.lemma_len();
        cgram.lemma_len();
    }
    let base = (s * 4) as u16;
    let tile_low = oam.read(base + 2) as u16;
    let attrs = oam.read(base + 3);
    proof {
        lemma_u8_masks();
    }
    let tile_data_base_word = ((regs.obsel & 0x07) as u16) * 0x2000;
    let name_select = ((regs.obsel >> 3) & 0x03) as u16;
    let palette_num = ((attrs >> 1) & 0x07) as u16;
    let tile_base = tile_low | (((attrs & 0x01) as u16) << 8);
    let src_ty = if attrs & 0x80 != 0 { h - 1 - ty } else { ty };
    let src_tx = if attrs & 0x40 != 0 { w - 1 - tx } else { tx };
    let row_component = ((src_ty / 8) as u16).wrapping_mul(16);
    let col_component = tile_base.wrapping_add((src_tx / 8) as u16) & 0x0F;
    let tile_index = (tile_base & 0xFFF0).wrapping_add(row_component).wrapping_add(col_component) & 0x1FF;
    let (table_base_word, tile_in_table) = if tile_index >= 0x100 {
        (tile_data_base_word.wrapping_add((name_select + 1) * 0x1000), tile_index & 0xFF)
    } else {
        (tile_data_base_word, tile_index)
    };
    let row_pixels = decode_tile_row(vram, table_base_word, tile_in_table, 4, (src_ty % 8) as u8);
    let pixel_value = row_pixels[(src_tx % 8) as usize];
    if pixel_value == 0 {
        return None;
    }
    assert(pixel_value <= 15) by {
        assert(pixel_value == tile_pixel(*vram, tile_byte_addr(table_base_word, tile_in_table, 4), (src_ty % 8) as u8, (src_tx % 8) as u8, 2));
        lemma_tile_pixel_4bpp(*vram, tile_byte_addr(table_base_word, tile_in_table, 4), (src_ty % 8) as u8, (src_tx % 8) as u8);
    }
    let cgram_index = 128 + (palette_num * 16 + pixel_value as u16) as u8;
    Some((cgram.read_color(cgram_index) & 0x7FFF, if palette_num < 4 { LAYER_OBJ_PAL03 } else { LAYER_OBJ }))
}

/// A 4bpp pixel is below 16.
proof fn lemma_tile_pixel_4bpp(vram: Vram, addr: u16, row: u8, x: u8)
    ensures
        tile_pixel(vram, addr, row, x, 2) <= 15,
{
    reveal_with_fuel(tile_pixel, 3);
    let p1 = tile_pixel(vram, addr, row, x, 1);
    let p0 = tile_pixel(vram, addr, row, x, 0);
    assert(p0 == 0);
    let b1 = vram.bytes()[addr.wrapping_add(((0u16) * 16) as u16).wrapping_add(((row as u16) * 2) as u16) as int];
    let b2 = vram.bytes()[addr.wrapping_add(((0u16) * 16) as u16).wrapping_add(((row as u16) * 2 + 1) as u16) as int];
    let b3 = vram.bytes()[addr.wrapping_add(((1u16) * 16) as u16).wrapping_add(((row as u16) * 2) as u16) as int];
    let b4 = vram.bytes()[addr.wrapping_add(((1u16) * 16) as u16).wrapping_add(((row as u16) * 2 + 1) as u16) as int];
    let bit = (7 - x) as u8;
    assert(((0u8 | (((((b1 >> bit) & 1) | (((b2 >> bit) & 1) << 1)) << 0u8) as u8)) | (((((b3 >> bit) & 1) | (((b4 >> bit) & 1) << 1)) << 2u8) as u8)) <= 15) by (bit_vector);
}

/// Sprite rows wrap at 256: the row of a sprite at Y `y` that lands on
/// line `(y + ty) & 0xFF` is `ty`.
proof fn lemma_row_wrap(y: int, ty: int)
    requires
        0 <= y < 256,
        0 <= ty < 256,
    ensures
        row_of((y + ty) % 256, y) == ty,
        forall|qy: int| 0 <= qy < 256 && #[trigger] row_of(qy, y) == ty ==> qy == (y + ty) % 256,
{
}

/// The sprite row that line `sy` shows of a sprite at Y `y`.
pub open spec fn row_of(sy: int, y: int) -> int {
    (sy - y) % 256
}

/// Pixel `i` is as a partly drawn sprite leaves it: if it lies in the first
/// `ty` rows, or in the first `tx` columns of row `ty`, and is not
/// window-masked, it holds what `f` gives (when `f` gives something);
/// otherwise it is as in `pb`/`pl`.
pub open spec fn partial_ok(
    buf: Seq<u16>,
    layers: Seq<u8>,
    pb: Seq<u16>,
    pl: Seq<u8>,
    skip: [bool; 256],
    f: spec_fn(int, int) -> Option<(u16, u8)>,
    y: int,
    x: int,
    ty: int,
    tx: int,
    i: int,
) -> bool {
    let (qx, qy) = (i % 256, i / 256);
    let tyq = row_of(qy, y);
    if (tyq < ty || (tyq == ty && qx - x < tx)) && !skip[qx] && f(qx, qy) is Some {
        buf[i] == f(qx, qy)->Some_0.0 && layers[i] == f(qx, qy)->Some_0.1
    } else {
        buf[i] == pb[i] && layers[i] == pl[i]
    }
}

/// The first `ty` rows of the sprite, plus the first `tx` columns of row
/// `ty`, are drawn.
pub open spec fn sprite_partial(
    buf: Seq<u16>,
    layers: Seq<u8>,
    pb: Seq<u16>,
    pl: Seq<u8>,
    skip: [bool; 256],
    f: spec_fn(int, int) -> Option<(u16, u8)>,
    y: int,
    x: int,
    ty: int,
    tx: int,
) -> bool {
    &&& buf.len() == pb.len()
    &&& layers.len() == pl.len()
    &&& forall|i: int| 0 <= i < buf.len() ==> #[trigger] partial_ok(buf, layers, pb, pl, skip, f, y, x, ty, tx, i)
}

/// A sprite drawn through all of its `h` rows is a finished layer pass.
proof fn lemma_partial_done(
    buf: Seq<u16>,
    layers: Seq<u8>,
    pb: Seq<u16>,
    pl: Seq<u8>,
    skip: [bool; 256],
    f: spec_fn(int, int) -> Option<(u16, u8)>,
    y: int,
    x: int,
    h: int,
)
    requires
        sprite_partial(buf, layers, pb, pl, skip, f, y, x, h, 0),
        buf.len() == 256 * 224,
        forall|px: int, py: int| #[trigger] f(px, py) is Some ==> row_of(py, y) < h,
    ensures
        layer_drawn(buf, layers, pb, pl, skip, 0, 224, f),
{
    assert forall|i: int| #![trigger buf[i]] 0 <= i < buf.len() implies {
        let (px, py) = (i % 256, i / 256);
        if 0 <= py < 224 && !skip[px] && f(px, py) is Some {
            buf[i] == f(px, py)->Some_0.0 && layers[i] == f(px, py)->Some_0.1
        } else {
            buf[i] == pb[i] && layers[i] == pl[i]
        }
    } by {
        assert(partial_ok(buf, layers, pb, pl, skip, f, y, x, h, 0, i));
    }
    assert forall|i: int| #![trigger layers[i]] 0 <= i < buf.len() implies {
        let (px, py) = (i % 256, i / 256);
        if 0 <= py < 224 && !skip[px] && f(px, py) is Some {
            buf[i] == f(px, py)->Some_0.0 && layers[i] == f(px, py)->Some_0.1
        } else {
            buf[i] == pb[i] && layers[i] == pl[i]
        }
    } by {
        assert(partial_ok(buf, layers, pb, pl, skip, f, y, x, h, 0, i));
    }
}

/// Draws sprite `s` over lines `y0..y1` in a priority-`want_priority` pass.
fn draw_sprite(
    buf: &mut [u16],
    layer_buf: &mut [u8],
    vram: &Vram,
    cgram: &Cgram,
    oam: &Oam,
    regs: &PpuRegisters,
    sprite_eval: &SpriteEval,
    want_priority: u8,
    skip: &[bool; SCREEN_WIDTH],
    y0: usize,
    y1: usize,
    s: usize,
)
    requires
        s < 128,
        old(buf)@.len() == SCREEN_WIDTH * SCREEN_HEIGHT,
        old(layer_buf)@.len() == SCREEN_WIDTH * SCREEN_HEIGHT,
        y0 <= y1 <= SCREEN_HEIGHT,
        sprite_eval.y0 == y0,
        sprite_eval.masks@.len() == y1 - y0,
    ensures
        layer_drawn(final(buf)@, final(layer_buf)@, old(buf)@, old(layer_buf)@, *skip, 0, 224,
            |px: int, py: int| sprite_pixel(*vram, *cgram, *oam, *regs, sprite_eval.masks@, y0 as int, y1 as int, want_priority, s as int, px, py)),
{
    proof {
        oam.lemma_len();
        lemma_sprite_bits();
        lemma_u8_masks();
    }
    let ghost f = |px: int, py: int| sprite_pixel(*vram, *cgram, *oam, *regs, sprite_eval.masks@, y0 as int, y1 as int, want_priority, s as int, px, py);
    let (x, y, w, h) = sprite_geom(oam, regs, s);
    let attrs = oam.read((s * 4 + 3) as u16);
    if (attrs >> 4) & 0x03 != want_priority || x + (w as i32) <= 0 || x >= SCREEN_WIDTH as i32 {
        proof {
            assert forall|px: int, py: int| #![trigger f(px, py)] f(px, py) is None by {}
        }
        return;
    }
    let mut ty: u32 = 0;
    while ty < h
        invariant
            s < 128,
            ty <= h,
            size_ok(w, h),
            (x, y, w, h) == sprite_geom_spec(*oam, *regs, s as int),
            attrs == oam.bytes()[s * 4 + 3],
            (attrs >> 4) & 0x03 == want_priority,
            x + w > 0,
            x < 256,
            -256 <= x <= 255,
            0 <= y <= 255,
            buf@.len() == 256 * 224,
            layer_buf@.len() == 256 * 224,
            y0 <= y1 <= 224,
            sprite_eval.y0 == y0,
            sprite_eval.masks@.len() == y1 - y0,
            f == (|px: int, py: int| sprite_pixel(*vram, *cgram, *oam, *regs, sprite_eval.masks@, y0 as int, y1 as int, want_priority, s as int, px, py)),
            sprite_partial(buf@, layer_buf@, old(buf)@, old(layer_buf)@, *skip, f, y as int, x as int, ty as int, 0),
        decreases h - ty,
    {
        proof {
            lemma_sprite_bits();
            lemma_row_wrap(y as int, ty as int);
        }
        let ghost rb = buf@;
        let ghost rl = layer_buf@;
        let screen_y = (y + ty as i32) & 0xFF;
        let row_shown = screen_y >= y0 as i32 && screen_y < y1 as i32
            && sprite_eval.masks[(screen_y as usize) - sprite_eval.y0] & (1u128 << (s as u128)) != 0;
        if row_shown {
            let mut tx: u32 = 0;
            while tx < w
                invariant
                    s < 128,
                    ty < h,
                    tx <= w,
                    size_ok(w, h),
                    (x, y, w, h) == sprite_geom_spec(*oam, *regs, s as int),
                    attrs == oam.bytes()[s * 4 + 3],
                    (attrs >> 4) & 0x03 == want_priority,
                    x + w > 0,
                    x < 256,
                    -256 <= x <= 255,
                    0 <= y <= 255,
                    screen_y == (y + ty) % 256,
                    y0 <= screen_y < y1 <= 224,
                    sprite_eval.y0 == y0,
                    sprite_eval.masks@.len() == y1 - y0,
                    sprite_eval.masks@[screen_y - y0] & (1u128 << (s as u128)) != 0,
                    buf@.len() == 256 * 224,
                    layer_buf@.len() == 256 * 224,
                    f == (|px: int, py: int| sprite_pixel(*vram, *cgram, *oam, *regs, sprite_eval.masks@, y0 as int, y1 as int, want_priority, s as int, px, py)),
                    sprite_partial(buf@, layer_buf@, old(buf)@, old(layer_buf)@, *skip, f, y as int, x as int, ty as int, tx as int),
                decreases w - tx,
            {
                proof {
                    lemma_row_wrap(y as int, ty as int);
                }
                let ghost pb = buf@;
                let ghost pl = layer_buf@;
                let screen_x = x + tx as i32;
                let ghost target: int = (screen_y as int) * 256 + screen_x;
                if screen_x >= 0 && screen_x < SCREEN_WIDTH as i32 && !skip[screen_x as usize] {
                    let texel = sprite_texel_at(vram, cgram, oam, regs, s, tx, ty, w, h);
                    assert(f(screen_x as int, screen_y as int) == texel);
                    if let Some((color, layer)) = texel {
                        let idx = (screen_y as usize) * SCREEN_WIDTH + (screen_x as usize);
                        buf[idx] = color;
                        layer_buf[idx] = layer;
                    }
                }
                proof {
                    assert forall|i: int| 0 <= i < buf@.len() implies #[trigger] partial_ok(
                        buf@, layer_buf@, old(buf)@, old(layer_buf)@, *skip, f, y as int, x as int, ty as int, tx + 1, i)
                    by {
                        assert(partial_ok(pb, pl, old(buf)@, old(layer_buf)@, *skip, f, y as int, x as int, ty as int, tx as int, i));
                        let (qx, qy) = (i % 256, i / 256);
                        if row_of(qy, y as int) == ty && qx - x == tx {
                            assert(qy == screen_y);
                            assert(i == target);
                        } else if i != target {
                            assert(buf@[i] == pb[i] && layer_buf@[i] == pl[i]);
                        }
                    }
                }
                tx = tx + 1;
            }
        }
        proof {
            assert forall|i: int| 0 <= i < buf@.len() implies #[trigger] partial_ok(
                buf@, layer_buf@, old(buf)@, old(layer_buf)@, *skip, f, y as int, x as int, (ty + 1) as int, 0, i)
            by {
                let (qx, qy) = (i % 256, i / 256);
                if row_shown {
                    assert(partial_ok(buf@, layer_buf@, old(buf)@, old(layer_buf)@, *skip, f, y as int, x as int, ty as int, w as int, i));
                } else {
                    assert(partial_ok(rb, rl, old(buf)@, old(layer_buf)@, *skip, f, y as int, x as int, ty as int, 0, i));
                    if row_of(qy, y as int) == ty {
                        assert(qy == screen_y);
                    }
                }
            }
        }
        ty = ty + 1;
    }
    proof {
        assert forall|px: int, py: int| #[trigger] f(px, py) is Some implies row_of(py, y as int) < h by {}
        lemma_partial_done(buf@, layer_buf@, old(buf)@, old(layer_buf)@, *skip, f, y as int, x as int, h as int);
    }
}

/// Draws the sprites of OBJ priority `want_priority` over lines `y0..y1`:
/// where several overlap, the one closest to FirstSprite in evaluation
/// order wins; a sprite only shows on lines where it survived evaluation.
pub fn draw_sprites(
    buf: &mut [u16],
    layer_buf: &mut [u8],
    vram: &Vram,
    cgram: &Cgram,
    oam: &Oam,
    regs: &PpuRegisters,
    sprite_eval: &SpriteEval,
    want_priority: u8,
    skip: &[bool; SCREEN_WIDTH],
    y0: usize,
    y1: usize,
)
    requires
        old(buf)@.len() == SCREEN_WIDTH * SCREEN_HEIGHT,
        old(layer_buf)@.len() == SCREEN_WIDTH * SCREEN_HEIGHT,
        y0 <= y1 <= SCREEN_HEIGHT,
        sprite_eval.y0 == y0,
        sprite_eval.masks@.len() == y1 - y0,
    ensures
        layer_drawn(final(buf)@, final(layer_buf)@, old(buf)@, old(layer_buf)@, *skip, 0, 224,
            |px: int, py: int| sprites_from(*vram, *cgram, *oam, *regs, sprite_eval.masks@, y0 as int, y1 as int, want_priority, 0, px, py)),
{
    let first = (regs.first_sprite & 0x7F) as usize;
    let mut k: usize = 128;
    while k > 0
        invariant
            k <= 128,
            first == (regs.first_sprite & 0x7F) as usize,
            buf@.len() == 256 * 224,
            layer_buf@.len() == 256 * 224,
            y0 <= y1 <= 224,
            sprite_eval.y0 == y0,
            sprite_eval.masks@.len() == y1 - y0,
            layer_drawn(buf@, layer_buf@, old(buf)@, old(layer_buf)@, *skip, 0, 224,
                |px: int, py: int| sprites_from(*vram, *cgram, *oam, *regs, sprite_eval.masks@, y0 as int, y1 as int, want_priority, k as nat, px, py)),
        decreases k,
    {
        k = k - 1;
        let s = (first + k) % 128;
        draw_sprite(buf, layer_buf, vram, cgram, oam, regs, sprite_eval, want_priority, skip, y0, y1, s);
    }
}

/// The masks of every line of band `y0..y1`, as `evaluate_sprites`
/// produces them.
pub open spec fn band_masks(oam: Oam, regs: PpuRegisters, y0: int, y1: int) -> Seq<u128> {
    Seq::new((y1 - y0) as nat, |l: int| line_eval(oam, regs, y0 + l).2)
}

/// Sprites draw nothing outside the band they were evaluated for.
pub proof fn lemma_sprites_outside_band(
    vram: Vram,
    cgram: Cgram,
    oam: Oam,
    regs: PpuRegisters,
    masks: Seq<u128>,
    y0: int,
    y1: int,
    want: u8,
    k: nat,
    sx: int,
    sy: int,
)
    requires
        sy < y0 || sy >= y1,
    ensures
        sprites_from(vram, cgram, oam, regs, masks, y0, y1, want, k, sx, sy) is None,
    decreases 128 - k,
{
    if k < 128 {
        lemma_sprites_outside_band(vram, cgram, oam, regs, masks, y0, y1, want, k + 1, sx, sy);
    }
}

/// A sprite pixel on line `sy` depends only on that line's evaluation, not
/// on which band the line was drawn in.
pub proof fn lemma_sprites_band_independent(
    vram: Vram,
    cgram: Cgram,
    oam: Oam,
    regs: PpuRegisters,
    y0: int,
    y1: int,
    want: u8,
    k: nat,
    sx: int,
    sy: int,
)
    requires
        y0 <= sy < y1,
    ensures
        sprites_from(vram, cgram, oam, regs, band_masks(oam, regs, y0, y1), y0, y1, want, k, sx, sy)
            == sprites_from(vram, cgram, oam, regs, band_masks(oam, regs, sy, sy + 1), sy, sy + 1, want, k, sx, sy),
    decreases 128 - k,
{
    if k < 128 {
        assert(band_masks(oam, regs, y0, y1)[sy - y0] == band_masks(oam, regs, sy, sy + 1)[0]);
        lemma_sprites_band_independent(vram, cgram, oam, regs, y0, y1, want, k + 1, sx, sy);
    }
}

/// Sprite pixels come from OBJ layer ids only.
pub proof fn lemma_sprites_layer(
    vram: Vram,
    cgram: Cgram,
    oam: Oam,
    regs: PpuRegisters,
    masks: Seq<u128>,
    y0: int,
    y1: int,
    want: u8,
    k: nat,
    sx: int,
    sy: int,
)
    ensures
        sprites_from(vram, cgram, oam, regs, masks, y0, y1, want, k, sx, sy) matches Some(v)
            ==> v.1 == LAYER_OBJ || v.1 == LAYER_OBJ_PAL03,
    decreases 128 - k,
{
    reveal(sprite_texel);
    if k < 128 {
        lemma_sprites_layer(vram, cgram, oam, regs, masks, y0, y1, want, k + 1, sx, sy);
    }
}

/// The number of set bits among bits `0..n` of a sprite mask.
pub open spec fn count_ones(m: u128, n: nat) -> nat
    decreases n,
{
    if n == 0 {
        0
    } else {
        count_ones(m, (n - 1) as nat) + ((m >> ((n - 1) as u128)) & 1) as nat
    }
}

proof fn lemma_bit_of_set(m: u128, s: u128, k: u128)
    by (bit_vector)
    requires
        s < 128,
        k < 128,
    ensures
        ((m | (1u128 << s)) >> k) & 1 == if k == s { 1u128 } else { (m >> k) & 1 },
        (m >> k) & 1 <= 1,
        (0u128 >> k) & 1 == 0,
{
}

/// Setting one bit adds at most one to the count.
proof fn lemma_count_set_bit(m: u128, s: u128, n: nat)
    requires
        s < 128,
        n <= 128,
    ensures
        count_ones(m | (1u128 << s), n) <= count_ones(m, n) + 1,
        count_ones(0, n) == 0,
    decreases n,
{
    if n > 0 {
        lemma_count_set_bit(m, s, (n - 1) as nat);
        lemma_bit_of_set(m, s, (n - 1) as u128);
        if ((n - 1) as u128) == s {
            lemma_count_below(m, s, (n - 1) as nat);
        }
    }
}

/// Below bit `s`, setting bit `s` changes no count.
proof fn lemma_count_below(m: u128, s: u128, n: nat)
    requires
        s < 128,
        n <= s,
    ensures
        count_ones(m | (1u128 << s), n) == count_ones(m, n),
    decreases n,
{
    if n > 0 {
        lemma_count_below(m, s, (n - 1) as nat);
        lemma_bit_of_set(m, s, (n - 1) as u128);
    }
}

/// One evaluation step keeps the surviving sprites within the 32 counted
/// in range.
proof fn lemma_eval_step_count(g: (i32, i32, u32, u32), ly: int, st: EvalState, s: int)
    requires
        0 <= s < 128,
        st.0 <= 32,
        count_ones(st.2, 128) <= st.0,
    ensures
        eval_step(g, ly, st, s).0 <= 32,
        count_ones(eval_step(g, ly, st, s).2, 128) <= eval_step(g, ly, st, s).0,
{
    lemma_count_set_bit(st.2, s as u128, 128);
}

proof fn lemma_eval_from_count(geoms: Seq<(i32, i32, u32, u32)>, first: u8, ly: int, k: nat, st: EvalState)
    requires
        st.0 <= 32,
        count_ones(st.2, 128) <= st.0,
    ensures
        eval_line_from(geoms, first, ly, k, st).0 <= 32,
        count_ones(eval_line_from(geoms, first, ly, k, st).2, 128) <= eval_line_from(geoms, first, ly, k, st).0,
    decreases 128 - k,
{
    if k < 128 {
        let s = (first as int + k) % 128;
        lemma_eval_step_count(geoms[s], ly, st, s);
        lemma_eval_from_count(geoms, first, ly, k + 1, eval_step(geoms[s], ly, st, s));
    }
}

/// No line shows more than 32 sprites: at most 32 bits of a line's
/// surviving-sprite mask are set.
pub proof fn lemma_at_most_32_sprites_per_line(oam: Oam, regs: PpuRegisters, ly: int)
    ensures
        count_ones(line_eval(oam, regs, ly).2, 128) <= 32,
{
    lemma_count_set_bit(0, 0, 128);
    lemma_eval_from_count(geoms_spec(oam, regs), regs.first_sprite & 0x7F, ly, 0, (0, 34, 0, 0));
}


/// The 8-pixel tiles spanned by the sprites of mask `m` among `0..n`.
pub open spec fn mask_tiles(geoms: Seq<(i32, i32, u32, u32)>, m: u128, n: nat) -> int
    decreases n,
{
    if n == 0 {
        0
    } else {
        mask_tiles(geoms, m, (n - 1) as nat) + if (m >> ((n - 1) as u128)) & 1 == 1 {
            (geoms[n - 1].2 / 8) as int
        } else {
            0int
        }
    }
}

/// Adding a sprite that is not yet in the mask adds its tiles.
proof fn lemma_tiles_set_bit(geoms: Seq<(i32, i32, u32, u32)>, m: u128, s: u128, n: nat)
    requires
        s < 128,
        n <= 128,
        (m >> s) & 1 == 0,
    ensures
        mask_tiles(geoms, m | (1u128 << s), n) == mask_tiles(geoms, m, n) + if s < n { (geoms[s as int].2 / 8) as int } else { 0int },
        mask_tiles(geoms, 0, n) == 0,
    decreases n,
{
    if n > 0 {
        lemma_tiles_set_bit(geoms, m, s, (n - 1) as nat);
        lemma_bit_of_set(m, s, (n - 1) as u128);
    }
}

/// Scanning on from the `k`-th sprite keeps the tiles of the surviving
/// sprites and the budget left summing to 34, provided the mask so far
/// holds only sprites already scanned.
proof fn lemma_eval_from_tiles(geoms: Seq<(i32, i32, u32, u32)>, first: u8, ly: int, k: nat, st: EvalState)
    requires
        first < 128,
        k <= 128,
        geoms.len() == 128,
        forall|t: int| 0 <= t < 128 ==> size_ok(#[trigger] geoms[t].2, geoms[t].3),
        eval_inv(st),
        mask_tiles(geoms, st.2, 128) + st.1 == 34,
        forall|t: u128| t < 128 && #[trigger] ((st.2 >> t) & 1) == 1 ==> (t - first) % 128 < k,
    ensures
        eval_inv(eval_line_from(geoms, first, ly, k, st)),
        mask_tiles(geoms, eval_line_from(geoms, first, ly, k, st).2, 128) + eval_line_from(geoms, first, ly, k, st).1 == 34,
    decreases 128 - k,
{
    if k < 128 {
        let s = (first as int + k) % 128;
        let st2 = eval_step(geoms[s], ly, st, s);
        lemma_eval_step_inv(geoms[s], ly, st, s);
        lemma_bit_of_set(st.2, s as u128, s as u128);
        assert((s - first) % 128 == k);
        if (st.2 >> (s as u128)) & 1 == 1 {
            assert((s as u128 - first) % 128 < k);
        }
        assert forall|t: u128| t < 128 && #[trigger] ((st2.2 >> t) & 1) == 1 implies (t - first) % 128 < k + 1 by {
            lemma_bit_of_set(st.2, s as u128, t);
        }
        lemma_tiles_set_bit(geoms, st.2, s as u128, 128);
        lemma_eval_from_tiles(geoms, first, ly, k + 1, st2);
    }
}

/// A line's surviving sprites span at most 34 tiles unless the budget ran
/// out inside the last one admitted, which overruns it by at most 7 tiles:
/// their tiles and the budget left sum to 34, and the budget left never
/// drops below -7.
pub proof fn lemma_tile_budget(oam: Oam, regs: PpuRegisters, ly: int)
    ensures
        mask_tiles(geoms_spec(oam, regs), line_eval(oam, regs, ly).2, 128) + line_eval(oam, regs, ly).1 == 34,
        line_eval(oam, regs, ly).1 >= -7,
        line_eval(oam, regs, ly).1 >= 0 ==> mask_tiles(geoms_spec(oam, regs), line_eval(oam, regs, ly).2, 128) <= 34,
{
    let geoms = geoms_spec(oam, regs);
    let fs = regs.first_sprite;
    let first = fs & 0x7F;
    assert(fs & 0x7F < 128) by (bit_vector);
    lemma_size_pairs((regs.obsel >> 5) & 0x07);
    lemma_bit_of_set(0, 0, 0);
    lemma_tiles_set_bit(geoms, 0, 0, 128);
    assert forall|t: u128| t < 128 && #[trigger] ((0u128 >> t) & 1) == 1 implies (t - first) % 128 < 0 by {
        lemma_bit_of_set(0, 0, t);
    }
    lemma_eval_from_tiles(geoms, first, ly, 0, (0, 34, 0, 0));
}

} // verus!
