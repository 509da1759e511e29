//! Frame composition: the public entry points, the per-scanline band
//! splitter, and the main/sub screen pass that applies windows, color math
//! and brightness to produce RGBA8888 output.
use vstd::prelude::*;
use super::background::{bg_layer_pixel, bg_params_spec, draw_bg_layer};
use super::color::{average_bgr555, average_spec, bgr555_to_rgb8, color_math, color_math_spec, rgb8_spec};
use super::mode7::{draw_mode7_layer, mode7_pixel};
use super::sprites::{
    band_flags, band_masks, draw_sprites, evaluate_sprites, lemma_sprites_band_independent,
    lemma_sprites_layer, lemma_sprites_outside_band, line_eval, sprites_from, SpriteEval,
};
use super::window::{in_window, window_line};
use super::{
    bg_depths, bg_depths_spec, layer_drawn, lemma_u8_masks, LAYER_BACKDROP, LAYER_BG1, LAYER_OBJ, LAYER_OBJ_PAL03, SCREEN_HEIGHT,
    SCREEN_WIDTH,
};
use crate::cgram::Cgram;
use crate::oam::Oam;
use crate::ppu::PpuRegisters;
use crate::vram::Vram;

verus! {

/// One entry of a mode's back-to-front draw order.
#[derive(Clone, Copy)]
pub enum DrawOp {
    /// BG `0` (0-3), only tiles whose priority bit is `1`.
    Bg(usize, u8),
    /// The sprites of OBJ priority `0` (0-3).
    Obj(u8),
    /// Mode 7's BG1 (`false`) or its EXTBG BG2 (`true`) at priority `1`.
    Mode7(bool, u8),
}

/// The back-to-front order of modes 0-6 (mode 1 with BG3 in front when
/// `bg3_priority`); modes 2-6 share one BG1-over-BG2 order.
pub open spec fn composite_order_spec(mode: u8, bg3_priority: bool) -> Seq<DrawOp> {
    if mode == 0 {
        seq![
            DrawOp::Bg(3, 0), DrawOp::Bg(2, 0), DrawOp::Obj(0), DrawOp::Bg(3, 1), DrawOp::Bg(2, 1), DrawOp::Obj(1),
            DrawOp::Bg(1, 0), DrawOp::Bg(0, 0), DrawOp::Obj(2), DrawOp::Bg(1, 1), DrawOp::Bg(0, 1), DrawOp::Obj(3),
        ]
    } else if mode == 1 && bg3_priority {
        seq![
            DrawOp::Bg(2, 0), DrawOp::Obj(0), DrawOp::Obj(1), DrawOp::Bg(1, 0), DrawOp::Bg(0, 0), DrawOp::Obj(2),
            DrawOp::Bg(1, 1), DrawOp::Bg(0, 1), DrawOp::Obj(3), DrawOp::Bg(2, 1),
        ]
    } else if mode == 1 {
        seq![
            DrawOp::Bg(2, 0), DrawOp::Obj(0), DrawOp::Bg(2, 1), DrawOp::Obj(1), DrawOp::Bg(1, 0), DrawOp::Bg(0, 0),
            DrawOp::Obj(2), DrawOp::Bg(1, 1), DrawOp::Bg(0, 1), DrawOp::Obj(3),
        ]
    } else {
        seq![
            DrawOp::Bg(1, 0), DrawOp::Obj(0), DrawOp::Bg(0, 0), DrawOp::Obj(1), DrawOp::Bg(1, 1), DrawOp::Obj(2),
            DrawOp::Bg(0, 1), DrawOp::Obj(3),
        ]
    }
}

/// Mode 7's back-to-front order: BG2 (EXTBG, low), OBJ0, BG1, OBJ1,
/// BG2 (high), OBJ2, OBJ3.
pub open spec fn mode7_order_spec() -> Seq<DrawOp> {
    seq![
        DrawOp::Mode7(true, 0), DrawOp::Obj(0), DrawOp::Mode7(false, 0), DrawOp::Obj(1), DrawOp::Mode7(true, 1),
        DrawOp::Obj(2), DrawOp::Obj(3),
    ]
}

/// The draw order the registers select.
pub open spec fn draw_order_spec(regs: PpuRegisters) -> Seq<DrawOp> {
    let mode = regs.bgmode & 0x07;
    if mode == 7 {
        mode7_order_spec()
    } else {
        composite_order_spec(mode, regs.bgmode & 0x08 != 0)
    }
}

/// The back-to-front draw order of a BG mode 0-6.
fn composite_order(mode: u8, bg3_priority: bool) -> (r: Vec<DrawOp>)
    ensures
        r@ == composite_order_spec(mode, bg3_priority),
{
    let r = if mode == 0 {
        vec![
            DrawOp::Bg(3, 0), DrawOp::Bg(2, 0), DrawOp::Obj(0), DrawOp::Bg(3, 1), DrawOp::Bg(2, 1), DrawOp::Obj(1),
            DrawOp::Bg(1, 0), DrawOp::Bg(0, 0), DrawOp::Obj(2), DrawOp::Bg(1, 1), DrawOp::Bg(0, 1), DrawOp::Obj(3),
        ]
    } else if mode == 1 && bg3_priority {
        vec![
            DrawOp::Bg(2, 0), DrawOp::Obj(0), DrawOp::Obj(1), DrawOp::Bg(1, 0), DrawOp::Bg(0, 0), DrawOp::Obj(2),
            DrawOp::Bg(1, 1), DrawOp::Bg(0, 1), DrawOp::Obj(3), DrawOp::Bg(2, 1),
        ]
    } else if mode == 1 {
        vec![
            DrawOp::Bg(2, 0), DrawOp::Obj(0), DrawOp::Bg(2, 1), DrawOp::Obj(1), DrawOp::Bg(1, 0), DrawOp::Bg(0, 0),
            DrawOp::Obj(2), DrawOp::Bg(1, 1), DrawOp::Bg(0, 1), DrawOp::Obj(3),
        ]
    } else {
        vec![
            DrawOp::Bg(1, 0), DrawOp::Obj(0), DrawOp::Bg(0, 0), DrawOp::Obj(1), DrawOp::Bg(1, 1), DrawOp::Obj(2),
            DrawOp::Bg(0, 1), DrawOp::Obj(3),
        ]
    };
    assert(r@ =~= composite_order_spec(mode, bg3_priority));
    r
}

/// Mode 7's back-to-front draw order.
fn mode7_order() -> (r: Vec<DrawOp>)
    ensures
        r@ == mode7_order_spec(),
{
    let r = vec![
        DrawOp::Mode7(true, 0), DrawOp::Obj(0), DrawOp::Mode7(false, 0), DrawOp::Obj(1), DrawOp::Mode7(true, 1),
        DrawOp::Obj(2), DrawOp::Obj(3),
    ];
    assert(r@ =~= mode7_order_spec());
    r
}

/// The window layer (0-3 BG1-4, 4 OBJ) that masks an entry.
pub open spec fn op_window_layer(op: DrawOp) -> int {
    match op {
        DrawOp::Bg(bg, _) => bg as int,
        DrawOp::Obj(_) => 4,
        DrawOp::Mode7(extbg, _) => if extbg { 1 } else { 0 },
    }
}

/// Whether an entry draws at all on a screen whose layer designation is
/// `mask` (TM or TS): its layer must exist in the mode and be designated;
/// EXTBG's BG2 also needs SETINI bit 6.
pub open spec fn op_enabled(regs: PpuRegisters, mask: u8, op: DrawOp) -> bool {
    match op {
        DrawOp::Bg(bg, _) => bg_depths_spec(regs.bgmode & 0x07)[bg as int] is Some && mask & (1u8 << (bg as u8)) != 0,
        DrawOp::Obj(_) => mask & 0x10 != 0,
        DrawOp::Mode7(extbg, _) => if extbg {
            regs.setini & 0x40 != 0 && mask & 0x02 != 0
        } else {
            mask & 0x01 != 0
        },
    }
}

/// Whether window layer `layer` is masked at column `x`, given the screen's
/// window-mask designation `window_mask` (TMW or TSW).
pub open spec fn window_skip(regs: PpuRegisters, window_mask: u8, layer: int, x: int) -> bool {
    window_mask & (1u8 << (layer as u8)) != 0 && in_window(regs, layer, x as u8)
}

/// What an entry's layer shows at (px, py) in a band `y0..y1`, before
/// windows and designation.
pub open spec fn op_source(
    vram: Vram,
    cgram: Cgram,
    oam: Oam,
    regs: PpuRegisters,
    y0: int,
    y1: int,
    op: DrawOp,
    px: int,
    py: int,
) -> Option<(u16, u8)> {
    match op {
        DrawOp::Bg(bg, prio) => bg_layer_pixel(
            vram,
            cgram,
            bg_params_spec(regs, bg, bg_depths_spec(regs.bgmode & 0x07)[bg as int]->Some_0, prio),
            px,
            py,
        ),
        DrawOp::Obj(prio) => sprites_from(vram, cgram, oam, regs, band_masks(oam, regs, y0, y1), y0, y1, prio, 0, px, py),
        DrawOp::Mode7(extbg, prio) => mode7_pixel(vram, cgram, regs, extbg, prio, px, py),
    }
}

/// What an entry draws at (px, py) on a screen with designation `mask` and
/// window-mask designation `window_mask`.
pub open spec fn op_pixel(
    vram: Vram,
    cgram: Cgram,
    oam: Oam,
    regs: PpuRegisters,
    y0: int,
    y1: int,
    mask: u8,
    window_mask: u8,
    op: DrawOp,
    px: int,
    py: int,
) -> Option<(u16, u8)> {
    if op_enabled(regs, mask, op) && !window_skip(regs, window_mask, op_window_layer(op), px) {
        op_source(vram, cgram, oam, regs, y0, y1, op, px, py)
    } else {
        None
    }
}

/// The color and source layer at (px, py) after drawing `ops` back to
/// front over `base`: the frontmost entry that draws there wins.
pub open spec fn stack_top(
    vram: Vram,
    cgram: Cgram,
    oam: Oam,
    regs: PpuRegisters,
    y0: int,
    y1: int,
    mask: u8,
    window_mask: u8,
    ops: Seq<DrawOp>,
    px: int,
    py: int,
    base: (u16, u8),
) -> (u16, u8)
    decreases ops.len(),
{
    if ops.len() == 0 {
        base
    } else {
        match op_pixel(vram, cgram, oam, regs, y0, y1, mask, window_mask, ops.last(), px, py) {
            Some(v) => v,
            None => stack_top(vram, cgram, oam, regs, y0, y1, mask, window_mask, ops.drop_last(), px, py, base),
        }
    }
}

/// Pixel `i` of a screen buffer after drawing `ops` over band `y0..y1`:
/// inside the band it is the stack over its previous value, outside it is
/// untouched.
pub open spec fn stacked(
    buf: Seq<u16>,
    layers: Seq<u8>,
    old_buf: Seq<u16>,
    old_layers: Seq<u8>,
    vram: Vram,
    cgram: Cgram,
    oam: Oam,
    regs: PpuRegisters,
    y0: int,
    y1: int,
    mask: u8,
    window_mask: u8,
    ops: Seq<DrawOp>,
    i: int,
) -> bool {
    let (px, py) = (i % 256, i / 256);
    if y0 <= py < y1 {
        (buf[i], layers[i]) == stack_top(vram, cgram, oam, regs, y0, y1, mask, window_mask, ops, px, py, (old_buf[i], old_layers[i]))
    } else {
        buf[i] == old_buf[i] && layers[i] == old_layers[i]
    }
}

/// Every entry of the draw orders names a BG that exists (0-3) and a
/// priority the layer has.
pub open spec fn order_ok(ops: Seq<DrawOp>) -> bool {
    forall|j: int|
        0 <= j < ops.len() ==> match #[trigger] ops[j] {
            DrawOp::Bg(bg, prio) => bg < 4 && prio <= 1,
            DrawOp::Obj(prio) => prio <= 3,
            DrawOp::Mode7(_, prio) => prio <= 1,
        }
}

proof fn lemma_order_ok(regs: PpuRegisters)
    ensures
        order_ok(draw_order_spec(regs)),
{
}

/// The skip mask of window layer `layer` for a screen whose window-mask
/// designation is `window_mask`.
fn layer_skip(regs: &PpuRegisters, window_mask: u8, layer: usize) -> (out: [bool; SCREEN_WIDTH])
    requires
        layer < 5,
    ensures
        forall|x: int| 0 <= x < 256 ==> #[trigger] out[x] == window_skip(*regs, window_mask, layer as int, x),
{
    if window_mask & (1u8 << (layer as u8)) != 0 {
        window_line(regs, layer)
    } else {
        [false; SCREEN_WIDTH]
    }
}

/// One pass of the draw order: a pass that draws `pixel` where `skip`
/// allows over lines `ya..yb` adds entry `j` to the stack, as long as it
/// draws exactly what entry `j` draws inside the band and nothing outside.
proof fn lemma_pass(
    buf: Seq<u16>,
    layers: Seq<u8>,
    mid_buf: Seq<u16>,
    mid_layers: Seq<u8>,
    old_buf: Seq<u16>,
    old_layers: Seq<u8>,
    skip: [bool; 256],
    ya: int,
    yb: int,
    pixel: spec_fn(int, int) -> Option<(u16, u8)>,
    vram: Vram,
    cgram: Cgram,
    oam: Oam,
    regs: PpuRegisters,
    y0: int,
    y1: int,
    mask: u8,
    window_mask: u8,
    ops: Seq<DrawOp>,
    j: int,
)
    requires
        0 <= j < ops.len(),
        mid_buf.len() == old_buf.len() == 256 * 224,
        mid_layers.len() == old_layers.len() == 256 * 224,
        layer_drawn(buf, layers, mid_buf, mid_layers, skip, ya, yb, pixel),
        forall|i: int|
            0 <= i < 256 * 224 ==> #[trigger] stacked(
                mid_buf, mid_layers, old_buf, old_layers, vram, cgram, oam, regs, y0, y1, mask, window_mask,
                ops.take(j), i),
        forall|px: int, py: int|
            #![trigger pixel(px, py)]
            0 <= px < 256 && 0 <= py < 224 ==> if y0 <= py < y1 {
                op_pixel(vram, cgram, oam, regs, y0, y1, mask, window_mask, ops[j], px, py)
                    == (if ya <= py < yb && !skip[px] { pixel(px, py) } else { None })
            } else {
                !(ya <= py < yb && !skip[px] && pixel(px, py) is Some)
            },
    ensures
        buf.len() == 256 * 224,
        layers.len() == 256 * 224,
        forall|i: int|
            0 <= i < 256 * 224 ==> #[trigger] stacked(
                buf, layers, old_buf, old_layers, vram, cgram, oam, regs, y0, y1, mask, window_mask, ops.take(j + 1),
                i),
{
    assert(ops.take(j + 1).drop_last() =~= ops.take(j));
    assert(ops.take(j + 1).last() == ops[j]);
    assert forall|i: int| 0 <= i < 256 * 224 implies #[trigger] stacked(
        buf, layers, old_buf, old_layers, vram, cgram, oam, regs, y0, y1, mask, window_mask, ops.take(j + 1), i)
    by {
        assert(stacked(mid_buf, mid_layers, old_buf, old_layers, vram, cgram, oam, regs, y0, y1, mask, window_mask, ops.take(j), i));
        let (px, py) = (i % 256, i / 256);
        assert(0 <= py < 224);
        assert(if ya <= py < yb && !skip[px] && pixel(px, py) is Some {
            buf[i] == pixel(px, py)->Some_0.0 && layers[i] == pixel(px, py)->Some_0.1
        } else {
            buf[i] == mid_buf[i] && layers[i] == mid_layers[i]
        });
    }
}

/// Draws every layer designated in `mask` (TM or TS) into `buf`/`layer_buf`
/// over lines `y0..y1`, back to front in the mode's order, masking the
/// layers selected in `window_mask` (TMW or TSW) by their windows.
fn render_layers(
    buf: &mut [u16],
    layer_buf: &mut [u8],
    mask: u8,
    window_mask: u8,
    vram: &Vram,
    cgram: &Cgram,
    oam: &Oam,
    regs: &PpuRegisters,
    sprite_eval: &SpriteEval,
    y0: usize,
    y1: usize,
)
    requires
        old(buf)@.len() == SCREEN_WIDTH * SCREEN_HEIGHT,
        old(layer_buf)@.len() == SCREEN_WIDTH * SCREEN_HEIGHT,
        y0 <= y1 <= SCREEN_HEIGHT,
        sprite_eval.y0 == y0,
        sprite_eval.masks@ == band_masks(*oam, *regs, y0 as int, y1 as int),
    ensures
        final(buf)@.len() == SCREEN_WIDTH * SCREEN_HEIGHT,
        final(layer_buf)@.len() == SCREEN_WIDTH * SCREEN_HEIGHT,
        forall|i: int|
            0 <= i < SCREEN_WIDTH * SCREEN_HEIGHT ==> #[trigger] stacked(
                final(buf)@, final(layer_buf)@, old(buf)@, old(layer_buf)@, *vram, *cgram, *oam, *regs, y0 as int,
                y1 as int, mask, window_mask, draw_order_spec(*regs), i),
{
    let mode = regs.bgmode & 0x07;
    let ops = if mode == 7 { mode7_order() } else { composite_order(mode, regs.bgmode & 0x08 != 0) };
    let depths = bg_depths(mode);
    let extbg = regs.setini & 0x40 != 0;
    let no_skip = [false; SCREEN_WIDTH];
    proof {
        lemma_order_ok(*regs);
        assert(ops@.take(0) =~= Seq::<DrawOp>::empty());
        assert forall|i: int| 0 <= i < 256 * 224 implies #[trigger] stacked(
            buf@, layer_buf@, old(buf)@, old(layer_buf)@, *vram, *cgram, *oam, *regs, y0 as int, y1 as int, mask,
            window_mask, ops@.take(0), i)
        by {
        }
    }
    let mut j: usize = 0;
    while j < ops.len()
        invariant
            j <= ops@.len(),
            ops@ == draw_order_spec(*regs),
            order_ok(ops@),
            mode == regs.bgmode & 0x07,
            depths == bg_depths_spec(mode),
            extbg == (regs.setini & 0x40 != 0),
            buf@.len() == 256 * 224,
            layer_buf@.len() == 256 * 224,
            old(buf)@.len() == 256 * 224,
            old(layer_buf)@.len() == 256 * 224,
            y0 <= y1 <= 224,
            sprite_eval.y0 == y0,
            sprite_eval.masks@ == band_masks(*oam, *regs, y0 as int, y1 as int),
            forall|i: int|
                0 <= i < 256 * 224 ==> #[trigger] stacked(
                    buf@, layer_buf@, old(buf)@, old(layer_buf)@, *vram, *cgram, *oam, *regs, y0 as int, y1 as int,
                    mask, window_mask, ops@.take(j as int), i),
        decreases ops@.len() - j,
    {
        let op = ops[j];
        let ghost mid_buf = buf@;
        let ghost mid_layers = layer_buf@;
        let ghost none_pixel = |px: int, py: int| None::<(u16, u8)>;
        assert(ops@[j as int] == op);
        let mut drawn = false;
        match op {
            DrawOp::Bg(bg, prio) => {
                if let Some(depth) = depths[bg] {
                    if mask & (1u8 << (bg as u8)) != 0 {
                        let skip = layer_skip(regs, window_mask, bg);
                        draw_bg_layer(buf, layer_buf, vram, cgram, regs, bg, depth, prio, &skip, y0, y1);
                        proof {
                            let pixel = |px: int, py: int| bg_layer_pixel(*vram, *cgram, bg_params_spec(*regs, bg, depth, prio), px, py);
                            lemma_pass(
                                buf@, layer_buf@, mid_buf, mid_layers, old(buf)@, old(layer_buf)@, skip, y0 as int, y1 as int,
                                pixel, *vram, *cgram, *oam, *regs, y0 as int, y1 as int, mask, window_mask, ops@, j as int);
                        }
                        drawn = true;
                    }
                }
            },
            DrawOp::Obj(prio) => {
                if mask & 0x10 != 0 {
                    let skip = layer_skip(regs, window_mask, 4);
                    draw_sprites(buf, layer_buf, vram, cgram, oam, regs, sprite_eval, prio, &skip, y0, y1);
                    proof {
                        let pixel = |px: int, py: int| sprites_from(*vram, *cgram, *oam, *regs, sprite_eval.masks@, y0 as int, y1 as int, prio, 0, px, py);
                        assert forall|px: int, py: int| 0 <= py < 224 && !(y0 <= py < y1) implies #[trigger] pixel(px, py) is None by {
                            lemma_sprites_outside_band(*vram, *cgram, *oam, *regs, sprite_eval.masks@, y0 as int, y1 as int, prio, 0, px, py);
                        }
                        lemma_pass(
                            buf@, layer_buf@, mid_buf, mid_layers, old(buf)@, old(layer_buf)@, skip, 0, 224, pixel, *vram,
                            *cgram, *oam, *regs, y0 as int, y1 as int, mask, window_mask, ops@, j as int);
                    }
                    drawn = true;
                }
            },
            DrawOp::Mode7(ext, prio) => {
                if (ext && extbg && mask & 0x02 != 0) || (!ext && mask & 0x01 != 0) {
                    let skip = layer_skip(regs, window_mask, if ext { 1 } else { 0 });
                    draw_mode7_layer(buf, layer_buf, vram, cgram, regs, ext, prio, &skip, y0, y1);
                    proof {
                        let pixel = |px: int, py: int| mode7_pixel(*vram, *cgram, *regs, ext, prio, px, py);
                        lemma_pass(
                            buf@, layer_buf@, mid_buf, mid_layers, old(buf)@, old(layer_buf)@, skip, y0 as int, y1 as int,
                            pixel, *vram, *cgram, *oam, *regs, y0 as int, y1 as int, mask, window_mask, ops@, j as int);
                    }
                    drawn = true;
                }
            },
        }
        if !drawn {
            proof {
                lemma_pass(
                    buf@, layer_buf@, mid_buf, mid_layers, old(buf)@, old(layer_buf)@, no_skip, 0, 0, none_pixel,
                    *vram, *cgram, *oam, *regs, y0 as int, y1 as int, mask, window_mask, ops@, j as int);
            }
        }
        j = j + 1;
    }
    proof {
        assert(ops@.take(ops@.len() as int) =~= ops@);
    }
}

/// Pseudo-hires: SETINI bit 3 outside the true hi-res modes.
pub open spec fn pseudo_hires_spec(regs: PpuRegisters) -> bool {
    regs.setini & 0x08 != 0 && (regs.bgmode & 0x07) < 5
}

/// Any hi-res output: pseudo-hires or modes 5/6.
pub open spec fn hires_spec(regs: PpuRegisters) -> bool {
    pseudo_hires_spec(regs) || (regs.bgmode & 0x07) == 5 || (regs.bgmode & 0x07) == 6
}

/// The subscreen's backdrop: CGRAM color 0 in hi-res, else COLDATA.
pub open spec fn sub_backdrop_spec(cgram: Cgram, regs: PpuRegisters) -> u16 {
    if hires_spec(regs) {
        cgram.color(0) & 0x7FFF
    } else {
        regs.coldata & 0x7FFF
    }
}

/// The main screen at (px, py): TM layers over CGRAM color 0.
pub open spec fn main_pixel(
    vram: Vram,
    cgram: Cgram,
    oam: Oam,
    regs: PpuRegisters,
    y0: int,
    y1: int,
    px: int,
    py: int,
) -> (u16, u8) {
    stack_top(
        vram, cgram, oam, regs, y0, y1, regs.tm, regs.tmw, draw_order_spec(regs), px, py,
        (cgram.color(0) & 0x7FFF, LAYER_BACKDROP))
}

/// The subscreen at (px, py): TS layers over the subscreen backdrop.
pub open spec fn sub_pixel(
    vram: Vram,
    cgram: Cgram,
    oam: Oam,
    regs: PpuRegisters,
    y0: int,
    y1: int,
    px: int,
    py: int,
) -> (u16, u8) {
    stack_top(
        vram, cgram, oam, regs, y0, y1, regs.ts, regs.tsw, draw_order_spec(regs), px, py,
        (sub_backdrop_spec(cgram, regs), LAYER_BACKDROP))
}

/// CGWSEL bits 6-7: where the main screen is forced black (never, outside
/// the color window, inside it, always).
pub open spec fn force_black_spec(clip_mode: u8, inside: bool) -> bool {
    if clip_mode == 0 {
        false
    } else if clip_mode == 1 {
        !inside
    } else if clip_mode == 2 {
        inside
    } else {
        true
    }
}

/// CGWSEL bits 4-5: where color math may apply (always, inside the color
/// window, outside it, never).
pub open spec fn math_allowed_spec(prevent_mode: u8, inside: bool) -> bool {
    if prevent_mode == 0 {
        true
    } else if prevent_mode == 1 {
        inside
    } else if prevent_mode == 2 {
        !inside
    } else {
        false
    }
}

/// The BGR555 output of one pixel from its main- and subscreen values and
/// whether it lies inside the color window: force-black, then color math
/// (with the subscreen or COLDATA as operand, halved unless the main pixel
/// was forced black or the subscreen operand is its backdrop) for layers
/// CGADSUB enables, then the pseudo-hires average with the subscreen.
pub open spec fn blend_spec(regs: PpuRegisters, main: (u16, u8), sub: (u16, u8), inside: bool) -> u16 {
    let use_sub = regs.cgwsel & 0x02 != 0;
    let force_black = force_black_spec((regs.cgwsel >> 6) & 0x03, inside);
    let main_color: u16 = if force_black { 0 } else { main.0 };
    let color = if math_allowed_spec((regs.cgwsel >> 4) & 0x03, inside) && (regs.cgadsub & 0x3F) & (1u8 << main.1)
        != 0 {
        let operand = if use_sub { sub.0 } else { regs.coldata & 0x7FFF };
        let halve = regs.cgadsub & 0x40 != 0 && !force_black && (!use_sub || sub.1 != LAYER_BACKDROP);
        color_math_spec(main_color, operand, regs.cgadsub & 0x80 != 0, halve)
    } else {
        main_color
    };
    if pseudo_hires_spec(regs) {
        average_spec(seq![color, sub.0])
    } else {
        color
    }
}

/// An 8-bit channel at INIDISP brightness `b` (15 is full).
pub open spec fn scale_spec(c: u8, b: u32) -> u8 {
    if b < 15 {
        ((c as u32 * b) / 15) as u8
    } else {
        c
    }
}

/// The RGBA8888 output of a BGR555 color, scaled by the master brightness.
pub open spec fn rgba_spec(regs: PpuRegisters, color: u16) -> (u8, u8, u8, u8) {
    let (r, g, b) = rgb8_spec(color);
    let br = (regs.inidisp & 0x0F) as u32;
    (scale_spec(r, br), scale_spec(g, br), scale_spec(b, br), 0xFF)
}

/// The RGBA output at (px, py) of a band `y0..y1` drawn with one register
/// state: solid opaque black in forced blank, else the blended main and
/// subscreen.
pub open spec fn band_pixel(
    vram: Vram,
    cgram: Cgram,
    oam: Oam,
    regs: PpuRegisters,
    y0: int,
    y1: int,
    px: int,
    py: int,
) -> (u8, u8, u8, u8) {
    if regs.inidisp & 0x80 != 0 {
        (0, 0, 0, 0xFF)
    } else {
        rgba_spec(
            regs,
            blend_spec(
                regs,
                main_pixel(vram, cgram, oam, regs, y0, y1, px, py),
                sub_pixel(vram, cgram, oam, regs, y0, y1, px, py),
                in_window(regs, 5, px as u8),
            ),
        )
    }
}

/// The RGBA output at (px, py) of a frame whose line `py` is drawn with
/// `regs` and `cgram`.
pub open spec fn frame_pixel(vram: Vram, cgram: Cgram, oam: Oam, regs: PpuRegisters, px: int, py: int) -> (u8, u8, u8, u8) {
    band_pixel(vram, cgram, oam, regs, py, py + 1, px, py)
}

/// The 4 bytes of pixel `i` of an RGBA8888 buffer.
pub open spec fn rgba_at(fb: Seq<u8>, i: int) -> (u8, u8, u8, u8) {
    (fb[4 * i], fb[4 * i + 1], fb[4 * i + 2], fb[4 * i + 3])
}

/// Scaling a channel by a brightness below 15 stays within a byte.
proof fn lemma_scale(c: u8, b: u32)
    by (nonlinear_arith)
    requires
        b < 15,
    ensures
        c as u32 * b <= 255 * 14,
        (c as u32 * b) / 15 <= 255,
{
}

/// Pixel indexes of lines `y0..y1` are `y0 * 256 .. y1 * 256`.
proof fn lemma_band_index(k: int, y0: int, y1: int)
    requires
        0 <= k,
    ensures
        (y0 * 256 <= k < y1 * 256) <==> (y0 <= k / 256 < y1),
{
}

/// Writes pixel `i` of an RGBA8888 buffer.
fn put_rgba(fb: &mut [u8], i: usize, px: (u8, u8, u8, u8))
    requires
        i < SCREEN_WIDTH * SCREEN_HEIGHT,
        old(fb)@.len() == SCREEN_WIDTH * SCREEN_HEIGHT * 4,
    ensures
        final(fb)@.len() == old(fb)@.len(),
        rgba_at(final(fb)@, i as int) == px,
        forall|k: int| 0 <= k < SCREEN_WIDTH * SCREEN_HEIGHT && k != i ==> #[trigger] rgba_at(final(fb)@, k) == rgba_at(old(fb)@, k),
{
    let o = i * 4;
    fb[o] = px.0;
    fb[o + 1] = px.1;
    fb[o + 2] = px.2;
    fb[o + 3] = px.3;
}

/// Pixel `k` after filling lines `y0..y1` with a backdrop color: inside
/// them the color with the backdrop id, elsewhere unchanged.
pub open spec fn filled(buf: Seq<u16>, layers: Seq<u8>, old_buf: Seq<u16>, old_layers: Seq<u8>, y0: int, y1: int, color: u16, k: int) -> bool {
    if y0 <= k / 256 < y1 {
        buf[k] == color && layers[k] == LAYER_BACKDROP
    } else {
        buf[k] == old_buf[k] && layers[k] == old_layers[k]
    }
}

/// Fills lines `y0..y1` of a screen with a backdrop color.
fn fill_band(buf: &mut [u16], layers: &mut [u8], y0: usize, y1: usize, color: u16)
    requires
        old(buf)@.len() == SCREEN_WIDTH * SCREEN_HEIGHT,
        old(layers)@.len() == SCREEN_WIDTH * SCREEN_HEIGHT,
        y0 <= y1 <= SCREEN_HEIGHT,
    ensures
        final(buf)@.len() == SCREEN_WIDTH * SCREEN_HEIGHT,
        final(layers)@.len() == SCREEN_WIDTH * SCREEN_HEIGHT,
        forall|k: int| 0 <= k < SCREEN_WIDTH * SCREEN_HEIGHT ==> #[trigger] filled(final(buf)@, final(layers)@, old(buf)@, old(layers)@, y0 as int, y1 as int, color, k),
{
    let mut i = y0 * SCREEN_WIDTH;
    while i < y1 * SCREEN_WIDTH
        invariant
            y0 <= y1 <= 224,
            y0 * 256 <= i <= y1 * 256,
            buf@.len() == 256 * 224,
            layers@.len() == 256 * 224,
            forall|k: int|
                #![trigger buf@[k]]
                #![trigger layers@[k]]
                0 <= k < 256 * 224 ==> if y0 * 256 <= k < i {
                    buf@[k] == color && layers@[k] == LAYER_BACKDROP
                } else {
                    buf@[k] == old(buf)@[k] && layers@[k] == old(layers)@[k]
                },
        decreases y1 * 256 - i,
    {
        buf[i] = color;
        layers[i] = LAYER_BACKDROP;
        i = i + 1;
    }
    assert forall|k: int| 0 <= k < 256 * 224 implies #[trigger] filled(buf@, layers@, old(buf)@, old(layers)@, y0 as int, y1 as int, color, k) by {
        lemma_band_index(k, y0 as int, y1 as int);
        assert(if y0 * 256 <= k < y1 * 256 {
            buf@[k] == color && layers@[k] == LAYER_BACKDROP
        } else {
            buf@[k] == old(buf)@[k] && layers@[k] == old(layers)@[k]
        });
    }
}

/// Every layer id a stack can hold is at most 6, so it indexes CGADSUB.
proof fn lemma_stack_layer(
    vram: Vram,
    cgram: Cgram,
    oam: Oam,
    regs: PpuRegisters,
    y0: int,
    y1: int,
    mask: u8,
    window_mask: u8,
    ops: Seq<DrawOp>,
    px: int,
    py: int,
    base: (u16, u8),
)
    requires
        base.1 <= 6,
        order_ok(ops),
    ensures
        stack_top(vram, cgram, oam, regs, y0, y1, mask, window_mask, ops, px, py, base).1 <= 6,
    decreases ops.len(),
{
    if ops.len() > 0 {
        let op = ops.last();
        assert(ops[ops.len() - 1] == op);
        assert(order_ok(ops.drop_last()));
        lemma_stack_layer(vram, cgram, oam, regs, y0, y1, mask, window_mask, ops.drop_last(), px, py, base);
        if let DrawOp::Obj(prio) = op {
            lemma_sprites_layer(vram, cgram, oam, regs, band_masks(oam, regs, y0, y1), y0, y1, prio, 0, px, py);
        }
    }
}

/// The stack at a pixel of line `py` is the same whichever band the line
/// is drawn in.
proof fn lemma_stack_band_independent(
    vram: Vram,
    cgram: Cgram,
    oam: Oam,
    regs: PpuRegisters,
    y0: int,
    y1: int,
    mask: u8,
    window_mask: u8,
    ops: Seq<DrawOp>,
    px: int,
    py: int,
    base: (u16, u8),
)
    requires
        y0 <= py < y1,
    ensures
        stack_top(vram, cgram, oam, regs, y0, y1, mask, window_mask, ops, px, py, base)
            == stack_top(vram, cgram, oam, regs, py, py + 1, mask, window_mask, ops, px, py, base),
    decreases ops.len(),
{
    if ops.len() > 0 {
        lemma_stack_band_independent(vram, cgram, oam, regs, y0, y1, mask, window_mask, ops.drop_last(), px, py, base);
        if let DrawOp::Obj(prio) = ops.last() {
            lemma_sprites_band_independent(vram, cgram, oam, regs, y0, y1, prio, 0, px, py);
        }
    }
}

/// A pixel of line `py` comes out the same whichever band of equal
/// registers the line is drawn in.
pub proof fn lemma_band_pixel_independent(
    vram: Vram,
    cgram: Cgram,
    oam: Oam,
    regs: PpuRegisters,
    y0: int,
    y1: int,
    px: int,
    py: int,
)
    requires
        y0 <= py < y1,
    ensures
        band_pixel(vram, cgram, oam, regs, y0, y1, px, py) == frame_pixel(vram, cgram, oam, regs, px, py),
{
    lemma_stack_band_independent(
        vram, cgram, oam, regs, y0, y1, regs.tm, regs.tmw, draw_order_spec(regs), px, py,
        (cgram.color(0) & 0x7FFF, LAYER_BACKDROP));
    lemma_stack_band_independent(
        vram, cgram, oam, regs, y0, y1, regs.ts, regs.tsw, draw_order_spec(regs), px, py,
        (sub_backdrop_spec(cgram, regs), LAYER_BACKDROP));
}

/// Full-screen compositing buffers, reused across the bands of a frame.
struct BandScratch {
    main: Vec<u16>,
    main_layer: Vec<u8>,
    sub: Vec<u16>,
    sub_layer: Vec<u8>,
}

impl BandScratch {
    spec fn wf(&self) -> bool {
        &&& self.main@.len() == SCREEN_WIDTH * SCREEN_HEIGHT
        &&& self.main_layer@.len() == SCREEN_WIDTH * SCREEN_HEIGHT
        &&& self.sub@.len() == SCREEN_WIDTH * SCREEN_HEIGHT
        &&& self.sub_layer@.len() == SCREEN_WIDTH * SCREEN_HEIGHT
    }

    fn new() -> (s: Self)
        ensures
            s.wf(),
    {
        let n = SCREEN_WIDTH * SCREEN_HEIGHT;
        BandScratch {
            main: vec![0; n],
            main_layer: vec![LAYER_BACKDROP; n],
            sub: vec![0; n],
            sub_layer: vec![LAYER_BACKDROP; n],
        }
    }
}

/// Composites lines `y0..y1` into `fb` with one register state: the main
/// screen (TM layers), the subscreen (TS layers) when color math or
/// pseudo-hires reads it, then color window, color math, the pseudo-hires
/// average and the master brightness, all in BGR555. Forced blank gives
/// opaque black and no sprite evaluation. Returns the band's STAT77 flags.
fn render_band(
    fb: &mut [u8],
    scratch: &mut BandScratch,
    y0: usize,
    y1: usize,
    vram: &Vram,
    cgram: &Cgram,
    oam: &Oam,
    regs: &PpuRegisters,
) -> (flags: u8)
    requires
        old(fb)@.len() == SCREEN_WIDTH * SCREEN_HEIGHT * 4,
        old(scratch).wf(),
        y0 <= y1 <= SCREEN_HEIGHT,
    ensures
        final(fb)@.len() == SCREEN_WIDTH * SCREEN_HEIGHT * 4,
        final(scratch).wf(),
        forall|i: int|
            0 <= i < SCREEN_WIDTH * SCREEN_HEIGHT ==> #[trigger] rgba_at(final(fb)@, i) == if y0 <= i / 256 < y1 {
                band_pixel(*vram, *cgram, *oam, *regs, y0 as int, y1 as int, i % 256, i / 256)
            } else {
                rgba_at(old(fb)@, i)
            },
        flags == if regs.inidisp & 0x80 != 0 { 0 } else { band_flags(*oam, *regs, y0 as int, (y1 - y0) as nat) },
{
    if regs.inidisp & 0x80 != 0 {
        let mut i = y0 * SCREEN_WIDTH;
        while i < y1 * SCREEN_WIDTH
            invariant
                y0 <= y1 <= 224,
                y0 * 256 <= i <= y1 * 256,
                fb@.len() == 256 * 224 * 4,
                forall|k: int|
                    0 <= k < 256 * 224 ==> #[trigger] rgba_at(fb@, k) == if y0 * 256 <= k < i {
                        (0u8, 0u8, 0u8, 0xFFu8)
                    } else {
                        rgba_at(old(fb)@, k)
                    },
            decreases y1 * 256 - i,
        {
            put_rgba(fb, i, (0, 0, 0, 0xFF));
            i = i + 1;
        }
        assert forall|k: int| 0 <= k < 256 * 224 implies #[trigger] rgba_at(fb@, k) == if y0 <= k / 256 < y1 {
            band_pixel(*vram, *cgram, *oam, *regs, y0 as int, y1 as int, k % 256, k / 256)
        } else {
            rgba_at(old(fb)@, k)
        } by {
            lemma_band_index(k, y0 as int, y1 as int);
        }
        return 0;
    }
    let sprite_eval = evaluate_sprites(oam, regs, y0, y1);
    proof {
        assert(sprite_eval.masks@ =~= band_masks(*oam, *regs, y0 as int, y1 as int));
    }
    let backdrop = cgram.read_color(0) & 0x7FFF;
    let ghost s0 = *scratch;
    fill_band(scratch.main.as_mut_slice(), scratch.main_layer.as_mut_slice(), y0, y1, backdrop);
    let ghost s1 = *scratch;
    render_layers(
        scratch.main.as_mut_slice(), scratch.main_layer.as_mut_slice(), regs.tm, regs.tmw, vram, cgram, oam, regs,
        &sprite_eval, y0, y1);
    proof {
        assert forall|k: int| y0 * 256 <= k < y1 * 256 implies #[trigger] scratch.main@[k] == main_pixel(
            *vram, *cgram, *oam, *regs, y0 as int, y1 as int, k % 256, k / 256).0 && scratch.main_layer@[k]
            == main_pixel(*vram, *cgram, *oam, *regs, y0 as int, y1 as int, k % 256, k / 256).1
            && scratch.main_layer@[k] <= 6 by {
            lemma_band_index(k, y0 as int, y1 as int);
            assert(filled(s1.main@, s1.main_layer@, s0.main@, s0.main_layer@, y0 as int, y1 as int, backdrop, k));
            assert(stacked(scratch.main@, scratch.main_layer@, s1.main@, s1.main_layer@, *vram, *cgram, *oam, *regs, y0 as int, y1 as int, regs.tm, regs.tmw, draw_order_spec(*regs), k));
            lemma_order_ok(*regs);
            lemma_stack_layer(
                *vram, *cgram, *oam, *regs, y0 as int, y1 as int, regs.tm, regs.tmw, draw_order_spec(*regs), k % 256,
                k / 256, (backdrop, LAYER_BACKDROP));
        }
    }
    let pseudo_hires = regs.setini & 0x08 != 0 && (regs.bgmode & 0x07) < 5;
    let use_subscreen = regs.cgwsel & 0x02 != 0;
    let hires = pseudo_hires || regs.bgmode & 0x07 == 5 || regs.bgmode & 0x07 == 6;
    let sub_backdrop = if hires { backdrop } else { regs.coldata & 0x7FFF };
    if use_subscreen || pseudo_hires {
        let ghost s2 = *scratch;
        fill_band(scratch.sub.as_mut_slice(), scratch.sub_layer.as_mut_slice(), y0, y1, sub_backdrop);
        let ghost s3 = *scratch;
        render_layers(
            scratch.sub.as_mut_slice(), scratch.sub_layer.as_mut_slice(), regs.ts, regs.tsw, vram, cgram, oam, regs,
            &sprite_eval, y0, y1);
        proof {
            assert forall|k: int| y0 * 256 <= k < y1 * 256 implies #[trigger] scratch.sub@[k] == sub_pixel(
                *vram, *cgram, *oam, *regs, y0 as int, y1 as int, k % 256, k / 256).0 && scratch.sub_layer@[k]
                == sub_pixel(*vram, *cgram, *oam, *regs, y0 as int, y1 as int, k % 256, k / 256).1 by {
                lemma_band_index(k, y0 as int, y1 as int);
                assert(filled(s3.sub@, s3.sub_layer@, s2.sub@, s2.sub_layer@, y0 as int, y1 as int, sub_backdrop, k));
                assert(stacked(scratch.sub@, scratch.sub_layer@, s3.sub@, s3.sub_layer@, *vram, *cgram, *oam, *regs, y0 as int, y1 as int, regs.ts, regs.tsw, draw_order_spec(*regs), k));
            }
        }
    }
    let math_enable = regs.cgadsub & 0x3F;
    let subtract = regs.cgadsub & 0x80 != 0;
    let half = regs.cgadsub & 0x40 != 0;
    let fixed = regs.coldata & 0x7FFF;
    let brightness = (regs.inidisp & 0x0F) as u32;
    let math_window = window_line(regs, 5);
    let clip_mode = (regs.cgwsel >> 6) & 0x03;
    let prevent_mode = (regs.cgwsel >> 4) & 0x03;
    proof {
        lemma_u8_masks();
        assert(regs.inidisp & 0x0F <= 15);
    }
    let mut i = y0 * SCREEN_WIDTH;
    while i < y1 * SCREEN_WIDTH
        invariant
            y0 <= y1 <= 224,
            y0 * 256 <= i <= y1 * 256,
            fb@.len() == 256 * 224 * 4,
            scratch.wf(),
            regs.inidisp & 0x80 == 0,
            forall|k: int| y0 * 256 <= k < y1 * 256 ==> #[trigger] scratch.main@[k] == main_pixel(
                *vram, *cgram, *oam, *regs, y0 as int, y1 as int, k % 256, k / 256).0 && scratch.main_layer@[k]
                == main_pixel(*vram, *cgram, *oam, *regs, y0 as int, y1 as int, k % 256, k / 256).1
                && scratch.main_layer@[k] <= 6,
            use_subscreen || pseudo_hires ==> forall|k: int| y0 * 256 <= k < y1 * 256 ==> #[trigger] scratch.sub@[k] == sub_pixel(
                *vram, *cgram, *oam, *regs, y0 as int, y1 as int, k % 256, k / 256).0 && scratch.sub_layer@[k]
                == sub_pixel(*vram, *cgram, *oam, *regs, y0 as int, y1 as int, k % 256, k / 256).1,
            pseudo_hires == pseudo_hires_spec(*regs),
            use_subscreen == (regs.cgwsel & 0x02 != 0),
            math_enable == regs.cgadsub & 0x3F,
            subtract == (regs.cgadsub & 0x80 != 0),
            half == (regs.cgadsub & 0x40 != 0),
            fixed == regs.coldata & 0x7FFF,
            brightness == (regs.inidisp & 0x0F) as u32,
            brightness <= 15,
            clip_mode == (regs.cgwsel >> 6) & 0x03,
            prevent_mode == (regs.cgwsel >> 4) & 0x03,
            forall|x: int| 0 <= x < 256 ==> #[trigger] math_window[x] == in_window(*regs, 5, x as u8),
            forall|k: int|
                0 <= k < 256 * 224 ==> #[trigger] rgba_at(fb@, k) == if y0 * 256 <= k < i {
                    band_pixel(*vram, *cgram, *oam, *regs, y0 as int, y1 as int, k % 256, k / 256)
                } else {
                    rgba_at(old(fb)@, k)
                },
        decreases y1 * 256 - i,
    {
        let inside = math_window[i % SCREEN_WIDTH];
        let force_black = if clip_mode == 0 {
            false
        } else if clip_mode == 1 {
            !inside
        } else if clip_mode == 2 {
            inside
        } else {
            true
        };
        let math_allowed = if prevent_mode == 0 {
            true
        } else if prevent_mode == 1 {
            inside
        } else if prevent_mode == 2 {
            !inside
        } else {
            false
        };
        let main_color = if force_black { 0 } else { scratch.main[i] };
        let mut color = main_color;
        let main_layer = scratch.main_layer[i];
        assert(scratch.main@[i as int] == main_pixel(*vram, *cgram, *oam, *regs, y0 as int, y1 as int, i as int % 256, i as int / 256).0);
        if math_allowed && math_enable & (1u8 << main_layer) != 0 {
            let operand = if use_subscreen { scratch.sub[i] } else { fixed };
            let halve = half && !force_black && (!use_subscreen || scratch.sub_layer[i] != LAYER_BACKDROP);
            color = color_math(main_color, operand, subtract, halve);
        }
        if pseudo_hires {
            let pair = [color, scratch.sub[i]];
            assert(pair@ =~= seq![color, scratch.sub@[i as int]]);
            color = average_bgr555(pair.as_slice());
        }
        let (mut r, mut g, mut b) = bgr555_to_rgb8(color);
        if brightness < 15 {
            proof {
                lemma_scale(r, brightness);
                lemma_scale(g, brightness);
                lemma_scale(b, brightness);
            }
            r = ((r as u32 * brightness) / 15) as u8;
            g = ((g as u32 * brightness) / 15) as u8;
            b = ((b as u32 * brightness) / 15) as u8;
        }
        proof {
            let (px, py) = (i as int % 256, i as int / 256);
            assert(scratch.main@[i as int] == main_pixel(*vram, *cgram, *oam, *regs, y0 as int, y1 as int, px, py).0);
            if use_subscreen || pseudo_hires {
                assert(scratch.sub@[i as int] == sub_pixel(*vram, *cgram, *oam, *regs, y0 as int, y1 as int, px, py).0);
            }
            assert(inside == in_window(*regs, 5, px as u8));
            lemma_band_index(i as int, y0 as int, y1 as int);
            assert((r, g, b, 0xFFu8) == band_pixel(*vram, *cgram, *oam, *regs, y0 as int, y1 as int, px, py));
        }
        put_rgba(fb, i, (r, g, b, 0xFF));
        i = i + 1;
    }
    assert forall|k: int| 0 <= k < 256 * 224 implies #[trigger] rgba_at(fb@, k) == if y0 <= k / 256 < y1 {
        band_pixel(*vram, *cgram, *oam, *regs, y0 as int, y1 as int, k % 256, k / 256)
    } else {
        rgba_at(old(fb)@, k)
    } by {
        lemma_band_index(k, y0 as int, y1 as int);
    }
    sprite_eval.range_time_over
}

/// Whether two register snapshots are equal, field by field.
fn same_registers(a: &PpuRegisters, b: &PpuRegisters) -> (r: bool)
    ensures
        r == (*a == *b),
{
    let arrays_equal = a.bg_sc[0] == b.bg_sc[0] && a.bg_sc[1] == b.bg_sc[1] && a.bg_sc[2] == b.bg_sc[2]
        && a.bg_sc[3] == b.bg_sc[3] && a.bg_hofs[0] == b.bg_hofs[0] && a.bg_hofs[1] == b.bg_hofs[1]
        && a.bg_hofs[2] == b.bg_hofs[2] && a.bg_hofs[3] == b.bg_hofs[3] && a.bg_vofs[0] == b.bg_vofs[0]
        && a.bg_vofs[1] == b.bg_vofs[1] && a.bg_vofs[2] == b.bg_vofs[2] && a.bg_vofs[3] == b.bg_vofs[3];
    proof {
        if arrays_equal {
            assert(a.bg_sc =~= b.bg_sc);
            assert(a.bg_hofs =~= b.bg_hofs);
            assert(a.bg_vofs =~= b.bg_vofs);
        }
    }
    arrays_equal && a.inidisp == b.inidisp && a.obsel == b.obsel && a.bgmode == b.bgmode && a.bg12nba == b.bg12nba
        && a.bg34nba == b.bg34nba && a.bg_scroll_latch == b.bg_scroll_latch && a.tm == b.tm && a.ts == b.ts
        && a.cgwsel == b.cgwsel && a.cgadsub == b.cgadsub && a.coldata == b.coldata && a.w12sel == b.w12sel
        && a.w34sel == b.w34sel && a.wobjsel == b.wobjsel && a.wh0 == b.wh0 && a.wh1 == b.wh1 && a.wh2 == b.wh2
        && a.wh3 == b.wh3 && a.wbglog == b.wbglog && a.wobjlog == b.wobjlog && a.tmw == b.tmw && a.tsw == b.tsw
        && a.mosaic == b.mosaic && a.setini == b.setini && a.m7sel == b.m7sel && a.m7a == b.m7a && a.m7b == b.m7b
        && a.m7c == b.m7c && a.m7d == b.m7d && a.m7x == b.m7x && a.m7y == b.m7y && a.m7_hofs == b.m7_hofs
        && a.m7_vofs == b.m7_vofs && a.m7_latch == b.m7_latch && a.first_sprite == b.first_sprite
}

/// The STAT77 flags line `y` contributes: none in forced blank.
pub open spec fn line_flags(oam: Oam, regs: PpuRegisters, y: int) -> u8 {
    if regs.inidisp & 0x80 != 0 {
        0
    } else {
        line_eval(oam, regs, y).3
    }
}

/// The STAT77 flags of the first `n` lines of a frame drawn with
/// per-line registers `lines`.
pub open spec fn frame_flags(oam: Oam, lines: Seq<PpuRegisters>, n: nat) -> u8
    decreases n,
{
    if n == 0 {
        0
    } else {
        frame_flags(oam, lines, (n - 1) as nat) | line_flags(oam, lines[n - 1], n - 1)
    }
}

proof fn lemma_or_assoc(a: u8, b: u8, c: u8)
    by (bit_vector)
    ensures
        (a | b) | c == a | (b | c),
        a | 0 == a,
{
}

/// Over a band of lines sharing one register state, the frame's flags grow
/// by exactly what that band's evaluation reports.
proof fn lemma_frame_flags_band(oam: Oam, lines: Seq<PpuRegisters>, start: nat, m: nat)
    requires
        start + m <= lines.len(),
        forall|t: int| start <= t < start + m ==> #[trigger] lines[t] == lines[start as int],
    ensures
        frame_flags(oam, lines, start + m) == frame_flags(oam, lines, start) | (if lines[start as int].inidisp & 0x80
            != 0 {
            0
        } else {
            band_flags(oam, lines[start as int], start as int, m)
        }),
    decreases m,
{
    let f0 = frame_flags(oam, lines, start);
    lemma_or_assoc(f0, 0, 0);
    if m > 0 {
        lemma_frame_flags_band(oam, lines, start, (m - 1) as nat);
        assert(lines[start + m - 1] == lines[start as int]);
        let r = lines[start as int];
        if r.inidisp & 0x80 != 0 {
            lemma_or_assoc(f0, 0, 0);
        } else {
            lemma_or_assoc(f0, band_flags(oam, r, start as int, (m - 1) as nat), line_eval(oam, r, start + m - 1).3);
        }
    }
}

/// Lines `start..end` share one register state and one palette.
pub open spec fn band_uniform(lines: Seq<PpuRegisters>, cgrams: Seq<&Cgram>, start: int, end: int) -> bool {
    &&& forall|t: int| start <= t < end && t < 224 ==> #[trigger] lines[t] == lines[start]
    &&& forall|t: int| start <= t < end && t < 224 ==> *#[trigger] cgrams[t] == *cgrams[start]
}

/// A line equal to a band's first line extends the band.
proof fn lemma_band_extend(lines: Seq<PpuRegisters>, cgrams: Seq<&Cgram>, start: int, end: int)
    requires
        start <= end,
        band_uniform(lines, cgrams, start, end),
        lines[end] == lines[start],
        *cgrams[end] == *cgrams[start],
    ensures
        band_uniform(lines, cgrams, start, end + 1),
{
    assert forall|t: int| start <= t < end + 1 && t < 224 implies #[trigger] lines[t] == lines[start] by {
        if t < end {
            assert(lines[t] == lines[start]);
        } else {
            assert(t == end);
        }
    }
    assert forall|t: int| start <= t < end + 1 && t < 224 implies *#[trigger] cgrams[t] == *cgrams[start] by {
        if t < end {
            assert(*cgrams[t] == *cgrams[start]);
        } else {
            assert(t == end);
        }
    }
}

/// The frame output and STAT77 flags for per-line registers and palettes:
/// lines sharing both are drawn as one band.
fn render_lines(vram: &Vram, oam: &Oam, lines: &[PpuRegisters], cgram_lines: &[&Cgram]) -> (r: (Vec<u8>, u8))
    requires
        lines@.len() == SCREEN_HEIGHT,
        cgram_lines@.len() == SCREEN_HEIGHT,
    ensures
        r.0@.len() == SCREEN_WIDTH * SCREEN_HEIGHT * 4,
        forall|i: int|
            0 <= i < SCREEN_WIDTH * SCREEN_HEIGHT ==> #[trigger] rgba_at(r.0@, i) == frame_pixel(
                *vram, *cgram_lines@[i / 256], *oam, lines@[i / 256], i % 256, i / 256),
        r.1 == frame_flags(*oam, lines@, SCREEN_HEIGHT as nat),
{
    let n = SCREEN_WIDTH * SCREEN_HEIGHT;
    let mut fb = vec![0u8; n * 4];
    let mut scratch = BandScratch::new();
    let mut range_time_over: u8 = 0;
    let mut band_start: usize = 0;
    let mut y: usize = 1;
    while y <= SCREEN_HEIGHT
        invariant
            lines@.len() == 224,
            cgram_lines@.len() == 224,
            band_start < y <= 225,
            band_start <= 224,
            y == 225 ==> band_start == 224,
            fb@.len() == 256 * 224 * 4,
            scratch.wf(),
            band_uniform(lines@, cgram_lines@, band_start as int, y as int),
            forall|i: int|
                0 <= i < 256 * 224 && i / 256 < band_start ==> #[trigger] rgba_at(fb@, i) == frame_pixel(
                    *vram, *cgram_lines@[i / 256], *oam, lines@[i / 256], i % 256, i / 256),
            range_time_over == frame_flags(*oam, lines@, band_start as nat),
        decreases 225 - y,
    {
        let split = if y == SCREEN_HEIGHT {
            true
        } else {
            let same_cgram = cgram_lines[y].same_contents(cgram_lines[band_start]);
            let same_regs = same_registers(&lines[y], &lines[band_start]);
            proof {
                if same_cgram && same_regs {
                    cgram_lines@[y as int].lemma_same_bytes(cgram_lines@[band_start as int]);
                    assert(lines@[y as int] == lines@[band_start as int]);
                    assert(*cgram_lines@[y as int] == *cgram_lines@[band_start as int]);
                    lemma_band_extend(lines@, cgram_lines@, band_start as int, y as int);
                }
            }
            !same_regs || !same_cgram
        };
        if split {
            let ghost prev = fb@;
            let flags = render_band(
                fb.as_mut_slice(), &mut scratch, band_start, y, vram, cgram_lines[band_start], oam, &lines[band_start]);
            proof {
                lemma_frame_flags_band(*oam, lines@, band_start as nat, (y - band_start) as nat);
                assert forall|i: int| 0 <= i < 256 * 224 && i / 256 < y implies #[trigger] rgba_at(fb@, i) == frame_pixel(
                    *vram, *cgram_lines@[i / 256], *oam, lines@[i / 256], i % 256, i / 256) by {
                    if band_start <= i / 256 {
                        assert(lines@[i / 256] == lines@[band_start as int]);
                        assert(*cgram_lines@[i / 256] == *cgram_lines@[band_start as int]);
                        lemma_band_pixel_independent(
                            *vram, *cgram_lines@[band_start as int], *oam, lines@[band_start as int], band_start as int,
                            y as int, i % 256, i / 256);
                    } else {
                        assert(rgba_at(prev, i) == rgba_at(fb@, i));
                    }
                }
            }
            range_time_over = range_time_over | flags;
            band_start = y;
            assert(band_uniform(lines@, cgram_lines@, band_start as int, y + 1)) by {
                assert forall|t: int| band_start <= t < y + 1 && t < 224 implies #[trigger] lines@[t] == lines@[band_start as int] by {
                    assert(t == band_start);
                }
                assert forall|t: int| band_start <= t < y + 1 && t < 224 implies *#[trigger] cgram_lines@[t] == *cgram_lines@[band_start as int] by {
                    assert(t == band_start);
                }
            }
        }
        y = y + 1;
    }
    (fb, range_time_over)
}

/// Renders a frame with one register state applied to every line:
/// `SCREEN_WIDTH * SCREEN_HEIGHT` RGBA8888 pixels, row-major, opaque.
pub fn render_frame(vram: &Vram, cgram: &Cgram, oam: &Oam, regs: &PpuRegisters) -> (fb: Vec<u8>)
    ensures
        fb@.len() == SCREEN_WIDTH * SCREEN_HEIGHT * 4,
        forall|i: int|
            0 <= i < SCREEN_WIDTH * SCREEN_HEIGHT ==> #[trigger] rgba_at(fb@, i) == frame_pixel(
                *vram, *cgram, *oam, *regs, i % 256, i / 256),
{
    let n = SCREEN_WIDTH * SCREEN_HEIGHT;
    let mut fb = vec![0u8; n * 4];
    let mut scratch = BandScratch::new();
    let _ = render_band(fb.as_mut_slice(), &mut scratch, 0, SCREEN_HEIGHT, vram, cgram, oam, regs);
    proof {
        assert forall|i: int| 0 <= i < 256 * 224 implies #[trigger] rgba_at(fb@, i) == frame_pixel(
            *vram, *cgram, *oam, *regs, i % 256, i / 256) by {
            lemma_band_pixel_independent(*vram, *cgram, *oam, *regs, 0, 224, i % 256, i / 256);
        }
    }
    fb
}

/// Renders a frame from per-line register snapshots (`lines[y]` is in
/// effect on line `y`); consecutive equal lines are drawn as one band.
pub fn render_frame_per_scanline(vram: &Vram, cgram: &Cgram, oam: &Oam, lines: &[PpuRegisters]) -> (fb: Vec<u8>)
    requires
        lines@.len() == SCREEN_HEIGHT,
    ensures
        fb@.len() == SCREEN_WIDTH * SCREEN_HEIGHT * 4,
        forall|i: int|
            0 <= i < SCREEN_WIDTH * SCREEN_HEIGHT ==> #[trigger] rgba_at(fb@, i) == frame_pixel(
                *vram, *cgram, *oam, lines@[i / 256], i % 256, i / 256),
{
    render_frame_per_scanline_with_status(vram, cgram, oam, lines).0
}

/// Like `render_frame_per_scanline`, also returning the frame's STAT77
/// sprite flags (bit 6 range over: over 32 sprites on a line; bit 7 time
/// over: over 34 sprite tiles on a line), accumulated over every line.
pub fn render_frame_per_scanline_with_status(
    vram: &Vram,
    cgram: &Cgram,
    oam: &Oam,
    lines: &[PpuRegisters],
) -> (r: (Vec<u8>, u8))
    requires
        lines@.len() == SCREEN_HEIGHT,
    ensures
        r.0@.len() == SCREEN_WIDTH * SCREEN_HEIGHT * 4,
        forall|i: int|
            0 <= i < SCREEN_WIDTH * SCREEN_HEIGHT ==> #[trigger] rgba_at(r.0@, i) == frame_pixel(
                *vram, *cgram, *oam, lines@[i / 256], i % 256, i / 256),
        r.1 == frame_flags(*oam, lines@, SCREEN_HEIGHT as nat),
{
    let mut cgram_lines: Vec<&Cgram> = Vec::new();
    let mut y: usize = 0;
    while y < SCREEN_HEIGHT
        invariant
            y <= 224,
            cgram_lines@.len() == y,
            forall|t: int| 0 <= t < y ==> #[trigger] cgram_lines@[t] == cgram,
        decreases 224 - y,
    {
        cgram_lines.push(cgram);
        y = y + 1;
    }
    render_lines(vram, oam, lines, cgram_lines.as_slice())
}

/// Like `render_frame_per_scanline_with_status`, with a per-line palette
/// too (`cgram_lines[y]` is in effect on line `y`); a band ends wherever
/// the registers or the palette change.
pub fn render_frame_per_scanline_with_cgram(
    vram: &Vram,
    cgram_lines: &[Cgram],
    oam: &Oam,
    lines: &[PpuRegisters],
) -> (r: (Vec<u8>, u8))
    requires
        cgram_lines@.len() == SCREEN_HEIGHT,
        lines@.len() == SCREEN_HEIGHT,
    ensures
        r.0@.len() == SCREEN_WIDTH * SCREEN_HEIGHT * 4,
        forall|i: int|
            0 <= i < SCREEN_WIDTH * SCREEN_HEIGHT ==> #[trigger] rgba_at(r.0@, i) == frame_pixel(
                *vram, cgram_lines@[i / 256], *oam, lines@[i / 256], i % 256, i / 256),
        r.1 == frame_flags(*oam, lines@, SCREEN_HEIGHT as nat),
{
    let mut refs: Vec<&Cgram> = Vec::new();
    let mut y: usize = 0;
    while y < SCREEN_HEIGHT
        invariant
            y <= 224,
            cgram_lines@.len() == 224,
            refs@.len() == y,
            forall|t: int| 0 <= t < y ==> #[trigger] refs@[t] == cgram_lines@[t],
        decreases 224 - y,
    {
        refs.push(&cgram_lines[y]);
        y = y + 1;
    }
    render_lines(vram, oam, lines, refs.as_slice())
}

/// Per-line rendering where every line carries the same registers `regs`
/// gives exactly the single-state frame, and its STAT77 flags are those
/// of evaluating the whole frame as one band.
pub proof fn lemma_uniform_lines_match_frame(
    vram: Vram,
    cgram: Cgram,
    oam: Oam,
    regs: PpuRegisters,
    lines: Seq<PpuRegisters>,
)
    requires
        lines.len() == SCREEN_HEIGHT,
        forall|t: int| 0 <= t < SCREEN_HEIGHT ==> #[trigger] lines[t] == regs,
    ensures
        forall|i: int|
            0 <= i < SCREEN_WIDTH * SCREEN_HEIGHT ==> #[trigger] frame_pixel(vram, cgram, oam, lines[i / 256], i % 256, i / 256)
                == frame_pixel(vram, cgram, oam, regs, i % 256, i / 256),
        frame_flags(oam, lines, SCREEN_HEIGHT as nat) == if regs.inidisp & 0x80 != 0 {
            0
        } else {
            band_flags(oam, regs, 0, SCREEN_HEIGHT as nat)
        },
{
    assert forall|i: int| 0 <= i < SCREEN_WIDTH * SCREEN_HEIGHT implies #[trigger] frame_pixel(
        vram, cgram, oam, lines[i / 256], i % 256, i / 256) == frame_pixel(vram, cgram, oam, regs, i % 256, i / 256) by {
        assert(lines[i / 256] == regs);
    }
    assert(lines[0] == regs);
    lemma_frame_flags_band(oam, lines, 0, 224);
    lemma_or_assoc(0, 0, 0);
    let b = band_flags(oam, regs, 0, 224);
    assert(0u8 | b == b) by (bit_vector);
}

/// In forced blank a line is opaque black and reports no sprite flags.
pub proof fn lemma_forced_blank(vram: Vram, cgram: Cgram, oam: Oam, regs: PpuRegisters, px: int, py: int)
    requires
        regs.inidisp & 0x80 != 0,
    ensures
        frame_pixel(vram, cgram, oam, regs, px, py) == (0u8, 0u8, 0u8, 0xFFu8),
        line_flags(oam, regs, py) == 0,
{
}

} // verus!
