//! Mode 7's affine transform: the M7A-M7D matrix sampling with M7SEL
//! screen-over/flip behavior, and the layer draw for BG1 and EXTBG BG2.
use vstd::prelude::*;
use super::color::{direct_color, direct_color_spec};
use super::{LAYER_BG1, SCREEN_HEIGHT, SCREEN_WIDTH, layer_drawn, lemma_snap, mosaic_size_spec};
use crate::cgram::Cgram;
use crate::ppu::PpuRegisters;
use crate::vram::Vram;

verus! {

/// A 13-bit register value (M7X/M7Y/M7HOFS/M7VOFS) sign-extended.
pub open spec fn sign13_spec(v: u16) -> i32 {
    if v & 0x1000 != 0 {
        ((v & 0x1FFF) as i32 - 0x2000) as i32
    } else {
        (v & 0x1FFF) as i32
    }
}

/// Sign-extends a 13-bit register value to i32.
pub fn sign13(v: u16) -> (r: i32)
    ensures
        r == sign13_spec(v),
        -4096 <= r <= 4095,
{
    assert(v & 0x1FFF <= 0x1FFF) by (bit_vector);
    assert(v & 0x1000 != 0 ==> v & 0x1FFF >= 0x1000) by (bit_vector);
    assert(v & 0x1000 == 0 ==> v & 0x1FFF < 0x1000) by (bit_vector);
    if v & 0x1000 != 0 {
        (v & 0x1FFF) as i32 - 0x2000
    } else {
        (v & 0x1FFF) as i32
    }
}

/// A scroll-minus-center offset clipped to signed 11 bits (a documented
/// quirk of the mode-7 pipeline).
pub open spec fn clip_spec(v: i32) -> i32 {
    if v & 0x2000 != 0 {
        v | !0x3FFi32
    } else {
        v & 0x3FF
    }
}

/// A scroll-minus-center offset clipped to signed 11 bits.
fn clip(v: i32) -> (r: i32)
    ensures
        r == clip_spec(v),
{
    if v & 0x2000 != 0 { v | !0x3FFi32 } else { v & 0x3FF }
}

/// A product truncated to whole 1/4-pixel steps (the low 6 bits cleared).
pub open spec fn trunc64(v: i32) -> i32 {
    v & !63i32
}

proof fn lemma_m7_bits()
    by (bit_vector)
    ensures
        forall|v: i32| -1024 <= #[trigger] clip_spec(v) <= 1023,
        forall|v: i32| -0x4000000 <= v <= 0x4000000 ==> v - 63 <= #[trigger] trunc64(v) <= v,
        forall|v: i32| 0 <= #[trigger] (v & 0x3FF) <= 0x3FF,
{
}

proof fn lemma_product_bound(a: i32, b: i32, bound: int)
    by (nonlinear_arith)
    requires
        -32768 <= a <= 32767,
        -bound <= b <= bound,
        0 <= bound <= 1024,
    ensures
        -32768 * bound <= a * b <= 32768 * bound,
{
}

/// The field coordinate (px, py), before wrapping, that screen position
/// (x, y) maps to: the per-line origin from the matrix applied to scroll
/// minus center (each product truncated to 1/4-pixel steps) plus the
/// center, stepped by M7A/M7C per screen pixel, all in 8.8 fixed point.
/// M7SEL bits 0/1 first flip the screen.
pub open spec fn mode7_coord(regs: PpuRegisters, x: int, y: int) -> (i32, i32) {
    let a = (regs.m7a as i16) as i32;
    let b = (regs.m7b as i16) as i32;
    let c = (regs.m7c as i16) as i32;
    let d = (regs.m7d as i16) as i32;
    let cx = sign13_spec(regs.m7x);
    let cy = sign13_spec(regs.m7y);
    let hofs = sign13_spec(regs.m7_hofs);
    let vofs = sign13_spec(regs.m7_vofs);
    let sx = (if regs.m7sel & 0x01 != 0 { 255 - x } else { x }) as i32;
    let sy = (if regs.m7sel & 0x02 != 0 { 255 - y } else { y }) as i32;
    let ox = (trunc64((a * clip_spec((hofs - cx) as i32)) as i32) + trunc64((b * clip_spec((vofs - cy) as i32)) as i32)
        + trunc64((b * sy) as i32) + cx * 256) as i32;
    let oy = (trunc64((c * clip_spec((hofs - cx) as i32)) as i32) + trunc64((d * clip_spec((vofs - cy) as i32)) as i32)
        + trunc64((d * sy) as i32) + cy * 256) as i32;
    (((ox + a * sx) as i32) >> 8, ((oy + c * sx) as i32) >> 8)
}

/// The raw 8-bit mode-7 pixel at screen position (x, y), or `None` when
/// the coordinate falls outside the 1024x1024 field and M7SEL's
/// screen-over mode is "transparent". Outside the field, mode 3 repeats
/// tile 0 and the other modes wrap. The field is a 128x128 map of 8x8 8bpp
/// tiles: word N's low byte is map entry N, its high byte tile-data byte N.
pub open spec fn mode7_sample_spec(vram: Vram, regs: PpuRegisters, x: int, y: int) -> Option<u8> {
    let (px, py) = mode7_coord(regs, x, y);
    let out_of_field = px < 0 || px > 1023 || py < 0 || py > 1023;
    let screen_over = (regs.m7sel >> 6) & 0x03;
    if out_of_field && screen_over == 2 {
        None
    } else {
        let fx = (px & 0x3FF) as u16;
        let fy = (py & 0x3FF) as u16;
        let tile = if out_of_field && screen_over == 3 {
            0u8
        } else {
            vram.bytes()[(((fy / 8) * 128 + (fx / 8)) * 2) as int]
        };
        let pixel_word = (tile as u16) * 64 + (fy % 8) * 8 + (fx % 8);
        Some(vram.bytes()[(pixel_word * 2 + 1) as int])
    }
}

/// Samples the mode-7 playing field at screen position (`x`, `y`).
pub fn mode7_sample(vram: &Vram, regs: &PpuRegisters, x: usize, y: usize) -> (r: Option<u8>)
    requires
        x <= 255,
        y <= 255,
    ensures
        r == mode7_sample_spec(*vram, *regs, x as int, y as int),
{
    proof {
        lemma_m7_bits();
        vram.lemma_len();
    }
    let a = regs.m7a as i16 as i32;
    let b = regs.m7b as i16 as i32;
    let c = regs.m7c as i16 as i32;
    let d = regs.m7d as i16 as i32;
    let cx = sign13(regs.m7x);
    let cy = sign13(regs.m7y);
    let hofs = sign13(regs.m7_hofs);
    let vofs = sign13(regs.m7_vofs);
    let sx = (if regs.m7sel & 0x01 != 0 { 255 - x } else { x }) as i32;
    let sy = (if regs.m7sel & 0x02 != 0 { 255 - y } else { y }) as i32;
    let hc = hofs - cx;
    let vc = vofs - cy;
    let hclip = clip(hc);
    let vclip = clip(vc);
    proof {
        lemma_product_bound(a, hclip, 1024);
        lemma_product_bound(b, vclip, 1024);
        lemma_product_bound(c, hclip, 1024);
        lemma_product_bound(d, vclip, 1024);
        lemma_product_bound(b, sy, 255);
        lemma_product_bound(d, sy, 255);
        lemma_product_bound(a, sx, 255);
        lemma_product_bound(c, sx, 255);
    }
    let t1 = (a * hclip) & !63i32;
    let t2 = (b * vclip) & !63i32;
    let t3 = (b * sy) & !63i32;
    let u1 = (c * hclip) & !63i32;
    let u2 = (d * vclip) & !63i32;
    let u3 = (d * sy) & !63i32;
    assert(t1 == trunc64((a * hclip) as i32) && t2 == trunc64((b * vclip) as i32) && t3 == trunc64((b * sy) as i32));
    assert(u1 == trunc64((c * hclip) as i32) && u2 == trunc64((d * vclip) as i32) && u3 == trunc64((d * sy) as i32));
    let ox = t1 + t2 + t3 + cx * 256;
    let oy = u1 + u2 + u3 + cy * 256;
    let px = (ox + a * sx) >> 8;
    let py = (oy + c * sx) >> 8;
    assert((px, py) == mode7_coord(*regs, x as int, y as int));
    let out_of_field = px < 0 || px > 1023 || py < 0 || py > 1023;
    let screen_over = (regs.m7sel >> 6) & 0x03;
    if out_of_field && screen_over == 2 {
        return None;
    }
    let fx = (px & 0x3FF) as u16;
    let fy = (py & 0x3FF) as u16;
    let tile = if out_of_field && screen_over == 3 {
        0
    } else {
        vram.read(((fy / 8) * 128 + (fx / 8)) * 2)
    };
    let pixel_word = (tile as u16) * 64 + (fy % 8) * 8 + (fx % 8);
    Some(vram.read(pixel_word * 2 + 1))
}

/// What mode 7 draws at (px, py): BG1 (`extbg` false: all 8 bits are
/// color) or the EXTBG BG2 (bit 7 is a priority bit, only pixels of
/// `want_priority` draw, bits 0-6 are color), with the mosaic applied;
/// color index 0 is transparent. Gives the BGR555 color and source layer.
pub open spec fn mode7_pixel(vram: Vram, cgram: Cgram, regs: PpuRegisters, extbg: bool, want_priority: u8, px: int, py: int) -> Option<(u16, u8)> {
    let m = mosaic_size_spec(regs, if extbg { 0x02u8 } else { 0x01u8 });
    match mode7_sample_spec(vram, regs, px - px % m, py - py % m) {
        None => None,
        Some(raw) => {
            if extbg && (raw >> 7) != want_priority {
                None
            } else {
                let ci = if extbg { raw & 0x7F } else { raw };
                if ci == 0 {
                    None
                } else {
                    let color = if regs.cgwsel & 0x01 != 0 && !extbg { direct_color_spec(ci, 0) } else { cgram.color(ci) & 0x7FFF };
                    Some((color, if extbg { (LAYER_BG1 + 1) as u8 } else { LAYER_BG1 }))
                }
            }
        },
    }
}

/// Draws mode 7's BG1 or its EXTBG BG2 over scanlines `y0..y1`.
pub fn draw_mode7_layer(
    buf: &mut [u16],
    layer_buf: &mut [u8],
    vram: &Vram,
    cgram: &Cgram,
    regs: &PpuRegisters,
    extbg: bool,
    want_priority: u8,
    skip: &[bool; SCREEN_WIDTH],
    y0: usize,
    y1: usize,
)
    requires
        old(buf)@.len() == SCREEN_WIDTH * SCREEN_HEIGHT,
        old(layer_buf)@.len() == SCREEN_WIDTH * SCREEN_HEIGHT,
        y0 <= y1 <= SCREEN_HEIGHT,
    ensures
        layer_drawn(final(buf)@, final(layer_buf)@, old(buf)@, old(layer_buf)@, *skip, y0 as int, y1 as int,
            |px: int, py: int| mode7_pixel(*vram, *cgram, *regs, extbg, want_priority, px, py)),
{
    proof {
        cgram.lemma_len();
    }
    let use_direct_color = regs.cgwsel & 0x01 != 0;
    let mosaic_bit: u8 = if extbg { 0x02 } else { 0x01 };
    let mosaic_size: usize = if regs.mosaic & mosaic_bit != 0 { ((regs.mosaic >> 4) & 0x0F) as usize + 1 } else { 1 };
    let ghost pixel = |px: int, py: int| mode7_pixel(*vram, *cgram, *regs, extbg, want_priority, px, py);
    let mut py = y0;
    while py < y1
        invariant
            y0 <= py <= y1 <= 224,
            buf@.len() == 256 * 224,
            layer_buf@.len() == 256 * 224,
            mosaic_size == mosaic_size_spec(*regs, mosaic_bit),
            mosaic_bit == (if extbg { 0x02u8 } else { 0x01u8 }),
            use_direct_color == (regs.cgwsel & 0x01 != 0),
            cgram.bytes().len() == 512,
            pixel == (|px: int, py: int| mode7_pixel(*vram, *cgram, *regs, extbg, want_priority, px, py)),
            layer_drawn(buf@, layer_buf@, old(buf)@, old(layer_buf)@, *skip, y0 as int, py as int, pixel),
        decreases y1 - py,
    {
        let mut px: usize = 0;
        while px < SCREEN_WIDTH
            invariant
                y0 <= py < y1 <= 224,
                px <= 256,
                buf@.len() == 256 * 224,
                layer_buf@.len() == 256 * 224,
                mosaic_size == mosaic_size_spec(*regs, mosaic_bit),
                mosaic_bit == (if extbg { 0x02u8 } else { 0x01u8 }),
                use_direct_color == (regs.cgwsel & 0x01 != 0),
                cgram.bytes().len() == 512,
                pixel == (|px: int, py: int| mode7_pixel(*vram, *cgram, *regs, extbg, want_priority, px, py)),
                forall|i: int|
                    #![trigger buf@[i]]
                    #![trigger layer_buf@[i]]
                    0 <= i < buf@.len() ==> {
                    let (qx, qy) = (i % 256, i / 256);
                    if (y0 <= qy < py || (qy == py && qx < px)) && !skip[qx] && pixel(qx, qy) is Some {
                        buf@[i] == pixel(qx, qy)->Some_0.0 && layer_buf@[i] == pixel(qx, qy)->Some_0.1
                    } else {
                        buf@[i] == old(buf)@[i] && layer_buf@[i] == old(layer_buf)@[i]
                    }
                },
            decreases 256 - px,
        {
            let idx = py * SCREEN_WIDTH + px;
            proof {
                lemma_snap(px as int, mosaic_size as int);
                lemma_snap(py as int, mosaic_size as int);
            }
            if !skip[px] {
                let sample = mode7_sample(vram, regs, px - px % mosaic_size, py - py % mosaic_size);
                if let Some(raw) = sample {
                    if !(extbg && (raw >> 7) != want_priority) {
                        let (color_index, layer) = if extbg { (raw & 0x7F, LAYER_BG1 + 1) } else { (raw, LAYER_BG1) };
                        if color_index != 0 {
                            let color = if use_direct_color && !extbg {
                                direct_color(color_index, 0)
                            } else {
                                cgram.read_color(color_index) & 0x7FFF
                            };
                            buf[idx] = color;
                            layer_buf[idx] = layer;
                        }
                    }
                }
            }
            px = px + 1;
        }
        py = py + 1;
    }
}

} // verus!
