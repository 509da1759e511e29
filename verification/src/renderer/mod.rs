//! Turns VRAM/CGRAM/OAM contents plus PPU registers into an RGBA8888
//! framebuffer.
//!
//! Background modes 0-6 share a tile path (8x8 and 16x16 tiles, hi-res
//! modes 5/6 collapsed to the 256-wide raster by averaging dot pairs);
//! mode 7 has its own affine path with the EXTBG second layer. Windows,
//! mosaic, per-tile BG priority, per-mode sprite/BG interleaving, color
//! math with subscreen or fixed-color operands, direct color, both OBJ tile
//! tables and per-scanline register bands are modeled.
//!
//! `compose` owns the public entry points and the main/sub screen pass and
//! calls one module per layer kind (`background`, `sprites`, `mode7`) plus
//! the shared `window`, `color` and `tile` helpers. This module keeps what
//! all of them share: the output dimensions, the pixel source-layer ids and
//! the per-mode BG depth table.
use vstd::prelude::*;
use crate::ppu::PpuRegisters;

pub mod background;
pub mod color;
pub mod compose;
pub mod mode7;
pub mod sprites;
pub mod tile;
pub mod window;

pub use compose::{render_frame, render_frame_per_scanline, render_frame_per_scanline_with_cgram};



verus! {

/// Output width in pixels.
pub const SCREEN_WIDTH: usize = 256;
/// Output height in pixels.
pub const SCREEN_HEIGHT: usize = 224;

/// Source-layer id of BG1 (BG2-4 follow); the ids line up with CGADSUB's
/// enable bits.
pub const LAYER_BG1: u8 = 0;
/// Source-layer id of sprites on OBJ palettes 4-7.
pub const LAYER_OBJ: u8 = 4;
/// Source-layer id of the backdrop.
pub const LAYER_BACKDROP: u8 = 5;
/// Source-layer id of sprites on OBJ palettes 0-3, which color math never
/// touches.
pub const LAYER_OBJ_PAL03: u8 = 6;

/// Bits per pixel of each of the 4 BG layers in BG mode `mode` (0-6);
/// `None` where the layer does not exist.
pub open spec fn bg_depths_spec(mode: u8) -> [Option<u8>; 4] {
    match mode {
        0 => [Some(2u8), Some(2u8), Some(2u8), Some(2u8)],
        1 => [Some(4u8), Some(4u8), Some(2u8), None],
        2 => [Some(4u8), Some(4u8), None, None],
        3 => [Some(8u8), Some(4u8), None, None],
        4 => [Some(8u8), Some(2u8), None, None],
        5 => [Some(4u8), Some(2u8), None, None],
        6 => [Some(4u8), None, None, None],
        _ => [None, None, None, None],
    }
}

/// Bits per pixel of each BG layer in a BG mode.
pub fn bg_depths(mode: u8) -> (r: [Option<u8>; 4])
    ensures
        r == bg_depths_spec(mode),
{
    match mode {
        0 => [Some(2), Some(2), Some(2), Some(2)],
        1 => [Some(4), Some(4), Some(2), None],
        2 => [Some(4), Some(4), None, None],
        3 => [Some(8), Some(4), None, None],
        4 => [Some(8), Some(2), None, None],
        5 => [Some(4), Some(2), None, None],
        6 => [Some(4), None, None, None],
        _ => [None, None, None, None],
    }
}

/// Snapping to a mosaic block never moves a coordinate forward.
pub proof fn lemma_snap(x: int, m: int)
    by (nonlinear_arith)
    requires
        0 <= x,
        0 < m,
    ensures
        0 <= x % m <= x,
        0 <= x - x % m <= x,
{
}

/// The mosaic block size for a layer whose MOSAIC enable bit is `bit`.
pub open spec fn mosaic_size_spec(regs: PpuRegisters, bit: u8) -> int {
    if regs.mosaic & bit != 0 {
        ((regs.mosaic >> 4) & 0x0F) as int + 1
    } else {
        1
    }
}

/// A layer pass over scanlines `y0..y1` of the frame buffers: inside the
/// band, each pixel not masked by `skip` takes what `pixel` gives there, if
/// anything; every other pixel keeps its value.
pub open spec fn layer_drawn(
    buf: Seq<u16>,
    layers: Seq<u8>,
    old_buf: Seq<u16>,
    old_layers: Seq<u8>,
    skip: [bool; 256],
    y0: int,
    y1: int,
    pixel: spec_fn(int, int) -> Option<(u16, u8)>,
) -> bool {
    &&& buf.len() == old_buf.len()
    &&& layers.len() == old_layers.len()
    &&& forall|i: int|
        #![trigger buf[i]]
        #![trigger layers[i]]
        0 <= i < buf.len() ==> {
        let (px, py) = (i % 256, i / 256);
        if y0 <= py < y1 && !skip[px] && pixel(px, py) is Some {
            buf[i] == pixel(px, py)->Some_0.0 && layers[i] == pixel(px, py)->Some_0.1
        } else {
            buf[i] == old_buf[i] && layers[i] == old_layers[i]
        }
    }
}

/// Bounds of masked register fields.
pub proof fn lemma_u8_masks()
    by (bit_vector)
    ensures
        forall|v: u8| #[trigger] (v & 0x07) <= 7,
        forall|v: u8| #[trigger] ((v >> 3) & 0x03) <= 3,
        forall|v: u8| #[trigger] ((v >> 1) & 0x07) <= 7,
        forall|v: u8| #[trigger] (v & 0x01) <= 1,
        forall|v: u8| #[trigger] ((v >> 4) & 0x0F) <= 15,
        forall|v: u8| #[trigger] (v & 0x0F) <= 15,
        forall|v: u8| #[trigger] (v >> 2) <= 63,
        forall|v: u32| #[trigger] (v & 7) <= 7,
{
}

} // verus!
