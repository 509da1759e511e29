//! Character (tile) data decoding, shared by the background and sprite
//! paths.
use vstd::prelude::*;
use crate::vram::Vram;

verus! {

/// The VRAM byte address where tile `tile_index` of a `depth`-bpp table
/// starting at word `base_word` begins.
pub open spec fn tile_byte_addr(base_word: u16, tile_index: u16, depth: u8) -> u16 {
    base_word.wrapping_mul(2).wrapping_add(tile_index.wrapping_mul(((depth as u16) * 8) as u16))
}

/// Pixel `x` of row `row` of the tile at byte address `addr`, built from
/// the first `pairs` bitplane pairs: pair `q` is 16 bytes at `addr + 16q`,
/// holding per row a low-plane byte then a high-plane byte; bit `7 - x` of
/// each gives bits `2q` and `2q + 1` of the pixel.
pub open spec fn tile_pixel(vram: Vram, addr: u16, row: u8, x: u8, pairs: nat) -> u8
    decreases pairs,
{
    if pairs == 0 {
        0
    } else {
        let q = (pairs - 1) as nat;
        let pb = addr.wrapping_add(((q as u16) * 16) as u16);
        let lo = vram.bytes()[pb.wrapping_add(((row as u16) * 2) as u16) as int];
        let hi = vram.bytes()[pb.wrapping_add(((row as u16) * 2 + 1) as u16) as int];
        let bit = (7 - x) as u8;
        tile_pixel(vram, addr, row, x, q) | (((((lo >> bit) & 1) | (((hi >> bit) & 1) << 1)) << ((q * 2) as u8)) as u8)
    }
}

/// Decodes one row (8 palette-index pixels, left to right) of a planar
/// tile of `depth` (2, 4 or 8) bits per pixel: `depth / 2` consecutive
/// 16-byte bitplane pairs, each interleaving its two planes row by row.
pub fn decode_tile_row(vram: &Vram, tile_data_base_word: u16, tile_index: u16, depth: u8, row: u8) -> (out: [u8; 8])
    requires
        depth == 2 || depth == 4 || depth == 8,
    ensures
        forall|x: int| 0 <= x < 8 ==> #[trigger] out[x] == tile_pixel(
            *vram,
            tile_byte_addr(tile_data_base_word, tile_index, depth),
            row,
            x as u8,
            (depth / 2) as nat,
        ),
{
    proof {
        vram.lemma_len();
    }
    let bytes_per_tile = (depth as u16) * 8;
    let tile_byte_addr = tile_data_base_word.wrapping_mul(2).wrapping_add(tile_index.wrapping_mul(bytes_per_tile));
    let mut out = [0u8; 8];
    let plane_pairs = depth / 2;
    let mut pair: u8 = 0;
    while pair < plane_pairs
        invariant
            plane_pairs <= 4,
            pair <= plane_pairs,
            vram.bytes().len() == 0x10000,
            forall|x: int| 0 <= x < 8 ==> #[trigger] out[x] == tile_pixel(*vram, tile_byte_addr, row, x as u8, pair as nat),
        decreases plane_pairs - pair,
    {
        let pair_base = tile_byte_addr.wrapping_add((pair as u16) * 16);
        let lo = vram.read(pair_base.wrapping_add((row as u16) * 2));
        let hi = vram.read(pair_base.wrapping_add((row as u16) * 2 + 1));
        let mut x: u8 = 0;
        while x < 8
            invariant
                pair < plane_pairs <= 4,
                x <= 8,
                vram.bytes().len() == 0x10000,
                lo == vram.bytes()[pair_base.wrapping_add(((row as u16) * 2) as u16) as int],
                hi == vram.bytes()[pair_base.wrapping_add(((row as u16) * 2 + 1) as u16) as int],
                pair_base == tile_byte_addr.wrapping_add(((pair as u16) * 16) as u16),
                forall|k: int| 0 <= k < x ==> #[trigger] out[k] == tile_pixel(*vram, tile_byte_addr, row, k as u8, (pair + 1) as nat),
                forall|k: int| x <= k < 8 ==> #[trigger] out[k] == tile_pixel(*vram, tile_byte_addr, row, k as u8, pair as nat),
            decreases 8 - x,
        {
            let bit = 7 - x;
            let b0 = (lo >> bit) & 1;
            let b1 = (hi >> bit) & 1;
            out[x as usize] = out[x as usize] | ((b0 | (b1 << 1)) << (pair * 2));
            x = x + 1;
        }
        pair = pair + 1;
    }
    out
}

} // verus!
