//! Color operations: SNES color math, direct-color mode, BGR555 averaging
//! for the hi-res/interlace collapse, and BGR555 to RGB888 output.
use vstd::prelude::*;
use crate::cgram::{Cgram, red_of, green_of, blue_of, color_of};

verus! {

/// Direct color (CGWSEL bit 0, 8bpp layers): the pixel byte is its own BGR
/// color (bits 0-2 red, 3-5 green, 6-7 blue) and the palette bits add one
/// low bit per channel.
pub open spec fn direct_color_spec(pixel: u8, palette: u8) -> u16 {
    let r = (((pixel & 0x07) << 2) | ((palette & 0x01) << 1)) as u16;
    let g = ((((pixel >> 3) & 0x07) << 2) | (palette & 0x02)) as u16;
    let b = ((((pixel >> 6) & 0x03) << 3) | (palette & 0x04)) as u16;
    r | (g << 5) | (b << 10)
}

/// Direct color of an 8bpp pixel, as BGR555.
pub fn direct_color(pixel: u8, palette: u8) -> (c: u16)
    ensures
        c == direct_color_spec(pixel, palette),
{
    let r = (((pixel & 0x07) << 2) | ((palette & 0x01) << 1)) as u16;
    let g = ((((pixel >> 3) & 0x07) << 2) | (palette & 0x02)) as u16;
    let b = ((((pixel >> 6) & 0x03) << 3) | (palette & 0x04)) as u16;
    r | (g << 5) | (b << 10)
}

/// One channel of color math: sum or difference, optionally halved,
/// clamped to 0..=31.
pub open spec fn math_channel(m: u8, s: u8, subtract: bool, half: bool) -> u8 {
    let v: i32 = if subtract { (m - s) as i32 } else { (m + s) as i32 };
    let h: i32 = if half { v >> 1 } else { v };
    if h < 0 {
        0
    } else if h > 31 {
        31
    } else {
        h as u8
    }
}

/// SNES color math on two BGR555 colors, channel by channel.
pub open spec fn color_math_spec(main: u16, operand: u16, subtract: bool, half: bool) -> u16 {
    color_of(
        math_channel(red_of(main), red_of(operand), subtract, half),
        math_channel(green_of(main), green_of(operand), subtract, half),
        math_channel(blue_of(main), blue_of(operand), subtract, half),
    )
}

fn combine(m: u8, s: u8, subtract: bool, half: bool) -> (r: u8)
    requires
        m <= 31,
        s <= 31,
    ensures
        r == math_channel(m, s, subtract, half),
{
    let mut v: i32 = if subtract { m as i32 - s as i32 } else { m as i32 + s as i32 };
    if half {
        v = v >> 1;
    }
    if v < 0 {
        0
    } else if v > 31 {
        31
    } else {
        v as u8
    }
}

proof fn lemma_channels_small(c: u16)
    ensures
        red_of(c) <= 31,
        green_of(c) <= 31,
        blue_of(c) <= 31,
{
    assert((c & 0x1F) as u8 <= 31 && ((c >> 5) & 0x1F) as u8 <= 31 && ((c >> 10) & 0x1F) as u8 <= 31) by (bit_vector);
}

/// A color-math channel value clamped to 0..=31.
pub open spec fn clamp5(x: int) -> int {
    if x < 0 {
        0
    } else if x > 31 {
        31
    } else {
        x
    }
}

/// Channel packing and the halving shift, as bits.
proof fn lemma_math_bits(r: u8, g: u8, b: u8, c: u16, v: i32)
    by (bit_vector)
    requires
        r <= 31,
        g <= 31,
        b <= 31,
        -31 <= v <= 62,
    ensures
        (((r & 0x1F) as u16 | (((g & 0x1F) as u16) << 5) | (((b & 0x1F) as u16) << 10)) as u16 & 0x1F) as u8 == r,
        (((((r & 0x1F) as u16 | (((g & 0x1F) as u16) << 5) | (((b & 0x1F) as u16) << 10)) as u16) >> 5) & 0x1F) as u8
            == g,
        (((((r & 0x1F) as u16 | (((g & 0x1F) as u16) << 5) | (((b & 0x1F) as u16) << 10)) as u16) >> 10) & 0x1F) as u8
            == b,
        ((((c & 0x1F) as u8) & 0x1F) as u16 | (((((c >> 5) & 0x1F) as u8) & 0x1F) as u16) << 5 | (((((c >> 10) & 0x1F)
            as u8) & 0x1F) as u16) << 10) as u16 == c & 0x7FFF,
        (c & 0x1F) as u8 <= 31,
        ((c >> 5) & 0x1F) as u8 <= 31,
        ((c >> 10) & 0x1F) as u8 <= 31,
        c == 0 ==> (c & 0x1F) as u8 == 0 && ((c >> 5) & 0x1F) as u8 == 0 && ((c >> 10) & 0x1F) as u8 == 0,
        v >= 0 ==> (v >> 1) * 2 <= v && v <= (v >> 1) * 2 + 1,
        v < 0 ==> v >> 1 < 0,
{
}

/// One channel of color math, stated arithmetically.
proof fn lemma_math_channel(m: u8, s: u8, subtract: bool, half: bool)
    requires
        m <= 31,
        s <= 31,
    ensures
        math_channel(m, s, subtract, half) as int == clamp5(
            if half {
                (if subtract { m - s } else { m + s }) / 2
            } else {
                if subtract { m - s } else { m + s }
            },
        ),
{
    let v: i32 = if subtract { (m - s) as i32 } else { (m + s) as i32 };
    lemma_math_bits(0, 0, 0, 0, v);
}

/// Color math works on the 5-bit red, green and blue channels separately:
/// each result channel is the main channel plus, or (`subtract`) minus, the
/// operand's, halved (rounding down) when `half` is set, then clamped to
/// 0..=31. Adding or subtracting black therefore leaves a color as it was.
pub proof fn lemma_color_math_channels(main: u16, operand: u16, subtract: bool, half: bool)
    ensures
        red_of(color_math_spec(main, operand, subtract, half)) as int == clamp5(
            if half {
                (if subtract { red_of(main) - red_of(operand) } else { red_of(main) + red_of(operand) }) / 2
            } else {
                if subtract { red_of(main) - red_of(operand) } else { red_of(main) + red_of(operand) }
            },
        ),
        green_of(color_math_spec(main, operand, subtract, half)) as int == clamp5(
            if half {
                (if subtract { green_of(main) - green_of(operand) } else { green_of(main) + green_of(operand) }) / 2
            } else {
                if subtract { green_of(main) - green_of(operand) } else { green_of(main) + green_of(operand) }
            },
        ),
        blue_of(color_math_spec(main, operand, subtract, half)) as int == clamp5(
            if half {
                (if subtract { blue_of(main) - blue_of(operand) } else { blue_of(main) + blue_of(operand) }) / 2
            } else {
                if subtract { blue_of(main) - blue_of(operand) } else { blue_of(main) + blue_of(operand) }
            },
        ),
        color_math_spec(main, 0, subtract, false) == main & 0x7FFF,
{
    lemma_math_bits(0, 0, 0, main, 0);
    lemma_math_bits(0, 0, 0, operand, 0);
    lemma_math_bits(0, 0, 0, 0, 0);
    lemma_math_channel(red_of(main), red_of(operand), subtract, half);
    lemma_math_channel(green_of(main), green_of(operand), subtract, half);
    lemma_math_channel(blue_of(main), blue_of(operand), subtract, half);
    let r = math_channel(red_of(main), red_of(operand), subtract, half);
    let g = math_channel(green_of(main), green_of(operand), subtract, half);
    let b = math_channel(blue_of(main), blue_of(operand), subtract, half);
    lemma_math_bits(r, g, b, main, 0);
    lemma_math_channel(red_of(main), 0, subtract, false);
    lemma_math_channel(green_of(main), 0, subtract, false);
    lemma_math_channel(blue_of(main), 0, subtract, false);
    lemma_math_bits(red_of(main), green_of(main), blue_of(main), main, 0);
}

/// `main +/- operand` per 5-bit channel, optionally halved, clamped.
pub fn color_math(main: u16, operand: u16, subtract: bool, half: bool) -> (c: u16)
    ensures
        c == color_math_spec(main, operand, subtract, half),
{
    proof {
        lemma_channels_small(main);
        lemma_channels_small(operand);
    }
    let r = combine(Cgram::extract_red(main), Cgram::extract_red(operand), subtract, half);
    let g = combine(Cgram::extract_green(main), Cgram::extract_green(operand), subtract, half);
    let b = combine(Cgram::extract_blue(main), Cgram::extract_blue(operand), subtract, half);
    Cgram::make_color(r, g, b)
}

/// A 5-bit channel widened to 8 bits by repeating its top bits.
pub open spec fn expand5(c5: u32) -> u8 {
    ((c5 << 3) | (c5 >> 2)) as u8
}

/// BGR555 to (R, G, B) with 8 bits per channel.
pub open spec fn rgb8_spec(color: u16) -> (u8, u8, u8) {
    (
        expand5((color & 0x1F) as u32),
        expand5(((color >> 5) & 0x1F) as u32),
        expand5(((color >> 10) & 0x1F) as u32),
    )
}

/// BGR555 to RGB888, expanding each 5-bit channel by replicating its top 3
/// bits into the low bits.
pub fn bgr555_to_rgb8(color: u16) -> (rgb: (u8, u8, u8))
    ensures
        rgb == rgb8_spec(color),
{
    let r5 = (color & 0x1F) as u32;
    let g5 = ((color >> 5) & 0x1F) as u32;
    let b5 = ((color >> 10) & 0x1F) as u32;
    (((r5 << 3) | (r5 >> 2)) as u8, ((g5 << 3) | (g5 >> 2)) as u8, ((b5 << 3) | (b5 >> 2)) as u8)
}

/// The sum of one 5-bit channel (at bit `shift`) over the first `n` colors.
pub open spec fn channel_sum(colors: Seq<u16>, shift: u16, n: nat) -> int
    decreases n,
{
    if n == 0 {
        0
    } else {
        channel_sum(colors, shift, (n - 1) as nat) + ((colors[n - 1] >> shift) & 0x1F) as int
    }
}

/// The per-channel average of `colors` (rounded down), as BGR555.
pub open spec fn average_spec(colors: Seq<u16>) -> u16 {
    let n = colors.len();
    let r = (channel_sum(colors, 0, n) / n as int) as u16;
    let g = (channel_sum(colors, 5, n) / n as int) as u16;
    let b = (channel_sum(colors, 10, n) / n as int) as u16;
    r | (g << 5) | (b << 10)
}

proof fn lemma_channel_sum_bound(colors: Seq<u16>, shift: u16, n: nat)
    requires
        n <= colors.len(),
    ensures
        0 <= channel_sum(colors, shift, n) <= 31 * n,
    decreases n,
{
    if n > 0 {
        lemma_channel_sum_bound(colors, shift, (n - 1) as nat);
        let c = colors[n - 1];
        assert((c >> shift) & 0x1F <= 0x1F) by (bit_vector);
    }
}

/// Averages 1-4 BGR555 colors per channel (collapsing hi-res dot pairs and
/// interlace line pairs into the output raster).
pub fn average_bgr555(colors: &[u16]) -> (c: u16)
    requires
        1 <= colors@.len() <= 4,
    ensures
        c == average_spec(colors@),
{
    let n = colors.len() as u32;
    let mut r: u32 = 0;
    let mut g: u32 = 0;
    let mut b: u32 = 0;
    let mut i: usize = 0;
    while i < colors.len()
        invariant
            i <= colors@.len() <= 4,
            r == channel_sum(colors@, 0, i as nat),
            g == channel_sum(colors@, 5, i as nat),
            b == channel_sum(colors@, 10, i as nat),
        decreases colors@.len() - i,
    {
        proof {
            lemma_channel_sum_bound(colors@, 0, (i + 1) as nat);
            lemma_channel_sum_bound(colors@, 5, (i + 1) as nat);
            lemma_channel_sum_bound(colors@, 10, (i + 1) as nat);
        }
        let c = colors[i];
        r = r + ((c >> 0u16) & 0x1F) as u32;
        g = g + ((c >> 5u16) & 0x1F) as u32;
        b = b + ((c >> 10u16) & 0x1F) as u32;
        i = i + 1;
    }
    ((r / n) as u16) | (((g / n) as u16) << 5) | (((b / n) as u16) << 10)
}

} // verus!
