//! Per-layer window masks: the two window ranges, their inversion bits and
//! the WBGLOG/WOBJLOG combination operators.
use vstd::prelude::*;
use super::SCREEN_WIDTH;
use crate::ppu::PpuRegisters;

verus! {

/// The 4-bit window selection (enable/invert per window) and the 2-bit
/// combine operator of a maskable layer: 0-3 = BG1-4, 4 = OBJ, 5 = the
/// color window.
pub open spec fn window_sel_log(regs: PpuRegisters, layer: int) -> (u8, u8) {
    if layer == 0 {
        (regs.w12sel & 0x0F, regs.wbglog & 0x03)
    } else if layer == 1 {
        (regs.w12sel >> 4, (regs.wbglog >> 2) & 0x03)
    } else if layer == 2 {
        (regs.w34sel & 0x0F, (regs.wbglog >> 4) & 0x03)
    } else if layer == 3 {
        (regs.w34sel >> 4, (regs.wbglog >> 6) & 0x03)
    } else if layer == 4 {
        (regs.wobjsel & 0x0F, regs.wobjlog & 0x03)
    } else {
        (regs.wobjsel >> 4, (regs.wobjlog >> 2) & 0x03)
    }
}

/// Whether column `x` is inside layer `layer`'s combined window: window 1
/// spans WH0..=WH1 and window 2 WH2..=WH3, each optionally inverted; one
/// enabled window alone decides, two combine by OR/AND/XOR/XNOR; with
/// neither enabled nothing is inside.
pub open spec fn in_window(regs: PpuRegisters, layer: int, x: u8) -> bool {
    let (sel, log) = window_sel_log(regs, layer);
    let w1_inv = sel & 0x01 != 0;
    let w1_en = sel & 0x02 != 0;
    let w2_inv = sel & 0x04 != 0;
    let w2_en = sel & 0x08 != 0;
    let in1 = (x >= regs.wh0 && x <= regs.wh1) != w1_inv;
    let in2 = (x >= regs.wh2 && x <= regs.wh3) != w2_inv;
    if !w1_en && !w2_en {
        false
    } else if w1_en && !w2_en {
        in1
    } else if !w1_en && w2_en {
        in2
    } else if log == 0 {
        in1 || in2
    } else if log == 1 {
        in1 && in2
    } else if log == 2 {
        in1 != in2
    } else {
        in1 == in2
    }
}

/// One scanline's combined window membership for a maskable layer (0-3 =
/// BG1-4, 4 = OBJ, 5 = the color window); windows are purely horizontal,
/// so one line serves every scanline of a band.
pub fn window_line(regs: &PpuRegisters, layer: usize) -> (out: [bool; SCREEN_WIDTH])
    ensures
        forall|x: int| 0 <= x < 256 ==> #[trigger] out[x] == in_window(*regs, layer as int, x as u8),
{
    let (sel, log) = if layer == 0 {
        (regs.w12sel & 0x0F, regs.wbglog & 0x03)
    } else if layer == 1 {
        (regs.w12sel >> 4, (regs.wbglog >> 2) & 0x03)
    } else if layer == 2 {
        (regs.w34sel & 0x0F, (regs.wbglog >> 4) & 0x03)
    } else if layer == 3 {
        (regs.w34sel >> 4, (regs.wbglog >> 6) & 0x03)
    } else if layer == 4 {
        (regs.wobjsel & 0x0F, regs.wobjlog & 0x03)
    } else {
        (regs.wobjsel >> 4, (regs.wobjlog >> 2) & 0x03)
    };
    let w1_inv = sel & 0x01 != 0;
    let w1_en = sel & 0x02 != 0;
    let w2_inv = sel & 0x04 != 0;
    let w2_en = sel & 0x08 != 0;
    let mut out = [false; SCREEN_WIDTH];
    if !w1_en && !w2_en {
        return out;
    }
    let mut i: usize = 0;
    while i < SCREEN_WIDTH
        invariant
            i <= 256,
            (sel, log) == window_sel_log(*regs, layer as int),
            w1_inv == (sel & 0x01 != 0),
            w1_en == (sel & 0x02 != 0),
            w2_inv == (sel & 0x04 != 0),
            w2_en == (sel & 0x08 != 0),
            w1_en || w2_en,
            forall|x: int| 0 <= x < i ==> #[trigger] out[x] == in_window(*regs, layer as int, x as u8),
        decreases 256 - i,
    {
        let x = i as u8;
        let mut in1 = x >= regs.wh0 && x <= regs.wh1;
        if w1_inv {
            in1 = !in1;
        }
        let mut in2 = x >= regs.wh2 && x <= regs.wh3;
        if w2_inv {
            in2 = !in2;
        }
        out[i] = if w1_en && !w2_en {
            in1
        } else if !w1_en && w2_en {
            in2
        } else if log == 0 {
            in1 || in2
        } else if log == 1 {
            in1 && in2
        } else if log == 2 {
            in1 != in2
        } else {
            in1 == in2
        };
        i = i + 1;
    }
    out
}

} // verus!
