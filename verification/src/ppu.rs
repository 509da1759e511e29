//! The PPU's writable register state, as a plain snapshot-able struct, and
//! the PPU itself: VRAM, CGRAM and OAM plus the scanline/dot counters that
//! pace the machine, following the NTSC or PAL video standard.
//!
//! NTSC: 262 scanlines, 341 dots per line, vblank from line 224.
//! PAL:  312 scanlines, 341 dots per line, vblank from line 240.
use vstd::prelude::*;
use crate::cgram::Cgram;
use crate::error::EmulationError;
use crate::oam::Oam;
use crate::state::{
    decode_fields, field_offset, fitting_fields, lemma_fitting_fields, encode_fields, field_pairs, fields_in_range, put_bytes,
    put_fields, total_width, truncated, values_of, widths_of, StateReader,
};
use crate::vram::Vram;

verus! {

/// PPU register state controlling background/sprite rendering. The
/// renderer takes one copy per scanline: games rewrite scroll, windows,
/// color math and the mode-7 matrix mid-frame.
#[derive(Debug, Clone, Copy, PartialEq, Eq)]
pub struct PpuRegisters {
    /// $2100 INIDISP: bit 7 forced blank, bits 0-3 brightness (0-15).
    pub inidisp: u8,
    /// $2101 OBSEL: bits 0-2 OBJ tile base (0x2000-word units), bits 3-4 name select, bits 5-7 sprite size pair.
    pub obsel: u8,
    /// $2105 BGMODE: bits 0-2 mode, bit 3 BG3 priority, bits 4-7 16x16 tiles for BG1-4.
    pub bgmode: u8,
    /// $2107-$210A BG1SC-BG4SC: bits 0-1 screen size, bits 2-7 tilemap base (0x400-word units).
    pub bg_sc: [u8; 4],
    /// $210B BG12NBA: tile data base for BG1 (low nibble) / BG2 (high nibble), 0x1000-word units.
    pub bg12nba: u8,
    /// $210C BG34NBA: same for BG3 / BG4.
    pub bg34nba: u8,
    /// BG1-4 horizontal scroll values.
    pub bg_hofs: [u16; 4],
    /// BG1-4 vertical scroll values.
    pub bg_vofs: [u16; 4],
    /// Shared 8-bit latch used by every BGxHOFS/VOFS write.
    pub bg_scroll_latch: u8,
    /// $212C TM: main screen designation (bits 0-3 BG1-4, bit 4 sprites).
    pub tm: u8,
    /// $212D TS: subscreen designation, same layout as TM.
    pub ts: u8,
    /// $2130 CGWSEL: color-math control (bit 0 direct color, bit 1 add subscreen, bits 4-7 color window regions).
    pub cgwsel: u8,
    /// $2131 CGADSUB: bit 7 subtract, bit 6 halve, bits 0-5 color-math enable per layer.
    pub cgadsub: u8,
    /// $2132 COLDATA fixed color (BGR555).
    pub coldata: u16,
    /// $2123 W12SEL: window enable/invert bits for BG1/BG2.
    pub w12sel: u8,
    /// $2124 W34SEL: window enable/invert bits for BG3/BG4.
    pub w34sel: u8,
    /// $2125 WOBJSEL: window enable/invert bits for OBJ and the color window.
    pub wobjsel: u8,
    /// $2126 WH0: window 1 left.
    pub wh0: u8,
    /// $2127 WH1: window 1 right.
    pub wh1: u8,
    /// $2128 WH2: window 2 left.
    pub wh2: u8,
    /// $2129 WH3: window 2 right.
    pub wh3: u8,
    /// $212A WBGLOG: window combine logic for BG1-4.
    pub wbglog: u8,
    /// $212B WOBJLOG: window combine logic for OBJ and the color window.
    pub wobjlog: u8,
    /// $212E TMW: main screen window-mask enable.
    pub tmw: u8,
    /// $212F TSW: subscreen window-mask enable.
    pub tsw: u8,
    /// $2106 MOSAIC: bits 0-3 enable per BG, bits 4-7 size minus 1.
    pub mosaic: u8,
    /// $2133 SETINI: bit 6 EXTBG, bit 3 pseudo-hires, bit 0 interlace.
    pub setini: u8,
    /// $211A M7SEL: bits 6-7 screen-over, bit 1 vertical flip, bit 0 horizontal flip.
    pub m7sel: u8,
    /// $211B M7A: matrix A (8.8 signed).
    pub m7a: u16,
    /// $211C M7B: matrix B (8.8 signed).
    pub m7b: u16,
    /// $211D M7C: matrix C (8.8 signed).
    pub m7c: u16,
    /// $211E M7D: matrix D (8.8 signed).
    pub m7d: u16,
    /// $211F M7X: 13-bit signed rotation center X.
    pub m7x: u16,
    /// $2120 M7Y: 13-bit signed rotation center Y.
    pub m7y: u16,
    /// Mode 7 horizontal scroll (13-bit signed).
    pub m7_hofs: u16,
    /// Mode 7 vertical scroll (13-bit signed).
    pub m7_vofs: u16,
    /// Shared mode-7 previous-byte latch.
    pub m7_latch: u8,
    /// Where sprite priority evaluation starts (sprite index).
    pub first_sprite: u8,
}

/// The fields `save_state` writes, as (value, width) pairs in order.
pub open spec fn registers_fields(x: PpuRegisters) -> Seq<(int, nat)> {
    seq![
        (x.inidisp as int, 1nat),
        (x.obsel as int, 1nat),
        (x.bgmode as int, 1nat),
        (x.bg_sc[0] as int, 1nat),
        (x.bg_sc[1] as int, 1nat),
        (x.bg_sc[2] as int, 1nat),
        (x.bg_sc[3] as int, 1nat),
        (x.bg12nba as int, 1nat),
        (x.bg34nba as int, 1nat),
        (x.bg_hofs[0] as int, 2nat),
        (x.bg_hofs[1] as int, 2nat),
        (x.bg_hofs[2] as int, 2nat),
        (x.bg_hofs[3] as int, 2nat),
        (x.bg_vofs[0] as int, 2nat),
        (x.bg_vofs[1] as int, 2nat),
        (x.bg_vofs[2] as int, 2nat),
        (x.bg_vofs[3] as int, 2nat),
        (x.bg_scroll_latch as int, 1nat),
        (x.tm as int, 1nat),
        (x.ts as int, 1nat),
        (x.cgwsel as int, 1nat),
        (x.cgadsub as int, 1nat),
        (x.coldata as int, 2nat),
        (x.w12sel as int, 1nat),
        (x.w34sel as int, 1nat),
        (x.wobjsel as int, 1nat),
        (x.wh0 as int, 1nat),
        (x.wh1 as int, 1nat),
        (x.wh2 as int, 1nat),
        (x.wh3 as int, 1nat),
        (x.wbglog as int, 1nat),
        (x.wobjlog as int, 1nat),
        (x.tmw as int, 1nat),
        (x.tsw as int, 1nat),
        (x.mosaic as int, 1nat),
        (x.setini as int, 1nat),
        (x.m7sel as int, 1nat),
        (x.m7a as int, 2nat),
        (x.m7b as int, 2nat),
        (x.m7c as int, 2nat),
        (x.m7d as int, 2nat),
        (x.m7x as int, 2nat),
        (x.m7y as int, 2nat),
        (x.m7_hofs as int, 2nat),
        (x.m7_vofs as int, 2nat),
        (x.m7_latch as int, 1nat),
        (x.first_sprite as int, 1nat),
    ]
}

/// The widths of the fields `save_state` writes.
pub open spec fn registers_widths() -> Seq<nat> {
    seq![1nat, 1nat, 1nat, 1nat, 1nat, 1nat, 1nat, 1nat, 1nat, 2nat, 2nat, 2nat, 2nat, 2nat, 2nat, 2nat, 2nat, 1nat, 1nat, 1nat, 1nat, 1nat, 2nat, 1nat, 1nat, 1nat, 1nat, 1nat, 1nat, 1nat, 1nat, 1nat, 1nat, 1nat, 1nat, 1nat, 1nat, 2nat, 2nat, 2nat, 2nat, 2nat, 2nat, 2nat, 2nat, 1nat, 1nat]
}

/// The save-state encoding.
pub open spec fn encode_registers(x: PpuRegisters) -> Seq<u8> {
    encode_fields(registers_fields(x))
}

/// The power-on register set: forced blank, everything else zero.
pub open spec fn registers_default() -> PpuRegisters {
    PpuRegisters {
        inidisp: 0x80,
        obsel: 0,
        bgmode: 0,
        bg_sc: [0u8, 0u8, 0u8, 0u8],
        bg12nba: 0,
        bg34nba: 0,
        bg_hofs: [0u16, 0u16, 0u16, 0u16],
        bg_vofs: [0u16, 0u16, 0u16, 0u16],
        bg_scroll_latch: 0,
        tm: 0,
        ts: 0,
        cgwsel: 0,
        cgadsub: 0,
        coldata: 0,
        w12sel: 0,
        w34sel: 0,
        wobjsel: 0,
        wh0: 0,
        wh1: 0,
        wh2: 0,
        wh3: 0,
        wbglog: 0,
        wobjlog: 0,
        tmw: 0,
        tsw: 0,
        mosaic: 0,
        setini: 0,
        m7sel: 0,
        m7a: 0,
        m7b: 0,
        m7c: 0,
        m7d: 0,
        m7x: 0,
        m7y: 0,
        m7_hofs: 0,
        m7_vofs: 0,
        m7_latch: 0,
        first_sprite: 0,
    }
}

impl PpuRegisters {
    fn state_fields(&self) -> (v: Vec<(u64, usize)>)
        ensures
            field_pairs(v@) == registers_fields(*self),
            forall|k: int| 0 <= k < v@.len() ==> #[trigger] v@[k].1 <= 8,
    {
        let v = vec![
            (self.inidisp as u64, 1usize),
            (self.obsel as u64, 1usize),
            (self.bgmode as u64, 1usize),
            (self.bg_sc[0] as u64, 1usize),
            (self.bg_sc[1] as u64, 1usize),
            (self.bg_sc[2] as u64, 1usize),
            (self.bg_sc[3] as u64, 1usize),
            (self.bg12nba as u64, 1usize),
            (self.bg34nba as u64, 1usize),
            (self.bg_hofs[0] as u64, 2usize),
            (self.bg_hofs[1] as u64, 2usize),
            (self.bg_hofs[2] as u64, 2usize),
            (self.bg_hofs[3] as u64, 2usize),
            (self.bg_vofs[0] as u64, 2usize),
            (self.bg_vofs[1] as u64, 2usize),
            (self.bg_vofs[2] as u64, 2usize),
            (self.bg_vofs[3] as u64, 2usize),
            (self.bg_scroll_latch as u64, 1usize),
            (self.tm as u64, 1usize),
            (self.ts as u64, 1usize),
            (self.cgwsel as u64, 1usize),
            (self.cgadsub as u64, 1usize),
            (self.coldata as u64, 2usize),
            (self.w12sel as u64, 1usize),
            (self.w34sel as u64, 1usize),
            (self.wobjsel as u64, 1usize),
            (self.wh0 as u64, 1usize),
            (self.wh1 as u64, 1usize),
            (self.wh2 as u64, 1usize),
            (self.wh3 as u64, 1usize),
            (self.wbglog as u64, 1usize),
            (self.wobjlog as u64, 1usize),
            (self.tmw as u64, 1usize),
            (self.tsw as u64, 1usize),
            (self.mosaic as u64, 1usize),
            (self.setini as u64, 1usize),
            (self.m7sel as u64, 1usize),
            (self.m7a as u64, 2usize),
            (self.m7b as u64, 2usize),
            (self.m7c as u64, 2usize),
            (self.m7d as u64, 2usize),
            (self.m7x as u64, 2usize),
            (self.m7y as u64, 2usize),
            (self.m7_hofs as u64, 2usize),
            (self.m7_vofs as u64, 2usize),
            (self.m7_latch as u64, 1usize),
            (self.first_sprite as u64, 1usize),
        ];
        assert(field_pairs(v@) =~= registers_fields(*self));
        v
    }

    /// Appends every rendering register to `out`, in declaration order.
    pub fn save_state(&self, out: &mut Vec<u8>)
        ensures
            final(out)@ == old(out)@ + encode_registers(*self),
    {
        let v = self.state_fields();
        put_fields(out, &v);
    }

    /// Restores state produced by `save_state`, field by field in the
    /// order it was written; a truncated buffer stops the load at the first
    /// field it no longer holds in full, keeping the fields read before it.
    pub fn load_state(&mut self, r: &mut StateReader) -> (res: Result<(), EmulationError>)
        requires
            old(r).wf(),
        ensures
            final(r).wf(),
            ({
                let k = fitting_fields(old(r).rest().len() as int, registers_widths(), 0);
                &&& *final(self) == registers_prefix(*old(self), decode_fields(old(r).rest(), registers_widths()), k)
                &&& old(r).advanced(&*final(r), field_offset(registers_widths(), k as int))
            }),
            old(r).rest().len() >= total_width(registers_widths()) ==> old(r).advanced(&*final(r), total_width(registers_widths()) as int),
            old(r).rest().len() >= total_width(registers_widths()) ==> res is Ok && *final(self) == registers_from_values(
                decode_fields(old(r).rest(), registers_widths()),
            ),
            old(r).rest().len() < total_width(registers_widths()) ==> res == Err::<(), EmulationError>(truncated()),
    {
        let widths: [usize; 47] = [1, 1, 1, 1, 1, 1, 1, 1, 1, 2, 2, 2, 2, 2, 2, 2, 2, 1, 1, 1, 1, 1, 2, 1, 1, 1, 1, 1, 1, 1, 1, 1, 1, 1, 1, 1, 1, 2, 2, 2, 2, 2, 2, 2, 2, 1, 1];
        assert(widths@.map_values(|w: usize| w as nat) =~= registers_widths());
        let (v, res) = r.read_prefix(widths.as_slice());
        let ghost ds = decode_fields(old(r).rest(), registers_widths());
        let ghost k = fitting_fields(old(r).rest().len() as int, registers_widths(), 0);
        proof {
            lemma_fitting_fields(old(r).rest().len() as int, registers_widths(), 0);
            assert(registers_widths().subrange(0, registers_widths().len() as int) =~= registers_widths());
        }
        let n = v.len();
        *self = PpuRegisters {
            inidisp: if n > 0 { (v[0] as u8) } else { self.inidisp },
            obsel: if n > 1 { (v[1] as u8) } else { self.obsel },
            bgmode: if n > 2 { (v[2] as u8) } else { self.bgmode },
            bg_sc: [if n > 3 { (v[3] as u8) } else { self.bg_sc[0] }, if n > 4 { (v[4] as u8) } else { self.bg_sc[1] }, if n > 5 { (v[5] as u8) } else { self.bg_sc[2] }, if n > 6 { (v[6] as u8) } else { self.bg_sc[3] }],
            bg12nba: if n > 7 { (v[7] as u8) } else { self.bg12nba },
            bg34nba: if n > 8 { (v[8] as u8) } else { self.bg34nba },
            bg_hofs: [if n > 9 { (v[9] as u16) } else { self.bg_hofs[0] }, if n > 10 { (v[10] as u16) } else { self.bg_hofs[1] }, if n > 11 { (v[11] as u16) } else { self.bg_hofs[2] }, if n > 12 { (v[12] as u16) } else { self.bg_hofs[3] }],
            bg_vofs: [if n > 13 { (v[13] as u16) } else { self.bg_vofs[0] }, if n > 14 { (v[14] as u16) } else { self.bg_vofs[1] }, if n > 15 { (v[15] as u16) } else { self.bg_vofs[2] }, if n > 16 { (v[16] as u16) } else { self.bg_vofs[3] }],
            bg_scroll_latch: if n > 17 { (v[17] as u8) } else { self.bg_scroll_latch },
            tm: if n > 18 { (v[18] as u8) } else { self.tm },
            ts: if n > 19 { (v[19] as u8) } else { self.ts },
            cgwsel: if n > 20 { (v[20] as u8) } else { self.cgwsel },
            cgadsub: if n > 21 { (v[21] as u8) } else { self.cgadsub },
            coldata: if n > 22 { (v[22] as u16) } else { self.coldata },
            w12sel: if n > 23 { (v[23] as u8) } else { self.w12sel },
            w34sel: if n > 24 { (v[24] as u8) } else { self.w34sel },
            wobjsel: if n > 25 { (v[25] as u8) } else { self.wobjsel },
            wh0: if n > 26 { (v[26] as u8) } else { self.wh0 },
            wh1: if n > 27 { (v[27] as u8) } else { self.wh1 },
            wh2: if n > 28 { (v[28] as u8) } else { self.wh2 },
            wh3: if n > 29 { (v[29] as u8) } else { self.wh3 },
            wbglog: if n > 30 { (v[30] as u8) } else { self.wbglog },
            wobjlog: if n > 31 { (v[31] as u8) } else { self.wobjlog },
            tmw: if n > 32 { (v[32] as u8) } else { self.tmw },
            tsw: if n > 33 { (v[33] as u8) } else { self.tsw },
            mosaic: if n > 34 { (v[34] as u8) } else { self.mosaic },
            setini: if n > 35 { (v[35] as u8) } else { self.setini },
            m7sel: if n > 36 { (v[36] as u8) } else { self.m7sel },
            m7a: if n > 37 { (v[37] as u16) } else { self.m7a },
            m7b: if n > 38 { (v[38] as u16) } else { self.m7b },
            m7c: if n > 39 { (v[39] as u16) } else { self.m7c },
            m7d: if n > 40 { (v[40] as u16) } else { self.m7d },
            m7x: if n > 41 { (v[41] as u16) } else { self.m7x },
            m7y: if n > 42 { (v[42] as u16) } else { self.m7y },
            m7_hofs: if n > 43 { (v[43] as u16) } else { self.m7_hofs },
            m7_vofs: if n > 44 { (v[44] as u16) } else { self.m7_vofs },
            m7_latch: if n > 45 { (v[45] as u8) } else { self.m7_latch },
            first_sprite: if n > 46 { (v[46] as u8) } else { self.first_sprite },
        };
        res
    }
}

impl Default for PpuRegisters {
    fn default() -> (r: Self)
        ensures
            r == registers_default(),
    {
        let r = Self {
            inidisp: 0x80,
            obsel: 0,
            bgmode: 0,
            bg_sc: [0u8; 4],
            bg12nba: 0,
            bg34nba: 0,
            bg_hofs: [0u16; 4],
            bg_vofs: [0u16; 4],
            bg_scroll_latch: 0,
            tm: 0,
            ts: 0,
            cgwsel: 0,
            cgadsub: 0,
            coldata: 0,
            w12sel: 0,
            w34sel: 0,
            wobjsel: 0,
            wh0: 0,
            wh1: 0,
            wh2: 0,
            wh3: 0,
            wbglog: 0,
            wobjlog: 0,
            tmw: 0,
            tsw: 0,
            mosaic: 0,
            setini: 0,
            m7sel: 0,
            m7a: 0,
            m7b: 0,
            m7c: 0,
            m7d: 0,
            m7x: 0,
            m7y: 0,
            m7_hofs: 0,
            m7_vofs: 0,
            m7_latch: 0,
            first_sprite: 0,
        };
        assert(r.bg_sc =~= [0u8, 0u8, 0u8, 0u8]);
        assert(r.bg_hofs =~= [0u16, 0u16, 0u16, 0u16]);
        assert(r.bg_vofs =~= [0u16, 0u16, 0u16, 0u16]);
        r
    }
}

/// `x` with its first `k` save-state fields replaced by those of `ds`:
/// what loading leaves when the buffer runs out after `k` fields.
pub open spec fn registers_prefix(x: PpuRegisters, ds: Seq<int>, k: nat) -> PpuRegisters {
    PpuRegisters {
        inidisp: if k > 0 { (ds[0] as u8) } else { x.inidisp },
        obsel: if k > 1 { (ds[1] as u8) } else { x.obsel },
        bgmode: if k > 2 { (ds[2] as u8) } else { x.bgmode },
        bg_sc: [if k > 3 { (ds[3] as u8) } else { x.bg_sc[0] }, if k > 4 { (ds[4] as u8) } else { x.bg_sc[1] }, if k > 5 { (ds[5] as u8) } else { x.bg_sc[2] }, if k > 6 { (ds[6] as u8) } else { x.bg_sc[3] }],
        bg12nba: if k > 7 { (ds[7] as u8) } else { x.bg12nba },
        bg34nba: if k > 8 { (ds[8] as u8) } else { x.bg34nba },
        bg_hofs: [if k > 9 { (ds[9] as u16) } else { x.bg_hofs[0] }, if k > 10 { (ds[10] as u16) } else { x.bg_hofs[1] }, if k > 11 { (ds[11] as u16) } else { x.bg_hofs[2] }, if k > 12 { (ds[12] as u16) } else { x.bg_hofs[3] }],
        bg_vofs: [if k > 13 { (ds[13] as u16) } else { x.bg_vofs[0] }, if k > 14 { (ds[14] as u16) } else { x.bg_vofs[1] }, if k > 15 { (ds[15] as u16) } else { x.bg_vofs[2] }, if k > 16 { (ds[16] as u16) } else { x.bg_vofs[3] }],
        bg_scroll_latch: if k > 17 { (ds[17] as u8) } else { x.bg_scroll_latch },
        tm: if k > 18 { (ds[18] as u8) } else { x.tm },
        ts: if k > 19 { (ds[19] as u8) } else { x.ts },
        cgwsel: if k > 20 { (ds[20] as u8) } else { x.cgwsel },
        cgadsub: if k > 21 { (ds[21] as u8) } else { x.cgadsub },
        coldata: if k > 22 { (ds[22] as u16) } else { x.coldata },
        w12sel: if k > 23 { (ds[23] as u8) } else { x.w12sel },
        w34sel: if k > 24 { (ds[24] as u8) } else { x.w34sel },
        wobjsel: if k > 25 { (ds[25] as u8) } else { x.wobjsel },
        wh0: if k > 26 { (ds[26] as u8) } else { x.wh0 },
        wh1: if k > 27 { (ds[27] as u8) } else { x.wh1 },
        wh2: if k > 28 { (ds[28] as u8) } else { x.wh2 },
        wh3: if k > 29 { (ds[29] as u8) } else { x.wh3 },
        wbglog: if k > 30 { (ds[30] as u8) } else { x.wbglog },
        wobjlog: if k > 31 { (ds[31] as u8) } else { x.wobjlog },
        tmw: if k > 32 { (ds[32] as u8) } else { x.tmw },
        tsw: if k > 33 { (ds[33] as u8) } else { x.tsw },
        mosaic: if k > 34 { (ds[34] as u8) } else { x.mosaic },
        setini: if k > 35 { (ds[35] as u8) } else { x.setini },
        m7sel: if k > 36 { (ds[36] as u8) } else { x.m7sel },
        m7a: if k > 37 { (ds[37] as u16) } else { x.m7a },
        m7b: if k > 38 { (ds[38] as u16) } else { x.m7b },
        m7c: if k > 39 { (ds[39] as u16) } else { x.m7c },
        m7d: if k > 40 { (ds[40] as u16) } else { x.m7d },
        m7x: if k > 41 { (ds[41] as u16) } else { x.m7x },
        m7y: if k > 42 { (ds[42] as u16) } else { x.m7y },
        m7_hofs: if k > 43 { (ds[43] as u16) } else { x.m7_hofs },
        m7_vofs: if k > 44 { (ds[44] as u16) } else { x.m7_vofs },
        m7_latch: if k > 45 { (ds[45] as u8) } else { x.m7_latch },
        first_sprite: if k > 46 { (ds[46] as u8) } else { x.first_sprite },
    }
}

/// The value whose save-state fields are `ds` (flags read as nonzero).
pub open spec fn registers_from_values(ds: Seq<int>) -> PpuRegisters {
    PpuRegisters { inidisp: (ds[0] as u8), obsel: (ds[1] as u8), bgmode: (ds[2] as u8), bg_sc: [(ds[3] as u8), (ds[4] as u8), (ds[5] as u8), (ds[6] as u8)], bg12nba: (ds[7] as u8), bg34nba: (ds[8] as u8), bg_hofs: [(ds[9] as u16), (ds[10] as u16), (ds[11] as u16), (ds[12] as u16)], bg_vofs: [(ds[13] as u16), (ds[14] as u16), (ds[15] as u16), (ds[16] as u16)], bg_scroll_latch: (ds[17] as u8), tm: (ds[18] as u8), ts: (ds[19] as u8), cgwsel: (ds[20] as u8), cgadsub: (ds[21] as u8), coldata: (ds[22] as u16), w12sel: (ds[23] as u8), w34sel: (ds[24] as u8), wobjsel: (ds[25] as u8), wh0: (ds[26] as u8), wh1: (ds[27] as u8), wh2: (ds[28] as u8), wh3: (ds[29] as u8), wbglog: (ds[30] as u8), wobjlog: (ds[31] as u8), tmw: (ds[32] as u8), tsw: (ds[33] as u8), mosaic: (ds[34] as u8), setini: (ds[35] as u8), m7sel: (ds[36] as u8), m7a: (ds[37] as u16), m7b: (ds[38] as u16), m7c: (ds[39] as u16), m7d: (ds[40] as u16), m7x: (ds[41] as u16), m7y: (ds[42] as u16), m7_hofs: (ds[43] as u16), m7_vofs: (ds[44] as u16), m7_latch: (ds[45] as u8), first_sprite: (ds[46] as u8) }
}

/// Loading the encoding of `x` (followed by anything) gives back `x`.
pub proof fn lemma_registers_roundtrip(x: PpuRegisters, t: Seq<u8>)
    ensures
        registers_from_values(decode_fields(encode_registers(x) + t, registers_widths())) == x,
{
    let fx = registers_fields(x);
    assert(widths_of(fx) =~= registers_widths());
    assert(fields_in_range(fx)) by {
        crate::state::lemma_byte_range_8(1);
        crate::state::lemma_byte_range_8(2);
        crate::state::lemma_byte_range_8(4);
        crate::state::lemma_byte_range_8(8);
    }
    crate::state::lemma_fields_roundtrip(fx, t);
    let ds = decode_fields(encode_registers(x) + t, registers_widths());
    assert(ds == values_of(fx));
    let y = registers_from_values(ds);
    assert(ds[0] == values_of(fx)[0]);
    assert(ds[1] == values_of(fx)[1]);
    assert(ds[2] == values_of(fx)[2]);
    assert(ds[3] == values_of(fx)[3]);
    assert(ds[4] == values_of(fx)[4]);
    assert(ds[5] == values_of(fx)[5]);
    assert(ds[6] == values_of(fx)[6]);
    assert(ds[7] == values_of(fx)[7]);
    assert(ds[8] == values_of(fx)[8]);
    assert(ds[9] == values_of(fx)[9]);
    assert(ds[10] == values_of(fx)[10]);
    assert(ds[11] == values_of(fx)[11]);
    assert(ds[12] == values_of(fx)[12]);
    assert(ds[13] == values_of(fx)[13]);
    assert(ds[14] == values_of(fx)[14]);
    assert(ds[15] == values_of(fx)[15]);
    assert(ds[16] == values_of(fx)[16]);
    assert(ds[17] == values_of(fx)[17]);
    assert(ds[18] == values_of(fx)[18]);
    assert(ds[19] == values_of(fx)[19]);
    assert(ds[20] == values_of(fx)[20]);
    assert(ds[21] == values_of(fx)[21]);
    assert(ds[22] == values_of(fx)[22]);
    assert(ds[23] == values_of(fx)[23]);
    assert(ds[24] == values_of(fx)[24]);
    assert(ds[25] == values_of(fx)[25]);
    assert(ds[26] == values_of(fx)[26]);
    assert(ds[27] == values_of(fx)[27]);
    assert(ds[28] == values_of(fx)[28]);
    assert(ds[29] == values_of(fx)[29]);
    assert(ds[30] == values_of(fx)[30]);
    assert(ds[31] == values_of(fx)[31]);
    assert(ds[32] == values_of(fx)[32]);
    assert(ds[33] == values_of(fx)[33]);
    assert(ds[34] == values_of(fx)[34]);
    assert(ds[35] == values_of(fx)[35]);
    assert(ds[36] == values_of(fx)[36]);
    assert(ds[37] == values_of(fx)[37]);
    assert(ds[38] == values_of(fx)[38]);
    assert(ds[39] == values_of(fx)[39]);
    assert(ds[40] == values_of(fx)[40]);
    assert(ds[41] == values_of(fx)[41]);
    assert(ds[42] == values_of(fx)[42]);
    assert(ds[43] == values_of(fx)[43]);
    assert(ds[44] == values_of(fx)[44]);
    assert(ds[45] == values_of(fx)[45]);
    assert(ds[46] == values_of(fx)[46]);
    assert(x.bg_sc =~= y.bg_sc);
    assert(x.bg_hofs =~= y.bg_hofs);
    assert(x.bg_vofs =~= y.bg_vofs);
}
/// Video standard.
#[derive(Debug, Clone, Copy, PartialEq, Eq)]
pub enum PpuMode {
    /// NTSC: 262 scanlines.
    Ntsc,
    /// PAL: 312 scanlines.
    Pal,
}

impl Default for PpuMode {
    fn default() -> (m: Self)
        ensures
            m == PpuMode::Ntsc,
    {
        PpuMode::Ntsc
    }
}

/// Dots per scanline (positions 0-340).
pub const PIXELS_PER_LINE: u16 = 341;

/// Scanlines per frame for a video standard.
pub open spec fn lines_per_frame(mode: PpuMode) -> u16 {
    match mode {
        PpuMode::Ntsc => 262,
        PpuMode::Pal => 312,
    }
}

/// The line on which vblank (and the NMI) starts.
pub open spec fn first_vblank_line(mode: PpuMode, overscan: bool) -> u16 {
    if overscan {
        239
    } else {
        match mode {
            PpuMode::Ntsc => 224,
            PpuMode::Pal => 240,
        }
    }
}

/// The PPU's state as plain values.
pub ghost struct PpuView {
    pub vram: Vram,
    pub cgram: Cgram,
    pub oam: Oam,
    pub scanline: u16,
    pub h_counter: u16,
    pub frame: u32,
    pub mode: PpuMode,
    pub frame_ready: bool,
    pub frame_ready_latched: bool,
    pub field: bool,
    pub overscan: bool,
}

/// The counters after advancing one dot: the dot counter wraps at 341
/// into the next scanline; reaching the first vblank line latches
/// `frame_ready` once per frame; passing the last scanline wraps to line 0,
/// counts the frame and flips the interlace field.
pub open spec fn tick_spec(v: PpuView) -> PpuView {
    let h = v.h_counter + 1;
    if h < PIXELS_PER_LINE {
        PpuView { h_counter: h as u16, ..v }
    } else {
        let line = v.scanline + 1;
        let entering_vblank = !v.frame_ready_latched && line >= first_vblank_line(v.mode, v.overscan);
        let latched = v.frame_ready_latched || entering_vblank;
        let ready = v.frame_ready || entering_vblank;
        if line >= lines_per_frame(v.mode) {
            PpuView {
                h_counter: 0,
                scanline: 0,
                frame: (v.frame + 1) as u32,
                frame_ready: ready,
                frame_ready_latched: false,
                field: !v.field,
                ..v
            }
        } else {
            PpuView { h_counter: 0, scanline: line as u16, frame_ready: ready, frame_ready_latched: latched, ..v }
        }
    }
}

/// The state after `n` dots.
pub open spec fn tick_n_spec(v: PpuView, n: nat) -> PpuView
    decreases n,
{
    if n == 0 {
        v
    } else {
        tick_spec(tick_n_spec(v, (n - 1) as nat))
    }
}

/// The dot the counters stand at within the frame. A scanline past the
/// mode's last one counts as the last, since the frame ends with it.
pub open spec fn frame_position(v: PpuView) -> int {
    let last = lines_per_frame(v.mode) - 1;
    let line = if v.scanline >= last { last } else { v.scanline as int };
    line * 341 + v.h_counter
}

/// Dots in a frame of the video standard `mode`.
pub open spec fn dots_per_frame(mode: PpuMode) -> int {
    lines_per_frame(mode) * 341
}

/// How many frames end within the next `n` dots from the state `v`.
pub open spec fn frames_in(v: PpuView, n: nat) -> int {
    (frame_position(v) + n) / dots_per_frame(v.mode)
}

proof fn lemma_frame_position_range(v: PpuView)
    requires
        v.h_counter < 341,
    ensures
        0 <= frame_position(v) < dots_per_frame(v.mode),
{
}

/// One dot moves the frame position forward by one, wrapping at the end
/// of the frame, which is also where the frame counter advances.
proof fn lemma_tick_position(v: PpuView)
    requires
        v.h_counter < 341,
        v.scanline < 312,
        frame_position(v) == dots_per_frame(v.mode) - 1 ==> v.frame < u32::MAX,
    ensures
        tick_spec(v).mode == v.mode,
        frame_position(tick_spec(v)) == if frame_position(v) == dots_per_frame(v.mode) - 1 {
            0
        } else {
            frame_position(v) + 1
        },
        tick_spec(v).frame == if frame_position(v) == dots_per_frame(v.mode) - 1 {
            v.frame + 1
        } else {
            v.frame as int
        },
        tick_spec(v).field == if frame_position(v) == dots_per_frame(v.mode) - 1 { !v.field } else { v.field },
        tick_spec(v).h_counter < 341,
        tick_spec(v).scanline < 312,
        v.h_counter + 1 == 341 && v.scanline + 1 >= lines_per_frame(v.mode) ==> frame_position(v)
            == dots_per_frame(v.mode) - 1,
{
}

proof fn lemma_count_step(a: int, d: int)
    requires
        0 <= a,
        0 < d,
    ensures
        a % d == d - 1 ==> (a + 1) % d == 0 && (a + 1) / d == a / d + 1,
        a % d != d - 1 ==> (a + 1) % d == a % d + 1 && (a + 1) / d == a / d,
{
    vstd::arithmetic::div_mod::lemma_fundamental_div_mod(a, d);
    vstd::arithmetic::div_mod::lemma_mod_bound(a, d);
    if a % d == d - 1 {
        assert(a + 1 == (a / d + 1) * d + 0) by (nonlinear_arith)
            requires
                a == d * (a / d) + a % d,
                a % d == d - 1,
        ;
        vstd::arithmetic::div_mod::lemma_fundamental_div_mod_converse(a + 1, d, a / d + 1, 0);
    } else {
        assert(a + 1 == (a / d) * d + (a % d + 1)) by (nonlinear_arith)
            requires
                a == d * (a / d) + a % d,
        ;
        vstd::arithmetic::div_mod::lemma_fundamental_div_mod_converse(a + 1, d, a / d, a % d + 1);
    }
}

proof fn lemma_div_mono(a: int, b: int, d: int)
    requires
        0 <= a <= b,
        0 < d,
    ensures
        a / d <= b / d,
{
    vstd::arithmetic::div_mod::lemma_div_is_ordered(a, b, d);
}

/// The interlace field flips exactly when a frame ends: after `n` dots the
/// frame counter has advanced by the frames that ended, the field has
/// flipped once for each of them, and the position in the frame has moved
/// on by `n` dots, wrapping at the end of each frame.
pub proof fn lemma_field_flips_per_frame(v: PpuView, n: nat)
    requires
        v.h_counter < 341,
        v.scanline < 312,
        v.frame + frames_in(v, n) <= u32::MAX,
    ensures
        tick_n_spec(v, n).mode == v.mode,
        tick_n_spec(v, n).h_counter < 341,
        tick_n_spec(v, n).scanline < 312,
        tick_n_spec(v, n).frame == v.frame + frames_in(v, n),
        tick_n_spec(v, n).field == (if frames_in(v, n) % 2 == 1 { !v.field } else { v.field }),
        frame_position(tick_n_spec(v, n)) == (frame_position(v) + n) % dots_per_frame(v.mode),
    decreases n,
{
    let p = frame_position(v);
    let d = dots_per_frame(v.mode);
    lemma_frame_position_range(v);
    if n == 0 {
        vstd::arithmetic::div_mod::lemma_small_mod(p as nat, d as nat);
        vstd::arithmetic::div_mod::lemma_fundamental_div_mod_converse(p, d, 0, p);
    } else {
        lemma_div_mono(p + n - 1, p + n, d);
        lemma_field_flips_per_frame(v, (n - 1) as nat);
        let w = tick_n_spec(v, (n - 1) as nat);
        lemma_count_step(p + n - 1, d);
        lemma_tick_position(w);
    }
}

/// From the first dot of a frame with nothing flagged, the PPU counts lines
/// and dots up from 0, and it is in vblank and has flagged the frame ready
/// exactly once it has reached line 224 on NTSC or line 240 on PAL (line 239
/// with overscan), staying so until the frame ends.
pub proof fn lemma_vblank_start(v: PpuView, n: nat)
    requires
        v.h_counter == 0,
        v.scanline == 0,
        !v.frame_ready,
        !v.frame_ready_latched,
        n < dots_per_frame(v.mode),
    ensures
        ({
            let w = tick_n_spec(v, n);
            let first = if v.overscan { 239int } else if v.mode == PpuMode::Pal { 240int } else { 224int };
            &&& w.scanline == n / 341
            &&& w.h_counter == n % 341
            &&& w.frame_ready == (n / 341 >= first)
            &&& w.frame_ready_latched == (n / 341 >= first)
            &&& (w.scanline >= first_vblank_line(w.mode, w.overscan)) == (n / 341 >= first)
            &&& w.mode == v.mode
            &&& w.overscan == v.overscan
            &&& w.frame == v.frame
            &&& w.field == v.field
        }),
    decreases n,
{
    if n > 0 {
        lemma_vblank_start(v, (n - 1) as nat);
        lemma_count_step(n - 1, 341);
        assert(n / 341 < lines_per_frame(v.mode)) by (nonlinear_arith)
            requires
                n < lines_per_frame(v.mode) * 341,
        ;
    }
}

/// Advancing `a` dots and then `b` dots is advancing `a + b` dots.
pub proof fn lemma_tick_n_additive(v: PpuView, a: nat, b: nat)
    ensures
        tick_n_spec(tick_n_spec(v, a), b) == tick_n_spec(v, a + b),
    decreases b,
{
    if b > 0 {
        lemma_tick_n_additive(v, a, (b - 1) as nat);
        assert(tick_n_spec(v, a + b) == tick_spec(tick_n_spec(v, (a + b - 1) as nat)));
    }
}

/// Picture Processing Unit: VRAM, CGRAM, OAM and the timing counters.
pub struct Ppu {
    vram: Vram,
    cgram: Cgram,
    oam: Oam,
    scanline: u16,
    h_counter: u16,
    frame: u32,
    mode: PpuMode,
    frame_ready: bool,
    frame_ready_latched: bool,
    field: bool,
    overscan: bool,
}

impl View for Ppu {
    type V = PpuView;

    closed spec fn view(&self) -> PpuView {
        PpuView {
            vram: self.vram,
            cgram: self.cgram,
            oam: self.oam,
            scanline: self.scanline,
            h_counter: self.h_counter,
            frame: self.frame,
            mode: self.mode,
            frame_ready: self.frame_ready,
            frame_ready_latched: self.frame_ready_latched,
            field: self.field,
            overscan: self.overscan,
        }
    }
}

/// A freshly constructed PPU in `mode`: cleared memories, counters at zero.
pub open spec fn fresh_ppu(v: PpuView, mode: PpuMode) -> bool {
    &&& v.mode == mode
    &&& v.scanline == 0
    &&& v.h_counter == 0
    &&& v.frame == 0
    &&& !v.frame_ready
    &&& !v.frame_ready_latched
    &&& !v.field
    &&& !v.overscan
    &&& v.vram.bytes().len() == crate::vram::VRAM_SIZE
    &&& forall|i: int| 0 <= i < crate::vram::VRAM_SIZE ==> v.vram.bytes()[i] == 0
    &&& v.cgram.bytes().len() == crate::cgram::CGRAM_SIZE
    &&& forall|i: int| 0 <= i < crate::cgram::CGRAM_SIZE ==> v.cgram.bytes()[i] == 0
    &&& v.oam.bytes().len() == crate::oam::OAM_SIZE
    &&& forall|i: int| 0 <= i < crate::oam::OAM_SIZE ==> v.oam.bytes()[i] == 0
}

impl Ppu {
    /// The counters are within range: dot below 341, scanline below 312.
    pub open spec fn wf(&self) -> bool {
        self@.h_counter < PIXELS_PER_LINE && self@.scanline < 312
    }

    /// A new NTSC PPU.
    pub fn new() -> (p: Self)
        ensures
            fresh_ppu(p@, PpuMode::Ntsc),
            p.wf(),
    {
        Self::with_mode(PpuMode::Ntsc)
    }

    /// A new PPU following `mode`.
    pub fn with_mode(mode: PpuMode) -> (p: Self)
        ensures
            fresh_ppu(p@, mode),
            p.wf(),
    {
        Self {
            vram: Vram::new(),
            cgram: Cgram::new(),
            oam: Oam::new(),
            scanline: 0,
            h_counter: 0,
            frame: 0,
            mode,
            frame_ready: false,
            frame_ready_latched: false,
            field: false,
            overscan: false,
        }
    }

    /// A new PAL PPU.
    pub fn new_pal() -> (p: Self)
        ensures
            fresh_ppu(p@, PpuMode::Pal),
            p.wf(),
    {
        Self::with_mode(PpuMode::Pal)
    }

    /// Mutable access to VRAM.
    pub fn vram(&mut self) -> (r: &mut Vram)
        ensures
            *r == old(self)@.vram,
            final(self)@ == (PpuView { vram: *final(r), ..old(self)@ }),
    {
        &mut self.vram
    }

    /// VRAM.
    pub fn vram_ref(&self) -> (r: &Vram)
        ensures
            *r == self@.vram,
    {
        &self.vram
    }

    /// Mutable access to CGRAM.
    pub fn cgram(&mut self) -> (r: &mut Cgram)
        ensures
            *r == old(self)@.cgram,
            final(self)@ == (PpuView { cgram: *final(r), ..old(self)@ }),
    {
        &mut self.cgram
    }

    /// CGRAM.
    pub fn cgram_ref(&self) -> (r: &Cgram)
        ensures
            *r == self@.cgram,
    {
        &self.cgram
    }

    /// Mutable access to OAM.
    pub fn oam(&mut self) -> (r: &mut Oam)
        ensures
            *r == old(self)@.oam,
            final(self)@ == (PpuView { oam: *final(r), ..old(self)@ }),
    {
        &mut self.oam
    }

    /// OAM.
    pub fn oam_ref(&self) -> (r: &Oam)
        ensures
            *r == self@.oam,
    {
        &self.oam
    }

    /// Advances one dot. `frame_ready` is latched on the vblank-entry
    /// edge, the same edge on which hardware raises NMI.
    pub fn tick(&mut self)
        requires
            old(self).wf(),
            old(self)@.h_counter + 1 == PIXELS_PER_LINE && old(self)@.scanline + 1 >= lines_per_frame(old(self)@.mode)
                ==> old(self)@.frame < u32::MAX,
        ensures
            final(self).wf(),
            final(self)@ == tick_spec(old(self)@),
    {
        self.h_counter = self.h_counter + 1;
        if self.h_counter >= Self::pixels_per_line() {
            self.h_counter = 0;
            self.scanline = self.scanline + 1;
            if !self.frame_ready_latched && self.scanline >= self.visible_scanlines() {
                self.frame_ready_latched = true;
                self.frame_ready = true;
            }
            if self.scanline >= self.scanlines_per_frame() {
                self.scanline = 0;
                self.frame = self.frame + 1;
                self.frame_ready_latched = false;
                self.field = !self.field;
            }
        }
    }

    /// Advances `pixels` dots.
    pub fn tick_n(&mut self, pixels: u32)
        requires
            old(self).wf(),
            old(self)@.frame + frames_in(old(self)@, pixels as nat) <= u32::MAX,
        ensures
            final(self).wf(),
            final(self)@ == tick_n_spec(old(self)@, pixels as nat),
    {
        let ghost p0 = frame_position(self@);
        let ghost f0 = self@.frame;
        let ghost d = dots_per_frame(self@.mode);
        proof {
            lemma_frame_position_range(self@);
            vstd::arithmetic::div_mod::lemma_small_mod(p0 as nat, d as nat);
            vstd::arithmetic::div_mod::lemma_fundamental_div_mod_converse(p0, d, 0, p0);
        }
        let mut i: u32 = 0;
        while i < pixels
            invariant
                i <= pixels,
                self.wf(),
                self@ == tick_n_spec(old(self)@, i as nat),
                self@.mode == old(self)@.mode,
                d == dots_per_frame(self@.mode),
                d > 0,
                0 <= p0,
                p0 == frame_position(old(self)@),
                f0 == old(self)@.frame,
                frame_position(self@) == (p0 + i) % d,
                self@.frame == f0 + (p0 + i) / d,
                f0 + (p0 + pixels) / d <= u32::MAX,
            decreases pixels - i,
        {
            proof {
                lemma_count_step(p0 + i, d);
                if frame_position(self@) == d - 1 {
                    lemma_div_mono(p0 + i + 1, p0 + pixels, d);
                }
                lemma_tick_position(self@);
            }
            self.tick();
            i = i + 1;
        }
    }

    /// Whether a finished frame is ready.
    pub fn is_frame_ready(&self) -> (r: bool)
        ensures
            r == self@.frame_ready,
    {
        self.frame_ready
    }

    /// Clears the frame-ready flag.
    pub fn clear_frame_ready(&mut self)
        ensures
            final(self)@ == (PpuView { frame_ready: false, ..old(self)@ }),
    {
        self.frame_ready = false;
    }

    /// Current scanline.
    pub fn scanline(&self) -> (r: u16)
        ensures
            r == self@.scanline,
    {
        self.scanline
    }

    /// Current dot within the scanline.
    pub fn h_counter(&self) -> (r: u16)
        ensures
            r == self@.h_counter,
    {
        self.h_counter
    }

    /// Frame counter.
    pub fn frame(&self) -> (r: u32)
        ensures
            r == self@.frame,
    {
        self.frame
    }

    /// Video standard.
    pub fn mode(&self) -> (r: PpuMode)
        ensures
            r == self@.mode,
    {
        self.mode
    }

    /// Scanlines per frame: 262 (NTSC) or 312 (PAL).
    pub fn scanlines_per_frame(&self) -> (r: u16)
        ensures
            r == lines_per_frame(self@.mode),
    {
        match self.mode {
            PpuMode::Ntsc => 262,
            PpuMode::Pal => 312,
        }
    }

    /// Dots per scanline, hblank included: 341.
    pub fn pixels_per_line() -> (r: u16)
        ensures
            r == PIXELS_PER_LINE,
    {
        341
    }

    /// Visible scanlines: 239 with overscan, else 224 (NTSC) or 240 (PAL).
    pub fn visible_scanlines(&self) -> (r: u16)
        ensures
            r == first_vblank_line(self@.mode, self@.overscan),
    {
        if self.overscan {
            return 239;
        }
        match self.mode {
            PpuMode::Ntsc => 224,
            PpuMode::Pal => 240,
        }
    }

    /// Sets SETINI's overscan mode.
    pub fn set_overscan(&mut self, overscan: bool)
        ensures
            final(self)@ == (PpuView { overscan, ..old(self)@ }),
    {
        self.overscan = overscan;
    }

    /// Whether the current scanline is in vertical blanking.
    pub fn in_vblank(&self) -> (r: bool)
        ensures
            r == (self@.scanline >= first_vblank_line(self@.mode, self@.overscan)),
    {
        self.scanline >= self.visible_scanlines()
    }

    /// The interlace field flag, toggled every frame.
    pub fn field(&self) -> (r: bool)
        ensures
            r == self@.field,
    {
        self.field
    }

    /// Whether the current dot is in horizontal blanking: dot 274 through
    /// dot 0 of the next line.
    pub fn in_hblank(&self) -> (r: bool)
        ensures
            r == (self@.h_counter >= 274 || self@.h_counter < 1),
    {
        self.h_counter >= 274 || self.h_counter < 1
    }

    /// Resets the counters and flags and clears VRAM, CGRAM and OAM. The
    /// video standard and overscan setting are kept.
    pub fn reset(&mut self)
        ensures
            fresh_ppu(final(self)@, old(self)@.mode) <== !old(self)@.overscan,
            final(self)@.mode == old(self)@.mode,
            final(self)@.overscan == old(self)@.overscan,
            final(self)@.scanline == 0 && final(self)@.h_counter == 0 && final(self)@.frame == 0,
            !final(self)@.frame_ready && !final(self)@.frame_ready_latched && !final(self)@.field,
            final(self)@.vram.bytes().len() == crate::vram::VRAM_SIZE,
            forall|i: int| 0 <= i < crate::vram::VRAM_SIZE ==> final(self)@.vram.bytes()[i] == 0,
            final(self)@.cgram.bytes().len() == crate::cgram::CGRAM_SIZE,
            forall|i: int| 0 <= i < crate::cgram::CGRAM_SIZE ==> final(self)@.cgram.bytes()[i] == 0,
            final(self)@.oam.bytes().len() == crate::oam::OAM_SIZE,
            forall|i: int| 0 <= i < crate::oam::OAM_SIZE ==> final(self)@.oam.bytes()[i] == 0,
            final(self).wf(),
    {
        self.scanline = 0;
        self.h_counter = 0;
        self.frame = 0;
        self.frame_ready = false;
        self.frame_ready_latched = false;
        self.field = false;
        self.vram.clear();
        self.cgram.clear();
        self.oam.clear();
    }

    /// Sets the video standard.
    pub fn set_mode(&mut self, mode: PpuMode)
        ensures
            final(self)@ == (PpuView { mode, ..old(self)@ }),
    {
        self.mode = mode;
    }

    /// Switches to NTSC.
    pub fn set_ntsc(&mut self)
        ensures
            final(self)@ == (PpuView { mode: PpuMode::Ntsc, ..old(self)@ }),
    {
        self.set_mode(PpuMode::Ntsc);
    }

    /// Switches to PAL.
    pub fn set_pal(&mut self)
        ensures
            final(self)@ == (PpuView { mode: PpuMode::Pal, ..old(self)@ }),
    {
        self.set_mode(PpuMode::Pal);
    }
}

// ==================== Save states ====================

/// Copies `src` into `dst`, which has the same length.
pub fn copy_bytes(dst: &mut [u8], src: &[u8])
    requires
        old(dst)@.len() == src@.len(),
    ensures
        final(dst)@ == src@,
{
    let mut i: usize = 0;
    while i < src.len()
        invariant
            i <= src@.len(),
            dst@.len() == src@.len(),
            forall|k: int| 0 <= k < i ==> dst@[k] == src@[k],
        decreases src@.len() - i,
    {
        dst[i] = src[i];
        i = i + 1;
    }
    assert(dst@ =~= src@);
}

/// Bytes in a PPU save state: VRAM, CGRAM and OAM, then the counters.
pub const PPU_STATE_LEN: usize = 66605;

/// The counters and flags saved after the three memories.
pub open spec fn ppu_tail_fields(v: PpuView) -> Seq<(int, nat)> {
    seq![
        (v.scanline as int, 2nat),
        (v.h_counter as int, 2nat),
        (v.frame as int, 4nat),
        (if v.mode == PpuMode::Pal { 1int } else { 0int }, 1nat),
        (if v.frame_ready { 1int } else { 0int }, 1nat),
        (if v.frame_ready_latched { 1int } else { 0int }, 1nat),
        (if v.field { 1int } else { 0int }, 1nat),
        (if v.overscan { 1int } else { 0int }, 1nat),
    ]
}

pub open spec fn ppu_tail_widths() -> Seq<nat> {
    seq![2nat, 2nat, 4nat, 1nat, 1nat, 1nat, 1nat, 1nat]
}

/// The save-state encoding: VRAM, CGRAM and OAM bytes, then the scanline,
/// dot and frame counters, the video standard (0 NTSC, 1 PAL) and the
/// four flags.
pub open spec fn encode_ppu(v: PpuView) -> Seq<u8> {
    v.vram.bytes() + v.cgram.bytes() + v.oam.bytes() + encode_fields(ppu_tail_fields(v))
}

/// Whether the PPU state `v` is what the save-state bytes `s` describe.
pub open spec fn ppu_matches_bytes(v: PpuView, s: Seq<u8>) -> bool {
    let ds = decode_fields(s.skip(66592), ppu_tail_widths());
    &&& v.vram.bytes() == s.subrange(0, 65536)
    &&& v.cgram.bytes() == s.subrange(65536, 66048)
    &&& v.oam.bytes() == s.subrange(66048, 66592)
    &&& v.scanline == ds[0] as u16
    &&& v.h_counter == ds[1] as u16
    &&& v.frame == ds[2] as u32
    &&& v.mode == (if ds[3] == 1 { PpuMode::Pal } else { PpuMode::Ntsc })
    &&& v.frame_ready == (ds[4] != 0)
    &&& v.frame_ready_latched == (ds[5] != 0)
    &&& v.field == (ds[6] != 0)
    &&& v.overscan == (ds[7] != 0)
}

/// Whether `y` is what loading leaves of the PPU `x` from the bytes `s`: the
/// memories and then the fields are read in order, and the load stops at the
/// first one that `s` no longer holds in full, keeping what was read before.
pub open spec fn ppu_loaded(x: PpuView, s: Seq<u8>, y: PpuView) -> bool {
    let ds = decode_fields(s.skip(66592), ppu_tail_widths());
    let k = if s.len() >= 66592 { fitting_fields(s.len() - 66592, ppu_tail_widths(), 0) } else { 0 };
    &&& y.vram.bytes() == (if s.len() >= 65536 { s.subrange(0, 65536) } else { x.vram.bytes() })
    &&& y.cgram.bytes() == (if s.len() >= 66048 { s.subrange(65536, 66048) } else { x.cgram.bytes() })
    &&& y.oam.bytes() == (if s.len() >= 66592 { s.subrange(66048, 66592) } else { x.oam.bytes() })
    &&& y.scanline == (if k > 0 { ds[0] as u16 } else { x.scanline })
    &&& y.h_counter == (if k > 1 { ds[1] as u16 } else { x.h_counter })
    &&& y.frame == (if k > 2 { ds[2] as u32 } else { x.frame })
    &&& y.mode == (if k > 3 { if ds[3] == 1 { PpuMode::Pal } else { PpuMode::Ntsc } } else { x.mode })
    &&& y.frame_ready == (if k > 4 { ds[4] != 0 } else { x.frame_ready })
    &&& y.frame_ready_latched == (if k > 5 { ds[5] != 0 } else { x.frame_ready_latched })
    &&& y.field == (if k > 6 { ds[6] != 0 } else { x.field })
    &&& y.overscan == (if k > 7 { ds[7] != 0 } else { x.overscan })
}

/// How many bytes loading a PPU consumes from a buffer of `len` bytes: up
/// to the end of the last memory or field it holds in full.
pub open spec fn ppu_consumed(len: int) -> int {
    if len < 65536 {
        0
    } else if len < 66048 {
        65536
    } else if len < 66592 {
        66048
    } else {
        66592 + field_offset(ppu_tail_widths(), fitting_fields(len - 66592, ppu_tail_widths(), 0) as int)
    }
}

/// Loading a PPU's save state (followed by anything) restores its memories,
/// counters, video standard and flags.
pub proof fn lemma_ppu_roundtrip(v: PpuView, w: PpuView, t: Seq<u8>)
    requires
        ppu_matches_bytes(w, encode_ppu(v) + t),
    ensures
        w.vram.bytes() == v.vram.bytes(),
        w.cgram.bytes() == v.cgram.bytes(),
        w.oam.bytes() == v.oam.bytes(),
        w.scanline == v.scanline,
        w.h_counter == v.h_counter,
        w.frame == v.frame,
        w.mode == v.mode,
        w.frame_ready == v.frame_ready,
        w.frame_ready_latched == v.frame_ready_latched,
        w.field == v.field,
        w.overscan == v.overscan,
{
    v.vram.lemma_len();
    v.cgram.lemma_len();
    v.oam.lemma_len();
    let fx = ppu_tail_fields(v);
    let s = encode_ppu(v) + t;
    let tail = encode_fields(fx) + t;
    assert(s.subrange(0, 65536) =~= v.vram.bytes());
    assert(s.subrange(65536, 66048) =~= v.cgram.bytes());
    assert(s.subrange(66048, 66592) =~= v.oam.bytes());
    assert(s.skip(66592) =~= tail);
    assert(widths_of(fx) =~= ppu_tail_widths());
    assert(fields_in_range(fx)) by {
        crate::state::lemma_byte_range_8(1);
        crate::state::lemma_byte_range_8(2);
        crate::state::lemma_byte_range_8(4);
    }
    crate::state::lemma_fields_roundtrip(fx, t);
    let ds = decode_fields(tail, ppu_tail_widths());
    assert(ds == values_of(fx));
    assert(ds[0] == values_of(fx)[0]);
    assert(ds[1] == values_of(fx)[1]);
    assert(ds[2] == values_of(fx)[2]);
    assert(ds[3] == values_of(fx)[3]);
    assert(ds[4] == values_of(fx)[4]);
    assert(ds[5] == values_of(fx)[5]);
    assert(ds[6] == values_of(fx)[6]);
    assert(ds[7] == values_of(fx)[7]);
}

impl Ppu {
    /// Appends VRAM, CGRAM and OAM contents plus the timing counters, the
    /// video standard and the frame/field/overscan flags to `out`.
    pub fn save_state(&self, out: &mut Vec<u8>)
        ensures
            final(out)@ == old(out)@ + encode_ppu(self@),
    {
        put_bytes(out, self.vram.as_slice());
        put_bytes(out, self.cgram.as_slice());
        put_bytes(out, self.oam.as_slice());
        let mode: u64 = match self.mode {
            PpuMode::Ntsc => 0,
            PpuMode::Pal => 1,
        };
        let v = vec![
            (self.scanline as u64, 2usize),
            (self.h_counter as u64, 2usize),
            (self.frame as u64, 4usize),
            (mode, 1usize),
            (if self.frame_ready { 1u64 } else { 0u64 }, 1usize),
            (if self.frame_ready_latched { 1u64 } else { 0u64 }, 1usize),
            (if self.field { 1u64 } else { 0u64 }, 1usize),
            (if self.overscan { 1u64 } else { 0u64 }, 1usize),
        ];
        assert(field_pairs(v@) =~= ppu_tail_fields(self@));
        put_fields(out, &v);
        assert(final(out)@ =~= old(out)@ + encode_ppu(self@));
    }

    /// Restores state produced by `save_state`, in the order it was written;
    /// a truncated buffer stops the load at the first memory or field it no
    /// longer holds in full, keeping what was read before it.
    #[verifier::rlimit(60)]
    #[verifier::spinoff_prover]
    pub fn load_state(&mut self, r: &mut StateReader) -> (res: Result<(), EmulationError>)
        requires
            old(r).wf(),
        ensures
            final(r).wf(),
            ppu_loaded(old(self)@, old(r).rest(), final(self)@),
            old(r).advanced(&*final(r), ppu_consumed(old(r).rest().len() as int)),
            old(r).rest().len() >= PPU_STATE_LEN ==> res is Ok && ppu_matches_bytes(final(self)@, old(r).rest()),
            old(r).rest().len() < PPU_STATE_LEN ==> res == Err::<(), EmulationError>(truncated()),
    {
        let ghost s = old(r).rest();
        let ghost x = self@;
        proof {
            self.vram.lemma_len();
            self.cgram.lemma_len();
            self.oam.lemma_len();
            reveal_with_fuel(total_width, 9);
            assert(ppu_tail_widths().subrange(0, 8) =~= ppu_tail_widths());
        }
        let vb = match r.bytes(0x10000) {
            Ok(b) => b,
            Err(e) => return Err(e),
        };
        copy_bytes(self.vram.as_mut_slice(), vb);
        assert(vb@ =~= s.subrange(0, 65536));
        let cb = match r.bytes(512) {
            Ok(b) => b,
            Err(e) => return Err(e),
        };
        copy_bytes(self.cgram.as_mut_slice(), cb);
        assert(cb@ =~= s.subrange(65536, 66048));
        let ob = match r.bytes(544) {
            Ok(b) => b,
            Err(e) => return Err(e),
        };
        copy_bytes(self.oam.as_mut_slice(), ob);
        assert(ob@ =~= s.subrange(66048, 66592));
        assert(r.rest() =~= s.skip(66592));
        let widths: [usize; 8] = [2, 2, 4, 1, 1, 1, 1, 1];
        assert(widths@.map_values(|w: usize| w as nat) =~= ppu_tail_widths());
        proof {
            lemma_fitting_fields(s.len() - 66592, ppu_tail_widths(), 0);
        }
        let (v, res) = r.read_prefix(widths.as_slice());
        let n = v.len();
        if n > 0 {
            self.scanline = v[0] as u16;
        }
        if n > 1 {
            self.h_counter = v[1] as u16;
        }
        if n > 2 {
            self.frame = v[2] as u32;
        }
        if n > 3 {
            self.mode = if v[3] == 1 { PpuMode::Pal } else { PpuMode::Ntsc };
        }
        if n > 4 {
            self.frame_ready = v[4] != 0;
        }
        if n > 5 {
            self.frame_ready_latched = v[5] != 0;
        }
        if n > 6 {
            self.field = v[6] != 0;
        }
        if n > 7 {
            self.overscan = v[7] != 0;
        }
        res
    }
}

impl Default for Ppu {
    fn default() -> (p: Self)
        ensures
            fresh_ppu(p@, PpuMode::Ntsc),
            p.wf(),
    {
        Self::new()
    }
}

} // verus!
