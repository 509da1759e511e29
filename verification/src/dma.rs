//! DMA/HDMA controller register storage: 8 channels of $43x0-$43xF
//! configuration bytes plus the controller's status flags. Transfers
//! themselves are executed by the system bus, which owns both ends.
use vstd::prelude::*;
use crate::error::EmulationError;
use crate::state::{
    decode_fields, field_offset, fitting_fields, lemma_fitting_fields, encode_fields, field_pairs, fields_in_range, put_fields, total_width, truncated, values_of,
    widths_of, StateReader,
};

verus! {

/// Number of DMA channels.
pub const DMA_CHANNELS: usize = 8;

/// One DMA channel's registers ($43x0-$43xF).
#[derive(Debug, Clone, Copy)]
pub struct DmaChannel {
    /// DMAPx: bits 0-2 transfer mode, bit 3 direction, bit 4 fixed
    /// address, bit 6 HDMA indirect addressing.
    pub dmape: u8,
    /// BBADx: B-bus (destination) address.
    pub bbad: u8,
    /// A1TxL/A1TxH: A-bus (source) address.
    pub a1t: u16,
    /// A1Bx: A-bus bank.
    pub a1b: u8,
    /// DASxL/DASxH: transfer size, or the HDMA indirect address.
    pub das: u16,
    /// DASBx: indirect HDMA bank.
    pub dasb: u8,
    /// A2AxL/A2AxH: the HDMA table's current read address.
    pub a2a: u16,
    /// $43xB: unused, independent storage.
    pub unused_b: u8,
    /// $43xC: unused, independent storage.
    pub unused_c: u8,
    /// NLTRx ($43xA): HDMA line counter / repeat byte.
    pub hdma_line_counter: u8,
    /// Whether the HDMA table reached its end marker this frame.
    pub hdma_terminated: bool,
    /// Whether this channel transfers on the current scanline.
    pub hdma_do_transfer: bool,
    /// $43xD: unused, independent storage.
    pub unused_d: u8,
    /// $43xE: unused, independent storage.
    pub unused_e: u8,
    /// $43xF: unused, independent storage.
    pub unused_f: u8,
    /// Transfer completed flag.
    pub done: bool,
}

/// A channel with every register zero and every flag clear.
pub open spec fn channel_zero() -> DmaChannel {
    DmaChannel {
        dmape: 0,
        bbad: 0,
        a1t: 0,
        a1b: 0,
        das: 0,
        dasb: 0,
        a2a: 0,
        unused_b: 0,
        unused_c: 0,
        hdma_line_counter: 0,
        hdma_terminated: false,
        hdma_do_transfer: false,
        unused_d: 0,
        unused_e: 0,
        unused_f: 0,
        done: false,
    }
}

/// What reading register `reg` (0-15) of a channel returns.
pub open spec fn channel_read_spec(ch: DmaChannel, reg: u8) -> u8 {
    if reg == 0x0 { ch.dmape }
    else if reg == 0x1 { ch.bbad }
    else if reg == 0x2 { (ch.a1t & 0xFF) as u8 }
    else if reg == 0x3 { ((ch.a1t >> 8) & 0xFF) as u8 }
    else if reg == 0x4 { ch.a1b }
    else if reg == 0x5 { (ch.das & 0xFF) as u8 }
    else if reg == 0x6 { ((ch.das >> 8) & 0xFF) as u8 }
    else if reg == 0x7 { ch.dasb }
    else if reg == 0x8 { (ch.a2a & 0xFF) as u8 }
    else if reg == 0x9 { ((ch.a2a >> 8) & 0xFF) as u8 }
    else if reg == 0xA { ch.hdma_line_counter }
    else if reg == 0xB { ch.unused_b }
    else if reg == 0xC { ch.unused_c }
    else if reg == 0xD { ch.unused_d }
    else if reg == 0xE { ch.unused_e }
    else if reg == 0xF { ch.unused_f }
    else { 0 }
}

/// A channel after writing `value` to its register `reg` (0-15).
pub open spec fn channel_write_spec(ch: DmaChannel, reg: u8, value: u8) -> DmaChannel {
    if reg == 0x0 { DmaChannel { dmape: value, ..ch } }
    else if reg == 0x1 { DmaChannel { bbad: value, ..ch } }
    else if reg == 0x2 { DmaChannel { a1t: ((ch.a1t & 0xFF00) | value as u16) as u16, ..ch } }
    else if reg == 0x3 { DmaChannel { a1t: ((ch.a1t & 0x00FF) | ((value as u16) << 8)) as u16, ..ch } }
    else if reg == 0x4 { DmaChannel { a1b: value, ..ch } }
    else if reg == 0x5 { DmaChannel { das: ((ch.das & 0xFF00) | value as u16) as u16, ..ch } }
    else if reg == 0x6 { DmaChannel { das: ((ch.das & 0x00FF) | ((value as u16) << 8)) as u16, ..ch } }
    else if reg == 0x7 { DmaChannel { dasb: value, ..ch } }
    else if reg == 0x8 { DmaChannel { a2a: ((ch.a2a & 0xFF00) | value as u16) as u16, ..ch } }
    else if reg == 0x9 { DmaChannel { a2a: ((ch.a2a & 0x00FF) | ((value as u16) << 8)) as u16, ..ch } }
    else if reg == 0xA { DmaChannel { hdma_line_counter: value, ..ch } }
    else if reg == 0xB { DmaChannel { unused_b: value, ..ch } }
    else if reg == 0xC { DmaChannel { unused_c: value, ..ch } }
    else if reg == 0xD { DmaChannel { unused_d: value, ..ch } }
    else if reg == 0xE { DmaChannel { unused_e: value, ..ch } }
    else if reg == 0xF { DmaChannel { unused_f: value, ..ch } }
    else { ch }
}

impl DmaChannel {
    /// A channel with every register zero.
    pub fn new() -> (c: Self)
        ensures
            c == channel_zero(),
    {
        Self {
            dmape: 0,
            bbad: 0,
            a1t: 0,
            a1b: 0,
            das: 0,
            dasb: 0,
            a2a: 0,
            unused_b: 0,
            unused_c: 0,
            hdma_line_counter: 0,
            hdma_terminated: false,
            hdma_do_transfer: false,
            unused_d: 0,
            unused_e: 0,
            unused_f: 0,
            done: false,
        }
    }

    /// DMAPx bit 6: HDMA indirect addressing.
    pub fn hdma_indirect_mode(&self) -> (r: bool)
        ensures
            r == (self.dmape & 0x40 != 0),
    {
        (self.dmape & 0x40) != 0
    }

    /// DMAPx bits 0-2: the transfer unit/mode.
    pub fn transfer_mode(&self) -> (r: u8)
        ensures
            r == self.dmape & 0x07,
    {
        self.dmape & 0x07
    }

    /// The 24-bit table/source start address: bank `a1b`, offset `a1t`.
    pub fn source_address(&self) -> (r: u32)
        ensures
            r == self.a1b as int * 0x10000 + self.a1t,
    {
        let b = self.a1b as u32;
        let t = self.a1t as u32;
        assert((b << 16) | t == b * 0x10000 + t) by (bit_vector)
            requires b < 256, t < 0x10000;
        (b << 16) | t
    }

    /// The 24-bit current HDMA table address: bank `a1b`, offset `a2a`.
    pub fn table_addr(&self) -> (r: u32)
        ensures
            r == self.a1b as int * 0x10000 + self.a2a,
    {
        let b = self.a1b as u32;
        let t = self.a2a as u32;
        assert((b << 16) | t == b * 0x10000 + t) by (bit_vector)
            requires b < 256, t < 0x10000;
        (b << 16) | t
    }
}

/// The DMA controller's state as plain values.
pub ghost struct DmaView {
    pub channels: Seq<DmaChannel>,
    pub dma_active: bool,
    pub hdma_pending: bool,
    pub enable_mask: u8,
}

/// The power-on controller state.
pub open spec fn dma_default() -> DmaView {
    DmaView {
        channels: Seq::new(8, |i: int| channel_zero()),
        dma_active: false,
        hdma_pending: false,
        enable_mask: 0,
    }
}

/// What reading DMA register `addr` ($43xy as xy) returns: channel
/// `addr >> 4`, register `addr & 0xF`; 0 outside channels 0-7.
pub open spec fn dma_read_spec(v: DmaView, addr: u8) -> u8 {
    if addr >> 4 >= 8 {
        0
    } else {
        channel_read_spec(v.channels[(addr >> 4) as int], addr & 0x0F)
    }
}

/// The controller after writing `value` to DMA register `addr`.
pub open spec fn dma_write_spec(v: DmaView, addr: u8, value: u8) -> DmaView {
    if addr >> 4 >= 8 {
        v
    } else {
        DmaView {
            channels: v.channels.update(
                (addr >> 4) as int,
                channel_write_spec(v.channels[(addr >> 4) as int], addr & 0x0F, value),
            ),
            ..v
        }
    }
}

/// Byte-merge facts for the 16-bit channel registers.
proof fn lemma_byte_merge(a: u16, x: u8)
    by (bit_vector)
    ensures
        (((a & 0xFF00) | x as u16) as u16 & 0xFF) as u8 == x,
        (((((a & 0xFF00) | x as u16) as u16) >> 8) & 0xFF) as u8 == ((a >> 8) & 0xFF) as u8,
        (((a & 0x00FF) | ((x as u16) << 8)) as u16 & 0xFF) as u8 == (a & 0xFF) as u8,
        (((((a & 0x00FF) | ((x as u16) << 8)) as u16) >> 8) & 0xFF) as u8 == x,
{
}

/// Channel register addressing and the byte halves of a 16-bit field.
proof fn lemma_word_register_bits(ch: u8, reg: u8, w: u16, x: u8)
    by (bit_vector)
    requires
        ch < 8,
        reg < 16,
    ensures
        ((ch * 16 + reg) as u8) >> 4 == ch,
        ((ch * 16 + reg) as u8) & 0x0F == reg,
        ((w & 0xFF00) | x as u16) as u16 % 256 == x,
        ((w & 0xFF00) | x as u16) as u16 / 256 == w / 256,
        ((w & 0x00FF) | ((x as u16) << 8)) as u16 / 256 == x,
        ((w & 0x00FF) | ((x as u16) << 8)) as u16 % 256 == w % 256,
        (w & 0xFF) as u8 == w % 256,
        ((w >> 8) & 0xFF) as u8 == w / 256,
{
}

/// The 16-bit channel registers are little-endian byte pairs, low byte
/// first: A1T at $43x2/$43x3, DAS at $43x5/$43x6 and A2A at $43x8/$43x9.
/// Writing the low register replaces the field's low byte and keeps its high
/// byte, writing the high register the reverse, and the two registers read
/// back the field's low and high bytes.
pub proof fn lemma_word_registers(v: DmaView, ch: u8, value: u8)
    requires
        v.channels.len() == 8,
        ch < 8,
    ensures
        ({
            let c = v.channels[ch as int];
            let w2 = dma_write_spec(v, (ch * 16 + 2) as u8, value).channels[ch as int];
            let w3 = dma_write_spec(v, (ch * 16 + 3) as u8, value).channels[ch as int];
            let w5 = dma_write_spec(v, (ch * 16 + 5) as u8, value).channels[ch as int];
            let w6 = dma_write_spec(v, (ch * 16 + 6) as u8, value).channels[ch as int];
            let w8 = dma_write_spec(v, (ch * 16 + 8) as u8, value).channels[ch as int];
            let w9 = dma_write_spec(v, (ch * 16 + 9) as u8, value).channels[ch as int];
            &&& w2.a1t % 256 == value && w2.a1t / 256 == c.a1t / 256
            &&& w3.a1t / 256 == value && w3.a1t % 256 == c.a1t % 256
            &&& w5.das % 256 == value && w5.das / 256 == c.das / 256
            &&& w6.das / 256 == value && w6.das % 256 == c.das % 256
            &&& w8.a2a % 256 == value && w8.a2a / 256 == c.a2a / 256
            &&& w9.a2a / 256 == value && w9.a2a % 256 == c.a2a % 256
            &&& dma_read_spec(v, (ch * 16 + 2) as u8) == c.a1t % 256
            &&& dma_read_spec(v, (ch * 16 + 3) as u8) == c.a1t / 256
            &&& dma_read_spec(v, (ch * 16 + 5) as u8) == c.das % 256
            &&& dma_read_spec(v, (ch * 16 + 6) as u8) == c.das / 256
            &&& dma_read_spec(v, (ch * 16 + 8) as u8) == c.a2a % 256
            &&& dma_read_spec(v, (ch * 16 + 9) as u8) == c.a2a / 256
        }),
{
    let c = v.channels[ch as int];
    lemma_word_register_bits(ch, 2, c.a1t, value);
    lemma_word_register_bits(ch, 3, c.a1t, value);
    lemma_word_register_bits(ch, 5, c.das, value);
    lemma_word_register_bits(ch, 6, c.das, value);
    lemma_word_register_bits(ch, 8, c.a2a, value);
    lemma_word_register_bits(ch, 9, c.a2a, value);
}

/// The byte registers of a channel: $43x0 is the DMA parameters (DMAPx),
/// $43x1 the B-bus address, $43x4 the A-bus bank, $43x7 the indirect HDMA
/// bank and $43xA the HDMA line counter; a write there sets that field and
/// a read returns it.
pub proof fn lemma_byte_registers(v: DmaView, ch: u8, value: u8)
    requires
        v.channels.len() == 8,
        ch < 8,
    ensures
        ({
            let c = v.channels[ch as int];
            &&& dma_write_spec(v, (ch * 16) as u8, value).channels[ch as int].dmape == value
            &&& dma_write_spec(v, (ch * 16 + 1) as u8, value).channels[ch as int].bbad == value
            &&& dma_write_spec(v, (ch * 16 + 4) as u8, value).channels[ch as int].a1b == value
            &&& dma_write_spec(v, (ch * 16 + 7) as u8, value).channels[ch as int].dasb == value
            &&& dma_write_spec(v, (ch * 16 + 10) as u8, value).channels[ch as int].hdma_line_counter == value
            &&& dma_read_spec(v, (ch * 16) as u8) == c.dmape
            &&& dma_read_spec(v, (ch * 16 + 1) as u8) == c.bbad
            &&& dma_read_spec(v, (ch * 16 + 4) as u8) == c.a1b
            &&& dma_read_spec(v, (ch * 16 + 7) as u8) == c.dasb
            &&& dma_read_spec(v, (ch * 16 + 10) as u8) == c.hdma_line_counter
        }),
{
    lemma_word_register_bits(ch, 0, 0, value);
    lemma_word_register_bits(ch, 1, 0, value);
    lemma_word_register_bits(ch, 4, 0, value);
    lemma_word_register_bits(ch, 7, 0, value);
    lemma_word_register_bits(ch, 10, 0, value);
}

/// A register address is its channel and register number.
proof fn lemma_register_split(a: u8, b: u8)
    by (bit_vector)
    ensures
        (a >> 4 == b >> 4 && a & 0x0F == b & 0x0F) ==> a == b,
        a & 0x0F <= 0x0F,
{
}

/// Reading a DMA register gives back the last value written to it, and a
/// write leaves what every other register reads unchanged.
pub proof fn lemma_dma_register_roundtrip(v: DmaView, addr: u8, value: u8, other: u8)
    requires
        v.channels.len() == 8,
    ensures
        addr >> 4 < 8 ==> dma_read_spec(dma_write_spec(v, addr, value), addr) == value,
        other != addr ==> dma_read_spec(dma_write_spec(v, addr, value), other) == dma_read_spec(v, other),
{
    lemma_register_split(addr, other);
    lemma_register_split(other, addr);
    if addr >> 4 < 8 {
        let ch = v.channels[(addr >> 4) as int];
        lemma_byte_merge(ch.a1t, value);
        lemma_byte_merge(ch.das, value);
        lemma_byte_merge(ch.a2a, value);
    }
}

/// DMA controller: register storage for the 8 channels plus status flags.
#[derive(Debug)]
pub struct Dma {
    /// The eight channels.
    pub channels: [DmaChannel; 8],
    /// Whether DMA is currently active (CPU halted).
    pub dma_active: bool,
    hdma_pending: bool,
    enable_mask: u8,
}

impl View for Dma {
    type V = DmaView;

    closed spec fn view(&self) -> DmaView {
        DmaView {
            channels: self.channels@,
            dma_active: self.dma_active,
            hdma_pending: self.hdma_pending,
            enable_mask: self.enable_mask,
        }
    }
}

impl Dma {
    /// Every controller has its eight channels.
    pub proof fn lemma_channels_len(&self)
        ensures
            self@.channels.len() == 8,
    {
    }

    /// A controller with every channel zeroed and nothing pending.
    pub fn new() -> (d: Self)
        ensures
            d@ == dma_default(),
    {
        let d = Self {
            channels: [
                DmaChannel::new(),
                DmaChannel::new(),
                DmaChannel::new(),
                DmaChannel::new(),
                DmaChannel::new(),
                DmaChannel::new(),
                DmaChannel::new(),
                DmaChannel::new(),
            ],
            dma_active: false,
            hdma_pending: false,
            enable_mask: 0,
        };
        assert(d@.channels =~= dma_default().channels);
        d
    }

    /// Resets every channel and flag to the power-on state.
    pub fn reset(&mut self)
        ensures
            final(self)@ == dma_default(),
    {
        let mut i: usize = 0;
        while i < DMA_CHANNELS
            invariant
                i <= DMA_CHANNELS,
                self.channels@.len() == 8,
                forall|j: int| 0 <= j < i ==> self.channels@[j] == channel_zero(),
            decreases DMA_CHANNELS - i,
        {
            self.channels[i] = DmaChannel::new();
            i = i + 1;
        }
        self.dma_active = false;
        self.hdma_pending = false;
        self.enable_mask = 0;
        assert(self@.channels =~= dma_default().channels);
    }

    /// Reads DMA register `addr` ($43x0-$43xF given as its low byte).
    pub fn read_register(&self, addr: u8) -> (r: u8)
        ensures
            r == dma_read_spec(self@, addr),
    {
        let channel = (addr >> 4) as usize;
        let reg = addr & 0x0F;
        if channel >= DMA_CHANNELS {
            return 0;
        }
        let ch = &self.channels[channel];
        match reg {
            0x0 => ch.dmape,
            0x1 => ch.bbad,
            0x2 => (ch.a1t & 0xFF) as u8,
            0x3 => ((ch.a1t >> 8) & 0xFF) as u8,
            0x4 => ch.a1b,
            0x5 => (ch.das & 0xFF) as u8,
            0x6 => ((ch.das >> 8) & 0xFF) as u8,
            0x7 => ch.dasb,
            0x8 => (ch.a2a & 0xFF) as u8,
            0x9 => ((ch.a2a >> 8) & 0xFF) as u8,
            0xA => ch.hdma_line_counter,
            0xB => ch.unused_b,
            0xC => ch.unused_c,
            0xD => ch.unused_d,
            0xE => ch.unused_e,
            0xF => ch.unused_f,
            _ => 0,
        }
    }

    /// Writes DMA register `addr` ($43x0-$43xF given as its low byte).
    pub fn write_register(&mut self, addr: u8, value: u8)
        ensures
            final(self)@ == dma_write_spec(old(self)@, addr, value),
    {
        let channel = (addr >> 4) as usize;
        let reg = addr & 0x0F;
        if channel >= DMA_CHANNELS {
            return;
        }
        match reg {
            0x0 => self.channels[channel].dmape = value,
            0x1 => self.channels[channel].bbad = value,
            0x2 => self.channels[channel].a1t = (self.channels[channel].a1t & 0xFF00) | (value as u16),
            0x3 => self.channels[channel].a1t = (self.channels[channel].a1t & 0x00FF) | ((value as u16) << 8),
            0x4 => self.channels[channel].a1b = value,
            0x5 => self.channels[channel].das = (self.channels[channel].das & 0xFF00) | (value as u16),
            0x6 => self.channels[channel].das = (self.channels[channel].das & 0x00FF) | ((value as u16) << 8),
            0x7 => self.channels[channel].dasb = value,
            0x8 => self.channels[channel].a2a = (self.channels[channel].a2a & 0xFF00) | (value as u16),
            0x9 => self.channels[channel].a2a = (self.channels[channel].a2a & 0x00FF) | ((value as u16) << 8),
            0xA => self.channels[channel].hdma_line_counter = value,
            0xB => self.channels[channel].unused_b = value,
            0xC => self.channels[channel].unused_c = value,
            0xD => self.channels[channel].unused_d = value,
            0xE => self.channels[channel].unused_e = value,
            0xF => self.channels[channel].unused_f = value,
            _ => {},
        }
        assert(self@.channels =~= dma_write_spec(old(self)@, addr, value).channels);
    }

    /// Whether a DMA transfer is active.
    pub fn is_active(&self) -> (r: bool)
        ensures
            r == self@.dma_active,
    {
        self.dma_active
    }

    /// Whether any channel is armed in the HDMAEN mask.
    pub fn is_enabled(&self) -> (r: bool)
        ensures
            r == (self@.enable_mask != 0),
    {
        self.enable_mask != 0
    }

    /// Mirrors the $420C (HDMAEN) channel-enable mask.
    pub fn set_enable_mask(&mut self, mask: u8)
        ensures
            final(self)@ == (DmaView { enable_mask: mask, ..old(self)@ }),
    {
        self.enable_mask = mask;
    }

    /// Channel `index`, if it exists.
    pub fn channel(&self, index: usize) -> (r: Option<&DmaChannel>)
        ensures
            index < 8 ==> r == Some(&self@.channels[index as int]),
            index >= 8 ==> r is None,
    {
        if index < DMA_CHANNELS {
            Some(&self.channels[index])
        } else {
            None
        }
    }

    /// Mutable access to channel `index`, if it exists.
    pub fn channel_mut(&mut self, index: usize) -> (r: Option<&mut DmaChannel>)
        ensures
            index < 8 ==> {
                &&& r is Some
                &&& *r->Some_0 == old(self)@.channels[index as int]
                &&& final(self)@ == (DmaView {
                    channels: old(self)@.channels.update(index as int, *final(r->Some_0)),
                    ..old(self)@
                })
            },
            index >= 8 ==> r is None && final(self)@ == old(self)@,
    {
        if index < DMA_CHANNELS {
            Some(&mut self.channels[index])
        } else {
            None
        }
    }

    /// Whether HDMA is pending.
    pub fn hdma_pending(&self) -> (r: bool)
        ensures
            r == self@.hdma_pending,
    {
        self.hdma_pending
    }

    /// Sets the HDMA pending flag.
    pub fn set_hdma_pending(&mut self, pending: bool)
        ensures
            final(self)@ == (DmaView { hdma_pending: pending, ..old(self)@ }),
    {
        self.hdma_pending = pending;
    }

    /// Whether any channel's done flag is set.
    pub fn check_done(&self) -> (r: bool)
        ensures
            r == exists|i: int| 0 <= i < 8 && #[trigger] self@.channels[i].done,
    {
        let mut i: usize = 0;
        while i < DMA_CHANNELS
            invariant
                i <= DMA_CHANNELS,
                self.channels@.len() == 8,
                forall|j: int| 0 <= j < i ==> !#[trigger] self.channels@[j].done,
            decreases DMA_CHANNELS - i,
        {
            if self.channels[i].done {
                assert(self@.channels[i as int].done);
                return true;
            }
            i = i + 1;
        }
        false
    }

    /// Clears channel `channel`'s done flag (no effect past channel 7).
    pub fn clear_done(&mut self, channel: usize)
        ensures
            channel < 8 ==> final(self)@ == (DmaView {
                channels: old(self)@.channels.update(
                    channel as int,
                    DmaChannel { done: false, ..old(self)@.channels[channel as int] },
                ),
                ..old(self)@
            }),
            channel >= 8 ==> final(self)@ == old(self)@,
    {
        if channel < DMA_CHANNELS {
            self.channels[channel].done = false;
            assert(self@.channels =~= old(self)@.channels.update(
                channel as int,
                DmaChannel { done: false, ..old(self)@.channels[channel as int] },
            ));
        }
    }

    /// Clears every channel's done flag.
    pub fn clear_all_done(&mut self)
        ensures
            final(self)@.channels.len() == 8,
            forall|i: int| 0 <= i < 8 ==> final(self)@.channels[i] == (DmaChannel { done: false, ..old(self)@.channels[i] }),
            final(self)@.dma_active == old(self)@.dma_active,
            final(self)@.hdma_pending == old(self)@.hdma_pending,
            final(self)@.enable_mask == old(self)@.enable_mask,
    {
        let mut i: usize = 0;
        while i < DMA_CHANNELS
            invariant
                i <= DMA_CHANNELS,
                self.channels@.len() == 8,
                forall|j: int| 0 <= j < i ==> self.channels@[j] == (DmaChannel { done: false, ..old(self).channels@[j] }),
                forall|j: int| i <= j < 8 ==> self.channels@[j] == old(self).channels@[j],
                self.dma_active == old(self).dma_active,
                self.hdma_pending == old(self).hdma_pending,
                self.enable_mask == old(self).enable_mask,
            decreases DMA_CHANNELS - i,
        {
            self.channels[i].done = false;
            i = i + 1;
        }
    }
}

// ==================== Save states ====================

/// The fields `save_state` writes, as (value, width) pairs in order.
pub open spec fn channel_fields(x: DmaChannel) -> Seq<(int, nat)> {
    seq![
        (x.dmape as int, 1nat),
        (x.bbad as int, 1nat),
        (x.a1t as int, 2nat),
        (x.a1b as int, 1nat),
        (x.das as int, 2nat),
        (x.dasb as int, 1nat),
        (x.a2a as int, 2nat),
        (x.unused_b as int, 1nat),
        (x.unused_c as int, 1nat),
        (x.hdma_line_counter as int, 1nat),
        (if x.hdma_terminated { 1int } else { 0int }, 1nat),
        (if x.hdma_do_transfer { 1int } else { 0int }, 1nat),
        (x.unused_d as int, 1nat),
        (x.unused_e as int, 1nat),
        (x.unused_f as int, 1nat),
        (if x.done { 1int } else { 0int }, 1nat),
    ]
}

/// The widths of the fields `save_state` writes.
pub open spec fn channel_widths() -> Seq<nat> {
    seq![1nat, 1nat, 2nat, 1nat, 2nat, 1nat, 2nat, 1nat, 1nat, 1nat, 1nat, 1nat, 1nat, 1nat, 1nat, 1nat]
}

/// The save-state encoding.
pub open spec fn encode_channel(x: DmaChannel) -> Seq<u8> {
    encode_fields(channel_fields(x))
}

/// `x` with its first `k` save-state fields replaced by those of `ds`:
/// what loading leaves when the buffer runs out after `k` fields.
pub open spec fn channel_prefix(x: DmaChannel, ds: Seq<int>, k: nat) -> DmaChannel {
    DmaChannel {
        dmape: if k > 0 { (ds[0] as u8) } else { x.dmape },
        bbad: if k > 1 { (ds[1] as u8) } else { x.bbad },
        a1t: if k > 2 { (ds[2] as u16) } else { x.a1t },
        a1b: if k > 3 { (ds[3] as u8) } else { x.a1b },
        das: if k > 4 { (ds[4] as u16) } else { x.das },
        dasb: if k > 5 { (ds[5] as u8) } else { x.dasb },
        a2a: if k > 6 { (ds[6] as u16) } else { x.a2a },
        unused_b: if k > 7 { (ds[7] as u8) } else { x.unused_b },
        unused_c: if k > 8 { (ds[8] as u8) } else { x.unused_c },
        hdma_line_counter: if k > 9 { (ds[9] as u8) } else { x.hdma_line_counter },
        hdma_terminated: if k > 10 { (ds[10] != 0) } else { x.hdma_terminated },
        hdma_do_transfer: if k > 11 { (ds[11] != 0) } else { x.hdma_do_transfer },
        unused_d: if k > 12 { (ds[12] as u8) } else { x.unused_d },
        unused_e: if k > 13 { (ds[13] as u8) } else { x.unused_e },
        unused_f: if k > 14 { (ds[14] as u8) } else { x.unused_f },
        done: if k > 15 { (ds[15] != 0) } else { x.done },
    }
}

/// The value whose save-state fields are `ds` (flags read as nonzero).
pub open spec fn channel_from_values(ds: Seq<int>) -> DmaChannel {
    DmaChannel { dmape: (ds[0] as u8), bbad: (ds[1] as u8), a1t: (ds[2] as u16), a1b: (ds[3] as u8), das: (ds[4] as u16), dasb: (ds[5] as u8), a2a: (ds[6] as u16), unused_b: (ds[7] as u8), unused_c: (ds[8] as u8), hdma_line_counter: (ds[9] as u8), hdma_terminated: (ds[10] != 0), hdma_do_transfer: (ds[11] != 0), unused_d: (ds[12] as u8), unused_e: (ds[13] as u8), unused_f: (ds[14] as u8), done: (ds[15] != 0) }
}

impl DmaChannel {
    fn state_fields(&self) -> (v: Vec<(u64, usize)>)
        ensures
            field_pairs(v@) == channel_fields(*self),
            forall|k: int| 0 <= k < v@.len() ==> #[trigger] v@[k].1 <= 8,
    {
        let v = vec![
            (self.dmape as u64, 1usize),
            (self.bbad as u64, 1usize),
            (self.a1t as u64, 2usize),
            (self.a1b as u64, 1usize),
            (self.das as u64, 2usize),
            (self.dasb as u64, 1usize),
            (self.a2a as u64, 2usize),
            (self.unused_b as u64, 1usize),
            (self.unused_c as u64, 1usize),
            (self.hdma_line_counter as u64, 1usize),
            (if self.hdma_terminated { 1u64 } else { 0u64 }, 1usize),
            (if self.hdma_do_transfer { 1u64 } else { 0u64 }, 1usize),
            (self.unused_d as u64, 1usize),
            (self.unused_e as u64, 1usize),
            (self.unused_f as u64, 1usize),
            (if self.done { 1u64 } else { 0u64 }, 1usize),
        ];
        assert(field_pairs(v@) =~= channel_fields(*self));
        v
    }

    /// Appends the channel's registers and HDMA state to `out`.
    pub fn save_state(&self, out: &mut Vec<u8>)
        ensures
            final(out)@ == old(out)@ + encode_channel(*self),
    {
        let v = self.state_fields();
        put_fields(out, &v);
    }

    /// Restores state produced by `save_state`, field by field in the
    /// order it was written; a truncated buffer stops the load at the first
    /// field it no longer holds in full, keeping the fields read before it.
    pub fn load_state(&mut self, r: &mut StateReader) -> (res: Result<(), EmulationError>)
        requires
            old(r).wf(),
        ensures
            final(r).wf(),
            ({
                let k = fitting_fields(old(r).rest().len() as int, channel_widths(), 0);
                &&& *final(self) == channel_prefix(*old(self), decode_fields(old(r).rest(), channel_widths()), k)
                &&& old(r).advanced(&*final(r), field_offset(channel_widths(), k as int))
            }),
            old(r).rest().len() >= total_width(channel_widths()) ==> old(r).advanced(&*final(r), total_width(channel_widths()) as int),
            old(r).rest().len() >= total_width(channel_widths()) ==> res is Ok && *final(self) == channel_from_values(
                decode_fields(old(r).rest(), channel_widths()),
            ),
            old(r).rest().len() < total_width(channel_widths()) ==> res == Err::<(), EmulationError>(truncated()),
    {
        let widths: [usize; 16] = [1, 1, 2, 1, 2, 1, 2, 1, 1, 1, 1, 1, 1, 1, 1, 1];
        assert(widths@.map_values(|w: usize| w as nat) =~= channel_widths());
        let (v, res) = r.read_prefix(widths.as_slice());
        let ghost ds = decode_fields(old(r).rest(), channel_widths());
        let ghost k = fitting_fields(old(r).rest().len() as int, channel_widths(), 0);
        proof {
            lemma_fitting_fields(old(r).rest().len() as int, channel_widths(), 0);
            assert(channel_widths().subrange(0, channel_widths().len() as int) =~= channel_widths());
        }
        let n = v.len();
        *self = DmaChannel {
            dmape: if n > 0 { (v[0] as u8) } else { self.dmape },
            bbad: if n > 1 { (v[1] as u8) } else { self.bbad },
            a1t: if n > 2 { (v[2] as u16) } else { self.a1t },
            a1b: if n > 3 { (v[3] as u8) } else { self.a1b },
            das: if n > 4 { (v[4] as u16) } else { self.das },
            dasb: if n > 5 { (v[5] as u8) } else { self.dasb },
            a2a: if n > 6 { (v[6] as u16) } else { self.a2a },
            unused_b: if n > 7 { (v[7] as u8) } else { self.unused_b },
            unused_c: if n > 8 { (v[8] as u8) } else { self.unused_c },
            hdma_line_counter: if n > 9 { (v[9] as u8) } else { self.hdma_line_counter },
            hdma_terminated: if n > 10 { (v[10] != 0) } else { self.hdma_terminated },
            hdma_do_transfer: if n > 11 { (v[11] != 0) } else { self.hdma_do_transfer },
            unused_d: if n > 12 { (v[12] as u8) } else { self.unused_d },
            unused_e: if n > 13 { (v[13] as u8) } else { self.unused_e },
            unused_f: if n > 14 { (v[14] as u8) } else { self.unused_f },
            done: if n > 15 { (v[15] != 0) } else { self.done },
        };
        res
    }
}

/// Loading the encoding of `x` (followed by anything) gives back `x`.
pub proof fn lemma_channel_roundtrip(x: DmaChannel, t: Seq<u8>)
    ensures
        channel_from_values(decode_fields(encode_channel(x) + t, channel_widths())) == x,
{
    let fx = channel_fields(x);
    assert(widths_of(fx) =~= channel_widths());
    assert(fields_in_range(fx)) by {
        crate::state::lemma_byte_range_8(1);
        crate::state::lemma_byte_range_8(2);
        crate::state::lemma_byte_range_8(4);
        crate::state::lemma_byte_range_8(8);
    }
    crate::state::lemma_fields_roundtrip(fx, t);
    let ds = decode_fields(encode_channel(x) + t, channel_widths());
    assert(ds == values_of(fx));
    let y = channel_from_values(ds);
    assert(ds[0] == values_of(fx)[0]);
    assert(ds[1] == values_of(fx)[1]);
    assert(ds[2] == values_of(fx)[2]);
    assert(ds[3] == values_of(fx)[3]);
    assert(ds[4] == values_of(fx)[4]);
    assert(ds[5] == values_of(fx)[5]);
    assert(ds[6] == values_of(fx)[6]);
    assert(ds[7] == values_of(fx)[7]);
    assert(ds[8] == values_of(fx)[8]);
    assert(ds[9] == values_of(fx)[9]);
    assert(ds[10] == values_of(fx)[10]);
    assert(ds[11] == values_of(fx)[11]);
    assert(ds[12] == values_of(fx)[12]);
    assert(ds[13] == values_of(fx)[13]);
    assert(ds[14] == values_of(fx)[14]);
    assert(ds[15] == values_of(fx)[15]);

}

/// Bytes in one channel's saved state.
pub open spec fn channel_width() -> nat {
    total_width(channel_widths())
}

/// The saved state of the first `n` channels, in channel order.
pub open spec fn encode_channels(chs: Seq<DmaChannel>, n: nat) -> Seq<u8>
    decreases n,
{
    if n == 0 {
        Seq::empty()
    } else {
        encode_channels(chs, (n - 1) as nat) + encode_channel(chs[n - 1])
    }
}

/// The controller-wide fields saved after the channels.
pub open spec fn dma_tail_fields(x: DmaView) -> Seq<(int, nat)> {
    seq![
        (if x.dma_active { 1int } else { 0int }, 1nat),
        (if x.hdma_pending { 1int } else { 0int }, 1nat),
        (x.enable_mask as int, 1nat),
    ]
}

pub open spec fn dma_tail_widths() -> Seq<nat> {
    seq![1nat, 1nat, 1nat]
}

/// The save-state encoding of the controller.
pub open spec fn encode_dma(x: DmaView) -> Seq<u8> {
    encode_channels(x.channels, 8) + encode_fields(dma_tail_fields(x))
}

/// Bytes in the controller's saved state.
pub open spec fn dma_width() -> nat {
    8 * channel_width() + 3
}

/// The controller state that the bytes `s` describe.
pub open spec fn dma_from_bytes(s: Seq<u8>) -> DmaView {
    let w = channel_width() as int;
    let tail = decode_fields(s.skip(8 * w), dma_tail_widths());
    DmaView {
        channels: Seq::new(8, |i: int| channel_from_values(decode_fields(s.skip(i * w), channel_widths()))),
        dma_active: tail[0] != 0,
        hdma_pending: tail[1] != 0,
        enable_mask: tail[2] as u8,
    }
}

/// What loading leaves of the controller `x` from the bytes `s`: the fields
/// are read in order, and the load stops at the first field that `s` no
/// longer holds in full, keeping the values read before it.
pub open spec fn dma_loaded(x: DmaView, s: Seq<u8>) -> DmaView {
    let w = channel_width() as int;
    let tail = decode_fields(s.skip(8 * w), dma_tail_widths());
    let k = if s.len() >= 8 * w { fitting_fields(s.len() - 8 * w, dma_tail_widths(), 0) } else { 0 };
    DmaView {
        channels: Seq::new(
            8,
            |i: int|
                if s.len() >= i * w {
                    channel_prefix(
                        x.channels[i],
                        decode_fields(s.skip(i * w), channel_widths()),
                        fitting_fields(s.len() - i * w, channel_widths(), 0),
                    )
                } else {
                    x.channels[i]
                },
        ),
        dma_active: if k > 0 { tail[0] != 0 } else { x.dma_active },
        hdma_pending: if k > 1 { tail[1] != 0 } else { x.hdma_pending },
        enable_mask: if k > 2 { tail[2] as u8 } else { x.enable_mask },
    }
}

/// How many bytes loading the controller consumes from a buffer of `len`
/// bytes: up to the end of the last field it holds in full.
pub open spec fn dma_consumed(len: int) -> int {
    let w = channel_width() as int;
    if len >= 8 * w {
        8 * w + field_offset(dma_tail_widths(), fitting_fields(len - 8 * w, dma_tail_widths(), 0) as int)
    } else {
        let i = len / w;
        i * w + field_offset(channel_widths(), fitting_fields(len - i * w, channel_widths(), 0) as int)
    }
}

pub proof fn lemma_encode_channels_len(chs: Seq<DmaChannel>, n: nat)
    ensures
        encode_channels(chs, n).len() == n * channel_width(),
    decreases n,
{
    if n == 0 {
        assert(0 * channel_width() == 0) by (nonlinear_arith);
    } else {
        let m = (n - 1) as nat;
        lemma_encode_channels_len(chs, m);
        crate::state::lemma_encode_len(channel_fields(chs[n - 1]));
        assert(widths_of(channel_fields(chs[n - 1])) =~= channel_widths());
        assert(encode_channel(chs[n - 1]).len() == channel_width());
        assert(encode_channels(chs, n).len() == encode_channels(chs, m).len() + encode_channel(chs[n - 1]).len());
        let w = channel_width();
        assert(n * w == m * w + w) by (nonlinear_arith)
            requires
                m + 1 == n,
        ;
    }
}

/// Channel `i`'s bytes start `i` channel widths into the encoding of the
/// first `n > i` channels.
pub proof fn lemma_encode_channels_at(chs: Seq<DmaChannel>, n: nat, i: nat, t: Seq<u8>)
    requires
        i < n,
    ensures
        (encode_channels(chs, n) + t).skip((i * channel_width()) as int) == encode_channel(chs[i as int])
            + (encode_channels(chs, n) + t).skip(((i + 1) * channel_width()) as int),
    decreases n,
{
    lemma_encode_channels_len(chs, n);
    lemma_encode_channels_len(chs, (n - 1) as nat);
    crate::state::lemma_encode_len(channel_fields(chs[n - 1]));
    assert(widths_of(channel_fields(chs[n - 1])) =~= channel_widths());
    let w = channel_width() as int;
    let prev = encode_channels(chs, (n - 1) as nat);
    let last = encode_channel(chs[n - 1]);
    assert(encode_channels(chs, n) + t =~= prev + (last + t));
    if i == n - 1 {
        assert(i * w == prev.len()) by (nonlinear_arith)
            requires
                prev.len() == (n - 1) * w,
                i == n - 1,
        ;
        assert((i + 1) * w == prev.len() + w) by (nonlinear_arith)
            requires
                prev.len() == (n - 1) * w,
                i == n - 1,
        ;
        assert((prev + (last + t)).skip(i * w) =~= last + t);
        assert((prev + (last + t)).skip((i + 1) * w) =~= t);
        assert(last + t =~= last + (prev + (last + t)).skip((i + 1) * w));
    } else {
        lemma_encode_channels_at(chs, (n - 1) as nat, i, last + t);
        assert((i + 1) * w <= prev.len()) by (nonlinear_arith)
            requires
                prev.len() == (n - 1) * w,
                i + 1 <= n - 1,
        ;
        assert(i * w <= prev.len()) by (nonlinear_arith)
            requires
                prev.len() == (n - 1) * w,
                i + 1 <= n - 1,
        ;
    }
}

/// Loading the encoding of a controller state (followed by anything) gives
/// back that state.
pub proof fn lemma_dma_roundtrip(x: DmaView, t: Seq<u8>)
    requires
        x.channels.len() == 8,
    ensures
        dma_from_bytes(encode_dma(x) + t) == x,
{
    let w = channel_width() as int;
    let s = encode_dma(x) + t;
    let tail_t = encode_fields(dma_tail_fields(x)) + t;
    assert(s =~= encode_channels(x.channels, 8) + tail_t);
    let y = dma_from_bytes(s);
    assert forall|i: int| 0 <= i < 8 implies #[trigger] y.channels[i] == x.channels[i] by {
        lemma_encode_channels_at(x.channels, 8, i as nat, tail_t);
        lemma_channel_roundtrip(x.channels[i], s.skip((i + 1) * w));
    }
    assert(y.channels =~= x.channels);
    lemma_encode_channels_len(x.channels, 8);
    assert(s.skip(8 * w) =~= tail_t);
    let fx = dma_tail_fields(x);
    assert(widths_of(fx) =~= dma_tail_widths());
    assert(fields_in_range(fx)) by {
        crate::state::lemma_byte_range_8(1);
    }
    crate::state::lemma_fields_roundtrip(fx, t);
    let ds = decode_fields(tail_t, dma_tail_widths());
    assert(ds == values_of(fx));
    assert(ds[0] == values_of(fx)[0]);
    assert(ds[1] == values_of(fx)[1]);
    assert(ds[2] == values_of(fx)[2]);
}

impl Dma {
    /// Appends the full controller state to `out`: each channel's registers
    /// and HDMA state in channel order, then the active flag, the
    /// HDMA-pending flag and the enable mask.
    pub fn save_state(&self, out: &mut Vec<u8>)
        ensures
            final(out)@ == old(out)@ + encode_dma(self@),
    {
        let mut i: usize = 0;
        while i < 8
            invariant
                i <= 8,
                out@ == old(out)@ + encode_channels(self@.channels, i as nat),
            decreases 8 - i,
        {
            self.channels[i].save_state(out);
            proof {
                assert(out@ =~= old(out)@ + encode_channels(self@.channels, (i + 1) as nat));
            }
            i = i + 1;
        }
        let tail = vec![
            (if self.dma_active { 1u64 } else { 0u64 }, 1usize),
            (if self.hdma_pending { 1u64 } else { 0u64 }, 1usize),
            (self.enable_mask as u64, 1usize),
        ];
        assert(field_pairs(tail@) =~= dma_tail_fields(self@));
        put_fields(out, &tail);
        assert(out@ =~= old(out)@ + encode_dma(self@));
    }

    /// Restores state produced by `save_state`, field by field in the order
    /// it was written; a truncated buffer stops the load at the first field
    /// it no longer holds in full, keeping the fields read before it.
    pub fn load_state(&mut self, r: &mut StateReader) -> (res: Result<(), EmulationError>)
        requires
            old(r).wf(),
        ensures
            final(r).wf(),
            final(self)@ == dma_loaded(old(self)@, old(r).rest()),
            old(r).advanced(&*final(r), dma_consumed(old(r).rest().len() as int)),
            old(r).rest().len() >= dma_width() ==> res is Ok && final(self)@ == dma_from_bytes(old(r).rest()),
            old(r).rest().len() < dma_width() ==> res == Err::<(), EmulationError>(truncated()),
    {
        let ghost s = old(r).rest();
        let ghost x = self@;
        let ghost w = channel_width() as int;
        proof {
            reveal_with_fuel(total_width, 17);
            assert(channel_widths().subrange(0, 16) =~= channel_widths());
        }
        assert(w == 19);
        let mut chans = self.channels;
        let mut i: usize = 0;
        while i < 8
            invariant
                i <= 8,
                r.wf(),
                old(r).wf(),
                w == channel_width() == 19,
                s == old(r).rest(),
                x == old(self)@,
                x.channels == old(self).channels@,
                s.len() >= i * 19,
                old(r).advanced(&*r, i * 19),
                forall|k: int| 0 <= k < i ==> #[trigger] chans[k] == dma_loaded(x, s).channels[k],
                forall|k: int| i <= k < 8 ==> #[trigger] chans[k] == x.channels[k],
                self.dma_active == x.dma_active,
                self.hdma_pending == x.hdma_pending,
                self.enable_mask == x.enable_mask,
            decreases 8 - i,
        {
            proof {
                assert(r.rest() =~= s.skip(i * 19));
            }
            let res = chans[i].load_state(r);
            if res.is_err() {
                proof {
                    assert(s.len() < (i + 1) * 19);
                    assert(s.len() / 19 == i);
                }
                self.channels = chans;
                assert forall|k: int| 0 <= k < 8 implies #[trigger] self@.channels[k] == dma_loaded(x, s).channels[k] by {
                    if k > i {
                        assert((i + 1) * 19 <= k * 19);
                    }
                }
                assert(self@.channels =~= dma_loaded(x, s).channels);
                return res;
            }
            proof {
                lemma_fitting_fields(s.len() - i * 19, channel_widths(), 0);
            }
            i = i + 1;
        }
        let widths: [usize; 3] = [1, 1, 1];
        assert(widths@.map_values(|w: usize| w as nat) =~= dma_tail_widths());
        proof {
            assert(r.rest() =~= s.skip(8int * 19));
            reveal_with_fuel(total_width, 4);
            lemma_fitting_fields(s.len() - 8 * 19, dma_tail_widths(), 0);
        }
        let (v, res) = r.read_prefix(widths.as_slice());
        let n = v.len();
        self.channels = chans;
        if n > 0 {
            self.dma_active = v[0] != 0;
        }
        if n > 1 {
            self.hdma_pending = v[1] != 0;
        }
        if n > 2 {
            self.enable_mask = v[2] as u8;
        }
        assert(self@.channels =~= dma_loaded(x, s).channels);
        proof {
            if s.len() >= dma_width() {
                assert(self@.channels =~= dma_from_bytes(s).channels) by {
                    assert forall|k: int| 0 <= k < 8 implies #[trigger] self@.channels[k] == dma_from_bytes(s).channels[k] by {
                        lemma_fitting_fields(s.len() - k * 19, channel_widths(), 0);
                    }
                }
            }
        }
        res
    }
}

impl Default for Dma {
    fn default() -> (d: Self)
        ensures
            d@ == dma_default(),
    {
        Self::new()
    }
}

} // verus!
