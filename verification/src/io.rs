//! The PPU control register file ($2100-$21FF): display settings,
//! background configuration, OAM/VRAM/CGRAM addressing, windows and the
//! APU communication ports.
use vstd::prelude::*;

verus! {

/// I/O registers for PPU control, mapped at $2100-$21FF (addressed here by
/// the low byte of the address). Several registers are mirrored.
#[derive(Debug, Clone)]
pub struct IoRegisters {
    /// INIDISP ($2100): bit 7 forced blank, bits 0-3 brightness.
    pub inidisp: u8,
    /// OBSEL ($2101): object size and name table selection.
    pub obsel: u8,
    /// OAMADDL ($2102): OAM address low byte as last written.
    pub oamaddl: u8,
    /// OAMADDH ($2103): OAM address high byte as last written.
    pub oamaddh: u8,
    /// OAMDATA ($2104): last OAM data byte written.
    pub oamdata: u8,
    /// BGMODE ($2105): bits 0-2 BG mode.
    pub bgmode: u8,
    /// BG1SC ($2107).
    pub bg1sc: u8,
    /// BG2SC ($2108).
    pub bg2sc: u8,
    /// BG3SC ($2109).
    pub bg3sc: u8,
    /// BG4SC ($210A).
    pub bg4sc: u8,
    /// BG12NBA ($210B): BG1/BG2 tile data base.
    pub bg12nba: u8,
    /// BG34NBA ($210C): BG3/BG4 tile data base.
    pub bg34nba: u8,
    /// BG1HOFS: BG1 horizontal scroll.
    pub bg1hoffs: u16,
    /// BG1VOFS: BG1 vertical scroll.
    pub bg1voffs: u16,
    /// BG2HOFS: BG2 horizontal scroll.
    pub bg2hoffs: u16,
    /// BG2VOFS: BG2 vertical scroll.
    pub bg2voffs: u16,
    /// BG3HOFS: BG3 horizontal scroll.
    pub bg3hoffs: u16,
    /// BG3VOFS: BG3 vertical scroll.
    pub bg3voffs: u16,
    /// BG4HOFS: BG4 horizontal scroll.
    pub bg4hoffs: u16,
    /// BG4VOFS: BG4 vertical scroll.
    pub bg4voffs: u16,
    /// VMAIN ($2115): bits 0-1 select the VRAM address increment.
    pub vmain: u8,
    /// VMADDL ($2116): VRAM address low byte as last written.
    pub vmaddl: u8,
    /// VMADDH ($2117): VRAM address high byte as last written.
    pub vmaddh: u8,
    /// VMDATAL ($2118): last VRAM data low byte written.
    pub vmdatal: u8,
    /// VMDATAH ($2119): last VRAM data high byte written.
    pub vmdatah: u8,
    /// CGADD ($211A): CGRAM address as last written.
    pub cgadd: u8,
    /// CGDATA ($211B): last CGRAM data byte written.
    pub cgdata: u8,
    /// W12SEL ($2121): window 1/2 settings.
    pub w12sel: u8,
    /// W34SEL ($2122): window 3/4 settings.
    pub w34sel: u8,
    /// WH0 ($2123).
    pub wh0: u8,
    /// WH1 ($2124).
    pub wh1: u8,
    /// WH2 ($2125).
    pub wh2: u8,
    /// WH3 ($2126).
    pub wh3: u8,
    /// WMMODE ($2127): window mask mode.
    pub wmmode: u8,
    /// TMW ($2128): main screen window mask enable.
    pub tmw: u8,
    /// TSW ($2129): sub screen window mask enable.
    pub tsw: u8,
    /// TM ($212C): main screen enable.
    pub tm: u8,
    /// TS ($212D): sub screen enable.
    pub ts: u8,
    /// SETINI ($2130): bit 0 mode-7 EXTBG, bit 1 pseudo-hires, bit 2
    /// overscan, bits 3-4 interlace (0 none, 1 interlace, 2-3 pseudo).
    pub setini: u8,
    /// W12SEL mirror ($2131).
    pub w12sel_mirror: u8,
    /// W34SEL mirror ($2132).
    pub w34sel_mirror: u8,
    /// WH0 mirror ($2133).
    pub wh0_mirror: u8,
    /// WH1 mirror ($2134).
    pub wh1_mirror: u8,
    /// WH2 mirror ($2135).
    pub wh2_mirror: u8,
    /// WH3 mirror ($2136).
    pub wh3_mirror: u8,
    /// WMMODE mirror ($2137).
    pub wmmode_mirror: u8,
    /// APU communication ports ($2140-$2143, mirrored at $2144-$2147).
    pub apu_ports: [u8; 4],
    /// RDNMI: NMI status (read-only).
    pub rdnmi: u8,
    /// TIMEUP: H/V timer status (read-only).
    pub timeup: u8,
    /// HVBJOY: joypad status (read-only).
    pub hvbjoy: u8,
    /// Internal latch for registers whose successive reads differ.
    pub read_latch: u8,
    /// OAM address (9-bit), built from OAMADDL/OAMADDH.
    oam_address: u16,
    /// VRAM address (15-bit), built from VMADDL/VMADDH.
    vram_address: u16,
    /// CGRAM address.
    cgram_address: u8,
    /// Whether OAMADDH was written.
    oam_high_written: bool,
    /// Shared latch of the two-write scroll registers.
    fine_scroll_latch: u8,
}

/// The register file as plain values (the APU ports as a sequence).
pub ghost struct IoView {
    pub inidisp: u8,
    pub obsel: u8,
    pub oamaddl: u8,
    pub oamaddh: u8,
    pub oamdata: u8,
    pub bgmode: u8,
    pub bg1sc: u8,
    pub bg2sc: u8,
    pub bg3sc: u8,
    pub bg4sc: u8,
    pub bg12nba: u8,
    pub bg34nba: u8,
    pub bg1hoffs: u16,
    pub bg1voffs: u16,
    pub bg2hoffs: u16,
    pub bg2voffs: u16,
    pub bg3hoffs: u16,
    pub bg3voffs: u16,
    pub bg4hoffs: u16,
    pub bg4voffs: u16,
    pub vmain: u8,
    pub vmaddl: u8,
    pub vmaddh: u8,
    pub vmdatal: u8,
    pub vmdatah: u8,
    pub cgadd: u8,
    pub cgdata: u8,
    pub w12sel: u8,
    pub w34sel: u8,
    pub wh0: u8,
    pub wh1: u8,
    pub wh2: u8,
    pub wh3: u8,
    pub wmmode: u8,
    pub tmw: u8,
    pub tsw: u8,
    pub tm: u8,
    pub ts: u8,
    pub setini: u8,
    pub w12sel_mirror: u8,
    pub w34sel_mirror: u8,
    pub wh0_mirror: u8,
    pub wh1_mirror: u8,
    pub wh2_mirror: u8,
    pub wh3_mirror: u8,
    pub wmmode_mirror: u8,
    pub apu_ports: Seq<u8>,
    pub rdnmi: u8,
    pub timeup: u8,
    pub hvbjoy: u8,
    pub read_latch: u8,
    pub oam_address: u16,
    pub vram_address: u16,
    pub cgram_address: u8,
    pub oam_high_written: bool,
    pub fine_scroll_latch: u8,
}

/// Number of bytes the VRAM address advances by after a data write, as
/// selected by VMAIN bits 0-1.
pub open spec fn increment_of(vmain: u8) -> u16 {
    if vmain & 0x03 == 0 {
        1
    } else if vmain & 0x03 == 1 {
        32
    } else {
        128
    }
}

/// A write to VMDATAL ($2118) or VMDATAH ($2119) advances the VRAM address
/// by the step VMAIN bits 0-1 select (1, 32, and 128 for both 2 and 3),
/// wrapping within $0000-$7FFF: both data registers step alike, and nothing
/// else changes but the data latch written.
pub proof fn lemma_vram_data_write_steps(v: IoView, value: u8)
    ensures
        io_write_spec(v, 0x18, value).vram_address == (v.vram_address + (if v.vmain & 0x03 == 0 {
            1int
        } else if v.vmain & 0x03 == 1 {
            32int
        } else {
            128int
        })) % 0x8000,
        io_write_spec(v, 0x19, value).vram_address == io_write_spec(v, 0x18, value).vram_address,
        io_write_spec(v, 0x18, value) == (IoView { vmdatal: value, vram_address: io_write_spec(v, 0x18, value).vram_address, ..v }),
        io_write_spec(v, 0x19, value) == (IoView { vmdatah: value, vram_address: io_write_spec(v, 0x19, value).vram_address, ..v }),
{
}

/// What reading register `addr` returns.
pub open spec fn io_read_spec(v: IoView, addr: u8) -> u8 {
    if addr == 0x00 { v.inidisp }
    else if addr == 0x01 { v.obsel }
    else if addr == 0x02 { (v.oam_address & 0xFF) as u8 }
    else if addr == 0x03 { (((v.oam_address >> 8) & 0x01) as u8 | 0xFE) as u8 }
    else if addr == 0x04 { v.oamdata }
    else if addr == 0x05 { v.bgmode }
    else if addr == 0x07 { v.bg1sc }
    else if addr == 0x08 { v.bg2sc }
    else if addr == 0x09 { v.bg3sc }
    else if addr == 0x0A { v.bg4sc }
    else if addr == 0x0B { v.bg12nba }
    else if addr == 0x0C { v.bg34nba }
    else if addr == 0x0D { (v.bg1hoffs & 0xFF) as u8 }
    else if addr == 0x0E { ((v.bg1hoffs >> 8) & 0xFF) as u8 }
    else if addr == 0x0F { (v.bg1voffs & 0xFF) as u8 }
    else if addr == 0x10 { ((v.bg1voffs >> 8) & 0xFF) as u8 }
    else if addr == 0x11 { (v.bg2hoffs & 0xFF) as u8 }
    else if addr == 0x12 { ((v.bg2hoffs >> 8) & 0xFF) as u8 }
    else if addr == 0x13 { (v.bg2voffs & 0xFF) as u8 }
    else if addr == 0x14 { ((v.bg2voffs >> 8) & 0xFF) as u8 }
    else if addr == 0x15 { v.vmain }
    else if addr == 0x16 { (v.vram_address & 0xFF) as u8 }
    else if addr == 0x17 { ((v.vram_address >> 8) & 0x7F) as u8 }
    else if addr == 0x18 { v.vmdatal }
    else if addr == 0x19 { v.vmdatah }
    else if addr == 0x1A { v.cgadd }
    else if addr == 0x1B { v.cgdata }
    else if addr == 0x21 || addr == 0x31 { v.w12sel }
    else if addr == 0x22 || addr == 0x32 { v.w34sel }
    else if addr == 0x23 || addr == 0x33 { v.wh0 }
    else if addr == 0x24 || addr == 0x34 { v.wh1 }
    else if addr == 0x25 || addr == 0x35 { v.wh2 }
    else if addr == 0x26 || addr == 0x36 { v.wh3 }
    else if addr == 0x27 || addr == 0x37 { v.wmmode }
    else if addr == 0x28 { v.tmw }
    else if addr == 0x29 { v.tsw }
    else if addr == 0x2C { v.tm }
    else if addr == 0x2D { v.ts }
    else if addr == 0x30 { v.setini }
    else if addr == 0x3E { v.rdnmi }
    else if addr == 0x3F { v.timeup }
    else if 0x40 <= addr <= 0x43 { v.apu_ports[addr - 0x40] }
    else if 0x44 <= addr <= 0x47 { v.apu_ports[addr - 0x44] }
    else { 0 }
}

/// The register file after writing `value` to register `addr`.
pub open spec fn io_write_spec(v: IoView, addr: u8, value: u8) -> IoView {
    if addr == 0x00 { IoView { inidisp: value, ..v } }
    else if addr == 0x01 { IoView { obsel: value, ..v } }
    else if addr == 0x02 { IoView { oamaddl: value, oam_address: ((v.oam_address & 0x100) | value as u16) as u16, ..v } }
    else if addr == 0x03 {
        IoView { oamaddh: value, oam_high_written: true,
            oam_address: ((((value & 0x01) as u16) << 8) | (v.oam_address & 0xFF)) as u16, ..v }
    }
    else if addr == 0x04 { IoView { oamdata: value, oam_address: ((v.oam_address + 1) % 0x200) as u16, ..v } }
    else if addr == 0x05 { IoView { bgmode: value, ..v } }
    else if addr == 0x07 { IoView { bg1sc: value, ..v } }
    else if addr == 0x08 { IoView { bg2sc: value, ..v } }
    else if addr == 0x09 { IoView { bg3sc: value, ..v } }
    else if addr == 0x0A { IoView { bg4sc: value, ..v } }
    else if addr == 0x0B { IoView { bg12nba: value, ..v } }
    else if addr == 0x0C { IoView { bg34nba: value, ..v } }
    else if addr == 0x0D { IoView { fine_scroll_latch: value, bg1hoffs: ((v.bg1hoffs & 0xFF00) | value as u16) as u16, ..v } }
    else if addr == 0x0E { IoView { bg1hoffs: (((value as u16) << 8) | v.fine_scroll_latch as u16) as u16, ..v } }
    else if addr == 0x0F { IoView { fine_scroll_latch: value, bg1voffs: ((v.bg1voffs & 0xFF00) | value as u16) as u16, ..v } }
    else if addr == 0x10 { IoView { bg1voffs: (((value as u16) << 8) | v.fine_scroll_latch as u16) as u16, ..v } }
    else if addr == 0x11 { IoView { fine_scroll_latch: value, bg2hoffs: ((v.bg2hoffs & 0xFF00) | value as u16) as u16, ..v } }
    else if addr == 0x12 { IoView { bg2hoffs: (((value as u16) << 8) | v.fine_scroll_latch as u16) as u16, ..v } }
    else if addr == 0x13 { IoView { fine_scroll_latch: value, bg2voffs: ((v.bg2voffs & 0xFF00) | value as u16) as u16, ..v } }
    else if addr == 0x14 { IoView { bg2voffs: (((value as u16) << 8) | v.fine_scroll_latch as u16) as u16, ..v } }
    else if addr == 0x15 { IoView { vmain: value, ..v } }
    else if addr == 0x16 { IoView { vmaddl: value, vram_address: ((v.vram_address & 0xFF00) | value as u16) as u16, ..v } }
    else if addr == 0x17 { IoView { vmaddh: value, vram_address: ((((value as u16) & 0x7F) << 8) | (v.vram_address & 0xFF)) as u16, ..v } }
    else if addr == 0x18 { IoView { vmdatal: value, vram_address: ((v.vram_address + increment_of(v.vmain)) % 0x8000) as u16, ..v } }
    else if addr == 0x19 { IoView { vmdatah: value, vram_address: ((v.vram_address + increment_of(v.vmain)) % 0x8000) as u16, ..v } }
    else if addr == 0x1A { IoView { cgadd: value, cgram_address: value, ..v } }
    else if addr == 0x1B { IoView { cgdata: value, cgram_address: ((v.cgram_address + 1) % 256) as u8, ..v } }
    else if addr == 0x21 { IoView { w12sel: value, ..v } }
    else if addr == 0x22 { IoView { w34sel: value, ..v } }
    else if addr == 0x23 { IoView { wh0: value, ..v } }
    else if addr == 0x24 { IoView { wh1: value, ..v } }
    else if addr == 0x25 { IoView { wh2: value, ..v } }
    else if addr == 0x26 { IoView { wh3: value, ..v } }
    else if addr == 0x27 { IoView { wmmode: value, ..v } }
    else if addr == 0x28 { IoView { tmw: value, ..v } }
    else if addr == 0x29 { IoView { tsw: value, ..v } }
    else if addr == 0x2C { IoView { tm: value, ..v } }
    else if addr == 0x2D { IoView { ts: value, ..v } }
    else if addr == 0x30 { IoView { setini: value, ..v } }
    else if addr == 0x31 { IoView { w12sel_mirror: value, w12sel: value, ..v } }
    else if addr == 0x32 { IoView { w34sel_mirror: value, w34sel: value, ..v } }
    else if addr == 0x33 { IoView { wh0_mirror: value, wh0: value, ..v } }
    else if addr == 0x34 { IoView { wh1_mirror: value, wh1: value, ..v } }
    else if addr == 0x35 { IoView { wh2_mirror: value, wh2: value, ..v } }
    else if addr == 0x36 { IoView { wh3_mirror: value, wh3: value, ..v } }
    else if addr == 0x37 { IoView { wmmode_mirror: value, wmmode: value, ..v } }
    else if 0x40 <= addr <= 0x43 { IoView { apu_ports: v.apu_ports.update(addr - 0x40, value), ..v } }
    else if 0x44 <= addr <= 0x47 { IoView { apu_ports: v.apu_ports.update(addr - 0x44, value), ..v } }
    else { v }
}

/// The power-on register file: every register zero.
pub open spec fn io_default() -> IoView {
    IoView {
        inidisp: 0,
        obsel: 0,
        oamaddl: 0,
        oamaddh: 0,
        oamdata: 0,
        bgmode: 0,
        bg1sc: 0,
        bg2sc: 0,
        bg3sc: 0,
        bg4sc: 0,
        bg12nba: 0,
        bg34nba: 0,
        bg1hoffs: 0,
        bg1voffs: 0,
        bg2hoffs: 0,
        bg2voffs: 0,
        bg3hoffs: 0,
        bg3voffs: 0,
        bg4hoffs: 0,
        bg4voffs: 0,
        vmain: 0,
        vmaddl: 0,
        vmaddh: 0,
        vmdatal: 0,
        vmdatah: 0,
        cgadd: 0,
        cgdata: 0,
        w12sel: 0,
        w34sel: 0,
        wh0: 0,
        wh1: 0,
        wh2: 0,
        wh3: 0,
        wmmode: 0,
        tmw: 0,
        tsw: 0,
        tm: 0,
        ts: 0,
        setini: 0,
        w12sel_mirror: 0,
        w34sel_mirror: 0,
        wh0_mirror: 0,
        wh1_mirror: 0,
        wh2_mirror: 0,
        wh3_mirror: 0,
        wmmode_mirror: 0,
        apu_ports: seq![0u8, 0u8, 0u8, 0u8],
        rdnmi: 0,
        timeup: 0,
        hvbjoy: 0,
        read_latch: 0,
        oam_address: 0,
        vram_address: 0,
        cgram_address: 0,
        oam_high_written: false,
        fine_scroll_latch: 0,
    }
}

impl View for IoRegisters {
    type V = IoView;

    closed spec fn view(&self) -> IoView {
        IoView {
            inidisp: self.inidisp,
            obsel: self.obsel,
            oamaddl: self.oamaddl,
            oamaddh: self.oamaddh,
            oamdata: self.oamdata,
            bgmode: self.bgmode,
            bg1sc: self.bg1sc,
            bg2sc: self.bg2sc,
            bg3sc: self.bg3sc,
            bg4sc: self.bg4sc,
            bg12nba: self.bg12nba,
            bg34nba: self.bg34nba,
            bg1hoffs: self.bg1hoffs,
            bg1voffs: self.bg1voffs,
            bg2hoffs: self.bg2hoffs,
            bg2voffs: self.bg2voffs,
            bg3hoffs: self.bg3hoffs,
            bg3voffs: self.bg3voffs,
            bg4hoffs: self.bg4hoffs,
            bg4voffs: self.bg4voffs,
            vmain: self.vmain,
            vmaddl: self.vmaddl,
            vmaddh: self.vmaddh,
            vmdatal: self.vmdatal,
            vmdatah: self.vmdatah,
            cgadd: self.cgadd,
            cgdata: self.cgdata,
            w12sel: self.w12sel,
            w34sel: self.w34sel,
            wh0: self.wh0,
            wh1: self.wh1,
            wh2: self.wh2,
            wh3: self.wh3,
            wmmode: self.wmmode,
            tmw: self.tmw,
            tsw: self.tsw,
            tm: self.tm,
            ts: self.ts,
            setini: self.setini,
            w12sel_mirror: self.w12sel_mirror,
            w34sel_mirror: self.w34sel_mirror,
            wh0_mirror: self.wh0_mirror,
            wh1_mirror: self.wh1_mirror,
            wh2_mirror: self.wh2_mirror,
            wh3_mirror: self.wh3_mirror,
            wmmode_mirror: self.wmmode_mirror,
            apu_ports: self.apu_ports@,
            rdnmi: self.rdnmi,
            timeup: self.timeup,
            hvbjoy: self.hvbjoy,
            read_latch: self.read_latch,
            oam_address: self.spec_oam_address(),
            vram_address: self.spec_vram_address(),
            cgram_address: self.spec_cgram_address(),
            oam_high_written: self.spec_oam_high_written(),
            fine_scroll_latch: self.spec_fine_scroll_latch(),
        }
    }
}

/// The bit facts behind the address registers: masked addresses stay in
/// range, byte merges stay in range, and increments wrap.
proof fn lemma_io_bits(a: u16, v: u8, vm: u8, inc: u16)
    by (bit_vector)
    ensures
        a & 0x1FF <= 0x1FF,
        a & 0x7FFF <= 0x7FFF,
        v & 0xFF == v,
        vm & 0x03 < 4,
        (a & 0x100) | (v as u16) <= 0x1FF,
        (((v & 0x01) as u16) << 8) | (a & 0xFF) <= 0x1FF,
        a <= 0x1FF ==> ((a + 1) as u16) & 0x1FF == (a + 1) % 0x200 && ((a + 1) as u16) & 0x1FF <= 0x1FF,
        a <= 0x7FFF ==> (a & 0xFF00) | (v as u16) <= 0x7FFF,
        (((v as u16) & 0x7F) << 8) | (a & 0xFF) <= 0x7FFF,
        a <= 0x7FFF && inc <= 128 ==> ((a + inc) as u16) & 0x7FFF == (a + inc) % 0x8000 && ((a + inc) as u16) & 0x7FFF
            <= 0x7FFF,
{
}

impl IoRegisters {
    /// OAM address (9-bit), built from OAMADDL/OAMADDH.
    spec fn spec_oam_address(&self) -> u16 {
        self.oam_address
    }

    /// VRAM address (15-bit), built from VMADDL/VMADDH.
    spec fn spec_vram_address(&self) -> u16 {
        self.vram_address
    }

    /// CGRAM address.
    spec fn spec_cgram_address(&self) -> u8 {
        self.cgram_address
    }

    /// Whether OAMADDH was written.
    spec fn spec_oam_high_written(&self) -> bool {
        self.oam_high_written
    }

    /// Shared latch of the two-write scroll registers.
    spec fn spec_fine_scroll_latch(&self) -> u8 {
        self.fine_scroll_latch
    }

    /// The address registers stay within their hardware widths.
    pub open spec fn wf(&self) -> bool {
        self@.oam_address <= 0x1FF && self@.vram_address <= 0x7FFF
    }

    /// A register file with every register zero.
    pub fn new() -> (r: Self)
        ensures
            r@ == io_default(),
            r.wf(),
    {
        Self::default()
    }

    /// The current OAM address (9-bit).
    pub fn oam_address(&self) -> (r: u16)
        ensures
            r == self@.oam_address,
    {
        self.oam_address
    }

    /// Sets the OAM address, keeping its low 9 bits.
    pub fn set_oam_address(&mut self, addr: u16)
        ensures
            final(self)@ == (IoView { oam_address: addr & 0x1FF, ..old(self)@ }),
            final(self).wf() <== old(self).wf(),
    {
        self.oam_address = addr & 0x1FF;
        proof {
            lemma_io_bits(addr, 0, 0, 0);
        }
    }

    /// The current VRAM address (15-bit).
    pub fn vram_address(&self) -> (r: u16)
        ensures
            r == self@.vram_address,
    {
        self.vram_address
    }

    /// Sets the VRAM address, keeping its low 15 bits.
    pub fn set_vram_address(&mut self, addr: u16)
        ensures
            final(self)@ == (IoView { vram_address: addr & 0x7FFF, ..old(self)@ }),
            final(self).wf() <== old(self).wf(),
    {
        self.vram_address = addr & 0x7FFF;
        proof {
            lemma_io_bits(addr, 0, 0, 0);
        }
    }

    /// The current CGRAM address.
    pub fn cgram_address(&self) -> (r: u8)
        ensures
            r == self@.cgram_address,
    {
        self.cgram_address
    }

    /// Sets the CGRAM address.
    pub fn set_cgram_address(&mut self, addr: u8)
        ensures
            final(self)@ == (IoView { cgram_address: addr, ..old(self)@ }),
    {
        self.cgram_address = addr & 0xFF;
        proof {
            lemma_io_bits(0, addr, 0, 0);
        }
    }

    /// Bytes the VRAM address advances by after each data write (VMAIN bits 0-1).
    pub fn vram_increment(&self) -> (r: u8)
        ensures
            r == increment_of(self@.vmain),
    {
        let vm = self.vmain;
        let m = vm & 0x03;
        proof {
            lemma_io_bits(0, 0, vm, 0);
        }
        match m {
            0x00 => 1,
            0x01 => 32,
            0x02 => 128,
            0x03 => 128,
            _ => 128,
        }
    }

    /// Reads register `addr` (the low byte of $2100-$21FF).
    pub fn read(&self, addr: u8) -> (r: u8)
        ensures
            r == io_read_spec(self@, addr),
    {
        match addr {
            0x00 => self.inidisp,
            0x01 => self.obsel,
            0x02 => (self.oam_address & 0xFF) as u8,
            0x03 => ((self.oam_address >> 8) & 0x01) as u8 | 0xFE,
            0x04 => self.oamdata,
            0x05 => self.bgmode,
            0x07 => self.bg1sc,
            0x08 => self.bg2sc,
            0x09 => self.bg3sc,
            0x0A => self.bg4sc,
            0x0B => self.bg12nba,
            0x0C => self.bg34nba,
            0x0D => (self.bg1hoffs & 0xFF) as u8,
            0x0E => ((self.bg1hoffs >> 8) & 0xFF) as u8,
            0x0F => (self.bg1voffs & 0xFF) as u8,
            0x10 => ((self.bg1voffs >> 8) & 0xFF) as u8,
            0x11 => (self.bg2hoffs & 0xFF) as u8,
            0x12 => ((self.bg2hoffs >> 8) & 0xFF) as u8,
            0x13 => (self.bg2voffs & 0xFF) as u8,
            0x14 => ((self.bg2voffs >> 8) & 0xFF) as u8,
            0x15 => self.vmain,
            0x16 => (self.vram_address & 0xFF) as u8,
            0x17 => ((self.vram_address >> 8) & 0x7F) as u8,
            0x18 => self.vmdatal,
            0x19 => self.vmdatah,
            0x1A => self.cgadd,
            0x1B => self.cgdata,
            0x21 => self.w12sel,
            0x22 => self.w34sel,
            0x23 => self.wh0,
            0x24 => self.wh1,
            0x25 => self.wh2,
            0x26 => self.wh3,
            0x27 => self.wmmode,
            0x28 => self.tmw,
            0x29 => self.tsw,
            0x2C => self.tm,
            0x2D => self.ts,
            0x30 => self.setini,
            0x3E => self.rdnmi,
            0x3F => self.timeup,
            0x31 => self.w12sel,
            0x32 => self.w34sel,
            0x33 => self.wh0,
            0x34 => self.wh1,
            0x35 => self.wh2,
            0x36 => self.wh3,
            0x37 => self.wmmode,
            0x40..=0x43 => self.apu_ports[(addr - 0x40) as usize],
            0x44..=0x47 => self.apu_ports[(addr - 0x44) as usize],
            _ => 0x00,
        }
    }

    /// Writes `value` to register `addr` (the low byte of $2100-$21FF).
    /// Address registers auto-increment after data writes; scroll
    /// registers take two writes through a shared latch.
    pub fn write(&mut self, addr: u8, value: u8)
        requires
            old(self).wf(),
        ensures
            final(self).wf(),
            final(self)@ == io_write_spec(old(self)@, addr, value),
    {
        match addr {
            0x00 => self.inidisp = value,
            0x01 => self.obsel = value,
            0x02 => {
                self.oamaddl = value;
                let o = self.oam_address;
                self.oam_address = (o & 0x100) | (value as u16);
                proof {
                    lemma_io_bits(o, value, 0, 0);
                }
            }
            0x03 => {
                self.oamaddh = value;
                self.oam_high_written = true;
                let o = self.oam_address;
                self.oam_address = (((value & 0x01) as u16) << 8) | (o & 0xFF);
                proof {
                    lemma_io_bits(o, value, 0, 0);
                }
            }
            0x04 => {
                self.oamdata = value;
                let o = self.oam_address;
                self.oam_address = (o + 1) & 0x1FF;
                proof {
                    lemma_io_bits(o, value, 0, 0);
                }
            }
            0x05 => self.bgmode = value,
            0x07 => self.bg1sc = value,
            0x08 => self.bg2sc = value,
            0x09 => self.bg3sc = value,
            0x0A => self.bg4sc = value,
            0x0B => self.bg12nba = value,
            0x0C => self.bg34nba = value,
            0x0D => {
                self.fine_scroll_latch = value;
                self.bg1hoffs = (self.bg1hoffs & 0xFF00) | (value as u16);
            }
            0x0E => {
                self.bg1hoffs = ((value as u16) << 8) | (self.fine_scroll_latch as u16);
            }
            0x0F => {
                self.fine_scroll_latch = value;
                self.bg1voffs = (self.bg1voffs & 0xFF00) | (value as u16);
            }
            0x10 => {
                self.bg1voffs = ((value as u16) << 8) | (self.fine_scroll_latch as u16);
            }
            0x11 => {
                self.fine_scroll_latch = value;
                self.bg2hoffs = (self.bg2hoffs & 0xFF00) | (value as u16);
            }
            0x12 => {
                self.bg2hoffs = ((value as u16) << 8) | (self.fine_scroll_latch as u16);
            }
            0x13 => {
                self.fine_scroll_latch = value;
                self.bg2voffs = (self.bg2voffs & 0xFF00) | (value as u16);
            }
            0x14 => {
                self.bg2voffs = ((value as u16) << 8) | (self.fine_scroll_latch as u16);
            }
            0x15 => self.vmain = value,
            0x16 => {
                self.vmaddl = value;
                let a = self.vram_address;
                self.vram_address = (a & 0xFF00) | (value as u16);
                proof {
                    lemma_io_bits(a, value, 0, 0);
                }
            }
            0x17 => {
                self.vmaddh = value;
                let a = self.vram_address;
                self.vram_address = ((value as u16) & 0x7F) << 8 | (a & 0xFF);
                proof {
                    lemma_io_bits(a, value, 0, 0);
                }
            }
            0x18 => {
                self.vmdatal = value;
                let inc = self.vram_increment() as u16;
                let a = self.vram_address;
                self.vram_address = (a + inc) & 0x7FFF;
                proof {
                    lemma_io_bits(a, 0, 0, inc);
                }
            }
            0x19 => {
                self.vmdatah = value;
                let inc = self.vram_increment() as u16;
                let a = self.vram_address;
                self.vram_address = (a + inc) & 0x7FFF;
                proof {
                    lemma_io_bits(a, 0, 0, inc);
                }
            }
            0x1A => {
                self.cgadd = value;
                self.cgram_address = value;
            }
            0x1B => {
                self.cgdata = value;
                self.cgram_address = self.cgram_address.wrapping_add(1);
            }
            0x21 => self.w12sel = value,
            0x22 => self.w34sel = value,
            0x23 => self.wh0 = value,
            0x24 => self.wh1 = value,
            0x25 => self.wh2 = value,
            0x26 => self.wh3 = value,
            0x27 => self.wmmode = value,
            0x28 => self.tmw = value,
            0x29 => self.tsw = value,
            0x2C => self.tm = value,
            0x2D => self.ts = value,
            0x30 => self.setini = value,
            0x31 => {
                self.w12sel_mirror = value;
                self.w12sel = value;
            }
            0x32 => {
                self.w34sel_mirror = value;
                self.w34sel = value;
            }
            0x33 => {
                self.wh0_mirror = value;
                self.wh0 = value;
            }
            0x34 => {
                self.wh1_mirror = value;
                self.wh1 = value;
            }
            0x35 => {
                self.wh2_mirror = value;
                self.wh2 = value;
            }
            0x36 => {
                self.wh3_mirror = value;
                self.wh3 = value;
            }
            0x37 => {
                self.wmmode_mirror = value;
                self.wmmode = value;
            }
            0x40..=0x43 => self.apu_ports[(addr - 0x40) as usize] = value,
            0x44..=0x47 => self.apu_ports[(addr - 0x44) as usize] = value,
            _ => {},
        }
        assert(final(self)@ =~= io_write_spec(old(self)@, addr, value));
    }

    /// Whether INIDISP forces blanking (bit 7).
    pub fn is_forced_blank(&self) -> (r: bool)
        ensures
            r == (self@.inidisp & 0x80 != 0),
    {
        (self.inidisp & 0x80) != 0
    }

    /// Master brightness, INIDISP bits 0-3.
    pub fn brightness(&self) -> (r: u8)
        ensures
            r == self@.inidisp & 0x0F,
    {
        self.inidisp & 0x0F
    }

    /// BG mode, BGMODE bits 0-2.
    pub fn bg_mode(&self) -> (r: u8)
        ensures
            r == self@.bgmode & 0x07,
    {
        self.bgmode & 0x07
    }

    /// Whether mode-7 EXTBG is on (SETINI bit 0).
    pub fn mode7_extbg(&self) -> (r: bool)
        ensures
            r == (self@.setini & 0x01 != 0),
    {
        (self.setini & 0x01) != 0
    }

    /// Whether interlace is on: SETINI bits 3-4 hold a nonzero mode
    /// (1 interlace, 2-3 pseudo).
    pub fn is_interlaced(&self) -> (r: bool)
        ensures
            r == (self@.setini & 0x18 != 0),
    {
        (self.setini & 0x18) != 0
    }

    /// Whether overscan is on (SETINI bit 2).
    pub fn is_overscan(&self) -> (r: bool)
        ensures
            r == (self@.setini & 0x04 != 0),
    {
        (self.setini & 0x04) != 0
    }

    /// Resets every register to zero.
    pub fn reset(&mut self)
        ensures
            final(self)@ == io_default(),
            final(self).wf(),
    {
        *self = Self::default();
    }
}

impl Default for IoRegisters {
    fn default() -> (r: Self)
        ensures
            r@ == io_default(),
    {
        let r = Self {
            inidisp: 0,
            obsel: 0,
            oamaddl: 0,
            oamaddh: 0,
            oamdata: 0,
            bgmode: 0,
            bg1sc: 0,
            bg2sc: 0,
            bg3sc: 0,
            bg4sc: 0,
            bg12nba: 0,
            bg34nba: 0,
            bg1hoffs: 0,
            bg1voffs: 0,
            bg2hoffs: 0,
            bg2voffs: 0,
            bg3hoffs: 0,
            bg3voffs: 0,
            bg4hoffs: 0,
            bg4voffs: 0,
            vmain: 0,
            vmaddl: 0,
            vmaddh: 0,
            vmdatal: 0,
            vmdatah: 0,
            cgadd: 0,
            cgdata: 0,
            w12sel: 0,
            w34sel: 0,
            wh0: 0,
            wh1: 0,
            wh2: 0,
            wh3: 0,
            wmmode: 0,
            tmw: 0,
            tsw: 0,
            tm: 0,
            ts: 0,
            setini: 0,
            w12sel_mirror: 0,
            w34sel_mirror: 0,
            wh0_mirror: 0,
            wh1_mirror: 0,
            wh2_mirror: 0,
            wh3_mirror: 0,
            wmmode_mirror: 0,
            apu_ports: [0u8; 4],
            rdnmi: 0,
            timeup: 0,
            hvbjoy: 0,
            read_latch: 0,
            oam_address: 0,
            vram_address: 0,
            cgram_address: 0,
            oam_high_written: false,
            fine_scroll_latch: 0,
        };
        assert(r@.apu_ports =~= seq![0u8, 0u8, 0u8, 0u8]);
        r
    }
}

} // verus!
