//! The 65816's addressing modes: each resolves an operand's effective 24-bit
//! address from the instruction stream, the registers and (for the indirect
//! forms) pointers in memory.
use vstd::prelude::*;
use super::Cpu;
use super::spec::{bind, fetch8, fetch16, read8, long_addr, word};
use crate::bus::{BusResult, MemoryBus};

verus! {

/// Where an instruction's operand comes from.
#[derive(Debug, Clone, Copy, PartialEq, Eq, Structural)]
pub enum Mode {
    /// `#const`: the operand follows the opcode.
    Imm,
    /// `dp`: D + 8-bit offset, bank 0.
    Dp,
    /// `dp,X`.
    DpX,
    /// `dp,Y`.
    DpY,
    /// `addr`: DB:16-bit address.
    Abs,
    /// `addr,X`: DB:addr + X over 24 bits.
    AbsX,
    /// `addr,Y`: DB:addr + Y over 24 bits.
    AbsY,
    /// `long`: explicit 24-bit address.
    Long,
    /// `long,X`.
    LongX,
    /// `(dp)`: 16-bit pointer at dp, bank DB.
    DpInd,
    /// `(dp,X)`: pointer at dp + X, bank DB.
    DpIndX,
    /// `(dp),Y`: pointer at dp plus Y, bank DB.
    DpIndY,
    /// `[dp]`: 24-bit pointer at dp.
    DpIndLong,
    /// `[dp],Y`: 24-bit pointer at dp plus Y.
    DpIndLongY,
    /// `sr,S`: SP + 8-bit offset, bank 0.
    Sr,
    /// `(sr,S),Y`: pointer at SP + offset, bank DB, plus Y.
    SrIndY,
}

/// The direct-page address `D + offset + index`. In emulation mode with
/// the low byte of D zero, the sum wraps within the direct page.
pub open spec fn dp_indexed_spec(c: Cpu, offset: u16, index: u16) -> u16 {
    if c.e && (c.d & 0xFF) == 0 {
        c.d | (offset.wrapping_add(index) & 0xFF)
    } else {
        c.d.wrapping_add(offset).wrapping_add(index)
    }
}

/// An immediate operand: one byte, or a little-endian word.
pub open spec fn imm_spec<B: MemoryBus>(c: Cpu, b: B, wide: bool) -> (Cpu, B, BusResult<u16>) {
    if wide {
        fetch16(c, b)
    } else {
        bind(fetch8(c, b), |c1: Cpu, b1: B, v: u8| (c1, b1, Ok(v as u16)))
    }
}

pub open spec fn abs_spec<B: MemoryBus>(c: Cpu, b: B) -> (Cpu, B, BusResult<u32>) {
    bind(fetch16(c, b), |c1: Cpu, b1: B, a: u16| (c1, b1, Ok(long_addr(c1.db, a))))
}

pub open spec fn dp_spec<B: MemoryBus>(c: Cpu, b: B) -> (Cpu, B, BusResult<u32>) {
    bind(fetch8(c, b), |c1: Cpu, b1: B, o: u8| (c1, b1, Ok(c1.d.wrapping_add(o as u16) as u32)))
}

pub open spec fn dp_x_spec<B: MemoryBus>(c: Cpu, b: B) -> (Cpu, B, BusResult<u32>) {
    bind(fetch8(c, b), |c1: Cpu, b1: B, o: u8| (c1, b1, Ok(dp_indexed_spec(c1, o as u16, c1.x) as u32)))
}

pub open spec fn dp_y_spec<B: MemoryBus>(c: Cpu, b: B) -> (Cpu, B, BusResult<u32>) {
    bind(fetch8(c, b), |c1: Cpu, b1: B, o: u8| (c1, b1, Ok(dp_indexed_spec(c1, o as u16, c1.y) as u32)))
}

/// A 24-bit address plus an index, wrapping within 24 bits.
pub open spec fn add24(base: u32, index: u16) -> u32 {
    base.wrapping_add(index as u32) & 0xFF_FFFF
}

pub open spec fn abs_x_spec<B: MemoryBus>(c: Cpu, b: B) -> (Cpu, B, BusResult<u32>) {
    bind(fetch16(c, b), |c1: Cpu, b1: B, a: u16| (c1, b1, Ok(add24(long_addr(c1.db, a), c1.x))))
}

pub open spec fn abs_y_spec<B: MemoryBus>(c: Cpu, b: B) -> (Cpu, B, BusResult<u32>) {
    bind(fetch16(c, b), |c1: Cpu, b1: B, a: u16| (c1, b1, Ok(add24(long_addr(c1.db, a), c1.y))))
}

/// Three little-endian bytes as a 24-bit value.
pub open spec fn triple(lo: u8, mid: u8, hi: u8) -> u32 {
    ((hi as u32) << 16) | ((mid as u32) << 8) | (lo as u32)
}

pub open spec fn long_spec<B: MemoryBus>(c: Cpu, b: B) -> (Cpu, B, BusResult<u32>) {
    bind(fetch8(c, b), |c1: Cpu, b1: B, lo: u8|
        bind(fetch8(c1, b1), |c2: Cpu, b2: B, mid: u8|
            bind(fetch8(c2, b2), |c3: Cpu, b3: B, hi: u8| (c3, b3, Ok(triple(lo, mid, hi))))))
}

pub open spec fn long_x_spec<B: MemoryBus>(c: Cpu, b: B) -> (Cpu, B, BusResult<u32>) {
    bind(long_spec(c, b), |c1: Cpu, b1: B, base: u32| (c1, b1, Ok(add24(base, c1.x))))
}

/// Reads a 16-bit pointer at `at` and `at + 1`, in bank DB.
pub open spec fn ptr16_spec<B: MemoryBus>(c: Cpu, b: B, at: u32) -> (Cpu, B, BusResult<u16>) {
    bind(read8(c, b, at), |c1: Cpu, b1: B, lo: u8|
        bind(read8(c1, b1, at.wrapping_add(1)), |c2: Cpu, b2: B, hi: u8| (c2, b2, Ok(word(lo, hi)))))
}

pub open spec fn dp_ind_spec<B: MemoryBus>(c: Cpu, b: B) -> (Cpu, B, BusResult<u32>) {
    bind(dp_spec(c, b), |c1: Cpu, b1: B, at: u32|
        bind(ptr16_spec(c1, b1, at), |c2: Cpu, b2: B, p: u16| (c2, b2, Ok(long_addr(c2.db, p)))))
}

pub open spec fn dp_ind_y_spec<B: MemoryBus>(c: Cpu, b: B) -> (Cpu, B, BusResult<u32>) {
    bind(dp_spec(c, b), |c1: Cpu, b1: B, at: u32|
        bind(ptr16_spec(c1, b1, at), |c2: Cpu, b2: B, p: u16| (c2, b2, Ok(long_addr(c2.db, p.wrapping_add(c2.y))))))
}

pub open spec fn dp_ind_x_spec<B: MemoryBus>(c: Cpu, b: B) -> (Cpu, B, BusResult<u32>) {
    bind(fetch8(c, b), |c1: Cpu, b1: B, o: u8|
        bind(ptr16_spec(c1, b1, dp_indexed_spec(c1, o as u16, c1.x) as u32), |c2: Cpu, b2: B, p: u16|
            (c2, b2, Ok(long_addr(c2.db, p)))))
}

pub open spec fn dp_ind_long_spec<B: MemoryBus>(c: Cpu, b: B) -> (Cpu, B, BusResult<u32>) {
    bind(dp_spec(c, b), |c1: Cpu, b1: B, at: u32|
        bind(read8(c1, b1, at), |c2: Cpu, b2: B, lo: u8|
            bind(read8(c2, b2, at.wrapping_add(1)), |c3: Cpu, b3: B, mid: u8|
                bind(read8(c3, b3, at.wrapping_add(2)), |c4: Cpu, b4: B, hi: u8| (c4, b4, Ok(triple(lo, mid, hi)))))))
}

pub open spec fn dp_ind_long_y_spec<B: MemoryBus>(c: Cpu, b: B) -> (Cpu, B, BusResult<u32>) {
    bind(dp_ind_long_spec(c, b), |c1: Cpu, b1: B, base: u32| (c1, b1, Ok(add24(base, c1.y))))
}

pub open spec fn sr_spec<B: MemoryBus>(c: Cpu, b: B) -> (Cpu, B, BusResult<u16>) {
    bind(fetch8(c, b), |c1: Cpu, b1: B, o: u8| (c1, b1, Ok(c1.sp.wrapping_add(o as u16))))
}

pub open spec fn sr_ind_y_spec<B: MemoryBus>(c: Cpu, b: B) -> (Cpu, B, BusResult<u32>) {
    bind(sr_spec(c, b), |c1: Cpu, b1: B, at: u16|
        bind(read8(c1, b1, at as u32), |c2: Cpu, b2: B, lo: u8|
            bind(read8(c2, b2, at.wrapping_add(1) as u32), |c3: Cpu, b3: B, hi: u8|
                (c3, b3, Ok(long_addr(c3.db, word(lo, hi).wrapping_add(c3.y)))))))
}

/// The effective address of a memory operand (every mode but `Imm`).
pub open spec fn ea_spec<B: MemoryBus>(c: Cpu, b: B, mode: Mode) -> (Cpu, B, BusResult<u32>) {
    match mode {
        Mode::Imm => (c, b, Ok(0)),
        Mode::Dp => dp_spec(c, b),
        Mode::DpX => dp_x_spec(c, b),
        Mode::DpY => dp_y_spec(c, b),
        Mode::Abs => abs_spec(c, b),
        Mode::AbsX => abs_x_spec(c, b),
        Mode::AbsY => abs_y_spec(c, b),
        Mode::Long => long_spec(c, b),
        Mode::LongX => long_x_spec(c, b),
        Mode::DpInd => dp_ind_spec(c, b),
        Mode::DpIndX => dp_ind_x_spec(c, b),
        Mode::DpIndY => dp_ind_y_spec(c, b),
        Mode::DpIndLong => dp_ind_long_spec(c, b),
        Mode::DpIndLongY => dp_ind_long_y_spec(c, b),
        Mode::Sr => bind(sr_spec(c, b), |c1: Cpu, b1: B, a: u16| (c1, b1, Ok(a as u32))),
        Mode::SrIndY => sr_ind_y_spec(c, b),
    }
}

impl Cpu {
    /// `D + offset + index`, wrapping within the direct page in emulation
    /// mode when the low byte of D is zero (the 6502-compatible quirk), and
    /// within bank 0 otherwise.
    pub fn dp_indexed_address(&self, offset: u16, index: u16) -> (r: u16)
        ensures
            r == dp_indexed_spec(*self, offset, index),
    {
        if self.e && (self.d & 0xFF) == 0 {
            self.d | (offset.wrapping_add(index) & 0xFF)
        } else {
            self.d.wrapping_add(offset).wrapping_add(index)
        }
    }

    /// Immediate: the operand itself, from the instruction stream.
    pub fn addr_immediate<B: MemoryBus>(&mut self, bus: &mut B, is_16bit: bool) -> (r: BusResult<u16>)
        ensures
            (*final(self), *final(bus), r) == imm_spec(*old(self), *old(bus), is_16bit),
    {
        if is_16bit {
            self.fetch_u16(bus)
        } else {
            let b = self.fetch_u8(bus)?;
            Ok(b as u16)
        }
    }

    /// Absolute: a 16-bit address in the data bank.
    pub fn addr_absolute<B: MemoryBus>(&mut self, bus: &mut B) -> (r: BusResult<u32>)
        ensures
            (*final(self), *final(bus), r) == abs_spec(*old(self), *old(bus)),
    {
        let addr = self.fetch_u16(bus)?;
        Ok(((self.db as u32) << 16) | (addr as u32))
    }

    /// Direct Page: D plus an 8-bit offset, always in bank 0.
    pub fn addr_direct_page<B: MemoryBus>(&mut self, bus: &mut B) -> (r: BusResult<u32>)
        ensures
            (*final(self), *final(bus), r) == dp_spec(*old(self), *old(bus)),
    {
        let offset = self.fetch_u8(bus)?;
        Ok(self.d.wrapping_add(offset as u16) as u32)
    }

    /// Direct Page Indexed,X.
    pub fn addr_direct_page_x<B: MemoryBus>(&mut self, bus: &mut B) -> (r: BusResult<u32>)
        ensures
            (*final(self), *final(bus), r) == dp_x_spec(*old(self), *old(bus)),
    {
        let offset = self.fetch_u8(bus)?;
        let addr = self.dp_indexed_address(offset as u16, self.x);
        Ok(addr as u32)
    }

    /// Direct Page Indexed,Y.
    pub fn addr_direct_page_y<B: MemoryBus>(&mut self, bus: &mut B) -> (r: BusResult<u32>)
        ensures
            (*final(self), *final(bus), r) == dp_y_spec(*old(self), *old(bus)),
    {
        let offset = self.fetch_u8(bus)?;
        let addr = self.dp_indexed_address(offset as u16, self.y);
        Ok(addr as u32)
    }

    /// Absolute Indexed,X: DB:addr + X over 24 bits, so a carry out of the
    /// offset moves into the next bank.
    pub fn addr_absolute_x<B: MemoryBus>(&mut self, bus: &mut B) -> (r: BusResult<u32>)
        ensures
            (*final(self), *final(bus), r) == abs_x_spec(*old(self), *old(bus)),
    {
        let addr = self.fetch_u16(bus)?;
        let base = ((self.db as u32) << 16) | (addr as u32);
        Ok(base.wrapping_add(self.x as u32) & 0xFF_FFFF)
    }

    /// Absolute Indexed,Y, like Absolute,X.
    pub fn addr_absolute_y<B: MemoryBus>(&mut self, bus: &mut B) -> (r: BusResult<u32>)
        ensures
            (*final(self), *final(bus), r) == abs_y_spec(*old(self), *old(bus)),
    {
        let addr = self.fetch_u16(bus)?;
        let base = ((self.db as u32) << 16) | (addr as u32);
        Ok(base.wrapping_add(self.y as u32) & 0xFF_FFFF)
    }

    /// Absolute Long: a 3-byte little-endian address with its own bank.
    pub fn addr_absolute_long<B: MemoryBus>(&mut self, bus: &mut B) -> (r: BusResult<u32>)
        ensures
            (*final(self), *final(bus), r) == long_spec(*old(self), *old(bus)),
    {
        let lo = self.fetch_u8(bus)?;
        let mid = self.fetch_u8(bus)?;
        let hi = self.fetch_u8(bus)?;
        Ok(((hi as u32) << 16) | ((mid as u32) << 8) | (lo as u32))
    }

    /// Absolute Long Indexed,X: the long address plus X, within 24 bits.
    pub fn addr_absolute_long_x<B: MemoryBus>(&mut self, bus: &mut B) -> (r: BusResult<u32>)
        ensures
            (*final(self), *final(bus), r) == long_x_spec(*old(self), *old(bus)),
    {
        let base = self.addr_absolute_long(bus)?;
        Ok(base.wrapping_add(self.x as u32) & 0xFF_FFFF)
    }

    /// A 16-bit little-endian pointer read from `at` and `at + 1`.
    fn read_pointer<B: MemoryBus>(&mut self, bus: &mut B, at: u32) -> (r: BusResult<u16>)
        ensures
            (*final(self), *final(bus), r) == ptr16_spec(*old(self), *old(bus), at),
    {
        let lo = bus.read_u8(at)?;
        let hi = bus.read_u8(at.wrapping_add(1))?;
        Ok(((hi as u16) << 8) | (lo as u16))
    }

    /// Direct Page Indirect `(dp)`: a 16-bit pointer at the direct-page
    /// address, in the data bank.
    pub fn addr_indirect_dp<B: MemoryBus>(&mut self, bus: &mut B) -> (r: BusResult<u32>)
        ensures
            (*final(self), *final(bus), r) == dp_ind_spec(*old(self), *old(bus)),
    {
        let dp_addr = self.addr_direct_page(bus)?;
        let pointer = self.read_pointer(bus, dp_addr)?;
        Ok(((self.db as u32) << 16) | (pointer as u32))
    }

    /// Direct Page Indirect Indexed,Y `(dp),Y`: the pointer plus Y, wrapping
    /// within 16 bits, in the data bank.
    pub fn addr_indirect_dp_y<B: MemoryBus>(&mut self, bus: &mut B) -> (r: BusResult<u32>)
        ensures
            (*final(self), *final(bus), r) == dp_ind_y_spec(*old(self), *old(bus)),
    {
        let dp_addr = self.addr_direct_page(bus)?;
        let pointer = self.read_pointer(bus, dp_addr)?;
        let pointer = pointer.wrapping_add(self.y);
        Ok(((self.db as u32) << 16) | (pointer as u32))
    }

    /// Direct Page Indexed Indirect `(dp,X)`: X is added before the pointer
    /// is read.
    pub fn addr_indirect_dp_x<B: MemoryBus>(&mut self, bus: &mut B) -> (r: BusResult<u32>)
        ensures
            (*final(self), *final(bus), r) == dp_ind_x_spec(*old(self), *old(bus)),
    {
        let offset = self.fetch_u8(bus)?;
        let dp_addr = self.dp_indexed_address(offset as u16, self.x) as u32;
        let pointer = self.read_pointer(bus, dp_addr)?;
        Ok(((self.db as u32) << 16) | (pointer as u32))
    }

    /// Direct Page Indirect Long `[dp]`: a 24-bit pointer at the
    /// direct-page address.
    pub fn addr_indirect_long<B: MemoryBus>(&mut self, bus: &mut B) -> (r: BusResult<u32>)
        ensures
            (*final(self), *final(bus), r) == dp_ind_long_spec(*old(self), *old(bus)),
    {
        let dp_addr = self.addr_direct_page(bus)?;
        let lo = bus.read_u8(dp_addr)?;
        let mid = bus.read_u8(dp_addr.wrapping_add(1))?;
        let hi = bus.read_u8(dp_addr.wrapping_add(2))?;
        Ok(((hi as u32) << 16) | ((mid as u32) << 8) | (lo as u32))
    }

    /// Direct Page Indirect Long Indexed,Y `[dp],Y`: the 24-bit pointer plus
    /// Y, within 24 bits.
    pub fn addr_indirect_long_y<B: MemoryBus>(&mut self, bus: &mut B) -> (r: BusResult<u32>)
        ensures
            (*final(self), *final(bus), r) == dp_ind_long_y_spec(*old(self), *old(bus)),
    {
        let base = self.addr_indirect_long(bus)?;
        Ok(base.wrapping_add(self.y as u32) & 0xFF_FFFF)
    }

    /// Stack Relative: SP plus an 8-bit offset, in bank 0.
    pub fn addr_stack_relative<B: MemoryBus>(&mut self, bus: &mut B) -> (r: BusResult<u16>)
        ensures
            (*final(self), *final(bus), r) == sr_spec(*old(self), *old(bus)),
    {
        let offset = self.fetch_u8(bus)?;
        Ok(self.sp.wrapping_add(offset as u16))
    }

    /// Stack Relative Indirect Indexed,Y `(sr,S),Y`: a 16-bit pointer at
    /// the stack-relative address, plus Y, in the data bank.
    pub fn addr_stack_relative_indirect_y<B: MemoryBus>(&mut self, bus: &mut B) -> (r: BusResult<u32>)
        ensures
            (*final(self), *final(bus), r) == sr_ind_y_spec(*old(self), *old(bus)),
    {
        let sr_addr = self.addr_stack_relative(bus)?;
        let lo = bus.read_u8(sr_addr as u32)?;
        let hi = bus.read_u8(sr_addr.wrapping_add(1) as u32)?;
        let pointer = (((hi as u16) << 8) | (lo as u16)).wrapping_add(self.y);
        Ok(((self.db as u32) << 16) | (pointer as u32))
    }

    /// The effective address of a memory operand.
    pub fn effective_address<B: MemoryBus>(&mut self, bus: &mut B, mode: Mode) -> (r: BusResult<u32>)
        ensures
            (*final(self), *final(bus), r) == ea_spec(*old(self), *old(bus), mode),
    {
        match mode {
            Mode::Imm => Ok(0),
            Mode::Dp => self.addr_direct_page(bus),
            Mode::DpX => self.addr_direct_page_x(bus),
            Mode::DpY => self.addr_direct_page_y(bus),
            Mode::Abs => self.addr_absolute(bus),
            Mode::AbsX => self.addr_absolute_x(bus),
            Mode::AbsY => self.addr_absolute_y(bus),
            Mode::Long => self.addr_absolute_long(bus),
            Mode::LongX => self.addr_absolute_long_x(bus),
            Mode::DpInd => self.addr_indirect_dp(bus),
            Mode::DpIndX => self.addr_indirect_dp_x(bus),
            Mode::DpIndY => self.addr_indirect_dp_y(bus),
            Mode::DpIndLong => self.addr_indirect_long(bus),
            Mode::DpIndLongY => self.addr_indirect_long_y(bus),
            Mode::Sr => {
                let a = self.addr_stack_relative(bus)?;
                Ok(a as u32)
            },
            Mode::SrIndY => self.addr_stack_relative_indirect_y(bus),
        }
    }
}

} // verus!
