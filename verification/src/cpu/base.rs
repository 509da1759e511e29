//! `Cpu` construction, instruction fetch, memory access, and the
//! register-width and flag bookkeeping every instruction goes through.
use vstd::prelude::*;
use super::{Cpu, CpuFlags, FLAG_I, FLAG_M, FLAG_N, FLAG_X, FLAG_Z};
use super::spec::{fetch8, fetch16, read_mem, write_mem, stack_addr_spec, push, pull};
use crate::bus::{BusResult, MemoryBus};
use crate::error::EmulationError;
use crate::wram::{lemma_wram_read_after_write, wram_offset, Wram};

verus! {

/// The power-on register file: emulation mode, 8-bit registers, IRQs
/// masked, stack at $01FF.
pub open spec fn fresh_cpu() -> Cpu {
    Cpu {
        a: 0,
        x: 0,
        y: 0,
        pc: 0,
        pb: 0,
        sp: 0x01FF,
        db: 0,
        d: 0,
        p: CpuFlags(FLAG_I | FLAG_M | FLAG_X),
        e: true,
        cycles: 0,
        waiting_for_interrupt: false,
    }
}

impl Cpu {
    pub fn new() -> (c: Cpu)
        ensures
            c == fresh_cpu(),
    {
        Cpu {
            a: 0,
            x: 0,
            y: 0,
            pc: 0,
            pb: 0,
            sp: 0x01FF,
            db: 0,
            d: 0,
            p: CpuFlags(FLAG_I | FLAG_M | FLAG_X),
            e: true,
            cycles: 0,
            waiting_for_interrupt: false,
        }
    }

    /// Reads the byte at PB:PC and advances PC within the bank.
    pub fn fetch_u8<B: MemoryBus>(&mut self, bus: &mut B) -> (r: BusResult<u8>)
        ensures
            (*final(self), *final(bus), r) == fetch8(*old(self), *old(bus)),
    {
        let addr = ((self.pb as u32) << 16) | (self.pc as u32);
        let byte = bus.read_u8(addr)?;
        self.pc = self.pc.wrapping_add(1);
        Ok(byte)
    }

    /// Reads a little-endian word from the instruction stream.
    pub fn fetch_u16<B: MemoryBus>(&mut self, bus: &mut B) -> (r: BusResult<u16>)
        ensures
            (*final(self), *final(bus), r) == fetch16(*old(self), *old(bus)),
    {
        let lo = self.fetch_u8(bus)?;
        let hi = self.fetch_u8(bus)?;
        Ok(((hi as u16) << 8) | (lo as u16))
    }

    /// Reads one byte, or a little-endian word from `addr` and `addr + 1`.
    pub fn read_memory<B: MemoryBus>(&mut self, bus: &mut B, addr: u32, is_16bit: bool) -> (r: BusResult<u16>)
        ensures
            (*final(self), *final(bus), r) == read_mem(*old(self), *old(bus), addr, is_16bit),
    {
        if is_16bit {
            let lo = bus.read_u8(addr)?;
            let hi = bus.read_u8(addr.wrapping_add(1))?;
            Ok(((hi as u16) << 8) | (lo as u16))
        } else {
            let v = bus.read_u8(addr)?;
            Ok(v as u16)
        }
    }

    /// Writes the low byte of `value` to `addr`, then, when 16-bit, the high
    /// byte to `addr + 1`.
    pub fn write_memory<B: MemoryBus>(&mut self, bus: &mut B, addr: u32, value: u16, is_16bit: bool) -> (r: BusResult<()>)
        ensures
            (*final(self), *final(bus), r) == write_mem(*old(self), *old(bus), addr, value, is_16bit),
    {
        bus.write_u8(addr, (value & 0xFF) as u8)?;
        if is_16bit {
            bus.write_u8(addr.wrapping_add(1), (value >> 8) as u8)?;
        }
        Ok(())
    }

    /// Where the stack pointer points: page 1 in emulation mode, anywhere
    /// in bank 0 in native mode.
    pub fn stack_addr(&self) -> (r: u32)
        ensures
            r == stack_addr_spec(*self),
    {
        if self.e {
            0x0100 | ((self.sp & 0xFF) as u32)
        } else {
            self.sp as u32
        }
    }

    /// Pushes `value` (high byte first when 16-bit), decrementing SP per byte.
    pub fn push_stack<B: MemoryBus>(&mut self, bus: &mut B, value: u16, is_16bit: bool) -> (r: BusResult<()>)
        ensures
            (*final(self), *final(bus), r) == push(*old(self), *old(bus), value, is_16bit),
    {
        if is_16bit {
            bus.write_u8(self.stack_addr(), (value >> 8) as u8)?;
            self.sp = self.sp.wrapping_sub(1);
        }
        bus.write_u8(self.stack_addr(), (value & 0xFF) as u8)?;
        self.sp = self.sp.wrapping_sub(1);
        Ok(())
    }

    /// Pulls a byte (or a little-endian word), incrementing SP before each
    /// byte.
    pub fn pull_stack<B: MemoryBus>(&mut self, bus: &mut B, is_16bit: bool) -> (r: BusResult<u16>)
        ensures
            (*final(self), *final(bus), r) == pull(*old(self), *old(bus), is_16bit),
    {
        self.sp = self.sp.wrapping_add(1);
        let low = bus.read_u8(self.stack_addr())?;
        if is_16bit {
            self.sp = self.sp.wrapping_add(1);
            let high = bus.read_u8(self.stack_addr())?;
            Ok(((high as u16) << 8) | (low as u16))
        } else {
            Ok(low as u16)
        }
    }
}

impl Default for Cpu {
    fn default() -> (c: Self)
        ensures
            c == fresh_cpu(),
    {
        Self::new()
    }
}

/// Bit facts behind the stack round trip.
proof fn lemma_stack_bits(sp: u16, v: u16)
    by (bit_vector)
    ensures
        (sp & 0xFF) != (sp.wrapping_sub(1) & 0xFF),
        sp != sp.wrapping_sub(1),
        sp.wrapping_sub(1).wrapping_add(1) == sp,
        sp.wrapping_sub(1).wrapping_sub(1).wrapping_add(1) == sp.wrapping_sub(1),
        (((((v >> 8) as u8) as u16) << 8) | ((v & 0xFF) as u8) as u16) == v,
        (((v & 0xFF) as u8) as u16) == v & 0xFF,
        (0x0100u32 | ((sp & 0xFF) as u32)) != (0x0100u32 | ((sp.wrapping_sub(1) & 0xFF) as u32)),
        (0x0100u32 | ((sp & 0xFF) as u32)) <= 0x1FF,
        (0x0100u32 | ((sp.wrapping_sub(1) & 0xFF) as u32)) <= 0x1FF,
{
}

/// A pull right after a push, with the stack in work RAM, gives back the
/// pushed value (its low byte when 8-bit) and leaves every register as it
/// was before the push.
pub proof fn lemma_push_pull_roundtrip(c: Cpu, w: Wram, v: u16, wide: bool)
    requires
        push(c, w, v, wide).2 is Ok,
    ensures
        ({
            let (c1, w1, r1) = push(c, w, v, wide);
            let (c2, w2, r2) = pull(c1, w1, wide);
            &&& r2 == Ok::<u16, EmulationError>(if wide { v } else { v & 0xFF })
            &&& c2 == c
        }),
{
    lemma_stack_bits(c.sp, v);
    let a_hi = stack_addr_spec(c);
    let c_mid = Cpu { sp: c.sp.wrapping_sub(1), ..c };
    let a_lo = stack_addr_spec(c_mid);
    if wide {
        let w_a = w.write_spec(a_hi, (v >> 8) as u8).0;
        lemma_wram_read_after_write(w, a_hi, (v >> 8) as u8, a_lo);
        lemma_wram_read_after_write(w, a_hi, (v >> 8) as u8, a_hi);
        let w_b = w_a.write_spec(a_lo, (v & 0xFF) as u8).0;
        lemma_wram_read_after_write(w_a, a_lo, (v & 0xFF) as u8, a_lo);
        lemma_wram_read_after_write(w_a, a_lo, (v & 0xFF) as u8, a_hi);
        lemma_wram_read_after_write(w_b, 0, 0, a_lo);
        lemma_wram_read_after_write(w_b, 0, 0, a_hi);
        assert(wram_offset(a_lo) != wram_offset(a_hi));
    } else {
        let w_a = w.write_spec(a_hi, (v & 0xFF) as u8).0;
        lemma_wram_read_after_write(w, a_hi, (v & 0xFF) as u8, a_hi);
        lemma_wram_read_after_write(w_a, 0, 0, a_hi);
    }
}

} // verus!
