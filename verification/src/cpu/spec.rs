//! The 65816 instruction set as spec functions.
//!
//! A CPU step is described over the pair (CPU registers, bus state): every
//! bus access goes through the bus's own `read_spec`/`write_spec` state
//! machine, and an access that fails ends the instruction with that error,
//! leaving the registers as they stood at that point.
use vstd::prelude::*;
use super::{Cpu, CpuFlags, FLAG_C, FLAG_D, FLAG_I, FLAG_M, FLAG_N, FLAG_V, FLAG_X, FLAG_Z};
use crate::bus::{BusResult, MemoryBus};

verus! {

// ==================== Flags ====================

/// Whether every bit of `mask` is set in P.
pub open spec fn flag_on(p: CpuFlags, mask: u8) -> bool {
    p.0 & mask == mask
}

/// P with the bits of `mask` set (`on`) or cleared.
pub open spec fn set_flag(p: CpuFlags, mask: u8, on: bool) -> CpuFlags {
    CpuFlags(if on { p.0 | mask } else { p.0 & !mask })
}

/// N and Z from a 16-bit result.
pub open spec fn nz16(p: CpuFlags, v: u16) -> CpuFlags {
    set_flag(set_flag(p, FLAG_Z, v == 0), FLAG_N, v & 0x8000 != 0)
}

/// N and Z from an 8-bit result.
pub open spec fn nz8(p: CpuFlags, v: u8) -> CpuFlags {
    set_flag(set_flag(p, FLAG_Z, v == 0), FLAG_N, v & 0x80 != 0)
}

/// N and Z from a result of the given width (the low byte when 8-bit).
pub open spec fn nz_w(p: CpuFlags, v: u16, wide: bool) -> CpuFlags {
    if wide {
        nz16(p, v)
    } else {
        nz8(p, v as u8)
    }
}

/// The little-endian word of two bytes.
pub open spec fn word(lo: u8, hi: u8) -> u16 {
    ((hi as u16) << 8) | (lo as u16)
}

/// The 24-bit address `bank:offset`.
pub open spec fn long_addr(bank: u8, offset: u16) -> u32 {
    ((bank as u32) << 16) | (offset as u32)
}

/// The accumulator after loading `v`: all 16 bits, or only the low byte
/// when 8-bit (the hidden high byte is kept).
pub open spec fn merge_a(a: u16, v: u16, wide: bool) -> u16 {
    if wide {
        v
    } else {
        ((a & 0xFF00) | (v & 0xFF)) as u16
    }
}

/// With E set the index registers are 8-bit and M/X are forced on.
pub open spec fn enforce_widths_spec(c: Cpu) -> Cpu {
    if c.e {
        Cpu { p: CpuFlags(c.p.0 | FLAG_M | FLAG_X), x: (c.x & 0xFF) as u16, y: (c.y & 0xFF) as u16, ..c }
    } else {
        c
    }
}

// ==================== Bus state machine ====================

/// A step of the machine: registers, bus, and the outcome.
pub open spec fn bind<B: MemoryBus, T, U>(
    m: (Cpu, B, BusResult<T>),
    f: spec_fn(Cpu, B, T) -> (Cpu, B, BusResult<U>),
) -> (Cpu, B, BusResult<U>) {
    match m.2 {
        Ok(v) => f(m.0, m.1, v),
        Err(e) => (m.0, m.1, Err(e)),
    }
}

/// Reads one byte without touching the registers.
pub open spec fn read8<B: MemoryBus>(c: Cpu, b: B, addr: u32) -> (Cpu, B, BusResult<u8>) {
    (c, b.read_spec(addr).0, b.read_spec(addr).1)
}

/// Writes one byte without touching the registers.
pub open spec fn write8<B: MemoryBus>(c: Cpu, b: B, addr: u32, v: u8) -> (Cpu, B, BusResult<()>) {
    (c, b.write_spec(addr, v).0, b.write_spec(addr, v).1)
}

/// The full 24-bit program counter PB:PC.
pub open spec fn pbpc(c: Cpu) -> u32 {
    long_addr(c.pb, c.pc)
}

/// Reads the byte at PB:PC and advances PC (within the bank).
pub open spec fn fetch8<B: MemoryBus>(c: Cpu, b: B) -> (Cpu, B, BusResult<u8>) {
    bind(read8(c, b, pbpc(c)), |c1: Cpu, b1: B, v: u8| (Cpu { pc: c1.pc.wrapping_add(1), ..c1 }, b1, Ok(v)))
}

/// Reads a little-endian word from the instruction stream.
pub open spec fn fetch16<B: MemoryBus>(c: Cpu, b: B) -> (Cpu, B, BusResult<u16>) {
    bind(fetch8(c, b), |c1: Cpu, b1: B, lo: u8| bind(fetch8(c1, b1), |c2: Cpu, b2: B, hi: u8| (c2, b2, Ok(word(lo, hi)))))
}

/// Reads one byte, or a little-endian word from `addr` and `addr + 1`.
pub open spec fn read_mem<B: MemoryBus>(c: Cpu, b: B, addr: u32, wide: bool) -> (Cpu, B, BusResult<u16>) {
    if wide {
        bind(read8(c, b, addr), |c1: Cpu, b1: B, lo: u8|
            bind(read8(c1, b1, addr.wrapping_add(1)), |c2: Cpu, b2: B, hi: u8| (c2, b2, Ok(word(lo, hi)))))
    } else {
        bind(read8(c, b, addr), |c1: Cpu, b1: B, v: u8| (c1, b1, Ok(v as u16)))
    }
}

/// Writes the low byte of `v` to `addr`, then (when 16-bit) the high byte
/// to `addr + 1`.
pub open spec fn write_mem<B: MemoryBus>(c: Cpu, b: B, addr: u32, v: u16, wide: bool) -> (Cpu, B, BusResult<()>) {
    if wide {
        bind(write8(c, b, addr, (v & 0xFF) as u8), |c1: Cpu, b1: B, u: ()| write8(c1, b1, addr.wrapping_add(1), (v >> 8) as u8))
    } else {
        write8(c, b, addr, (v & 0xFF) as u8)
    }
}

/// Where the stack pointer points: page 1 in emulation mode.
pub open spec fn stack_addr_spec(c: Cpu) -> u32 {
    if c.e {
        0x0100 | ((c.sp & 0xFF) as u32)
    } else {
        c.sp as u32
    }
}

/// Pushes `v` (high byte first when 16-bit), decrementing SP per byte.
pub open spec fn push<B: MemoryBus>(c: Cpu, b: B, v: u16, wide: bool) -> (Cpu, B, BusResult<()>) {
    if wide {
        bind(write8(c, b, stack_addr_spec(c), (v >> 8) as u8), |c1: Cpu, b1: B, u: ()| {
            let c2 = Cpu { sp: c1.sp.wrapping_sub(1), ..c1 };
            bind(write8(c2, b1, stack_addr_spec(c2), (v & 0xFF) as u8), |c3: Cpu, b3: B, u2: ()|
                (Cpu { sp: c3.sp.wrapping_sub(1), ..c3 }, b3, Ok(())))
        })
    } else {
        bind(write8(c, b, stack_addr_spec(c), (v & 0xFF) as u8), |c1: Cpu, b1: B, u: ()|
            (Cpu { sp: c1.sp.wrapping_sub(1), ..c1 }, b1, Ok(())))
    }
}

/// Pulls a byte (or a little-endian word), incrementing SP before each byte.
pub open spec fn pull<B: MemoryBus>(c: Cpu, b: B, wide: bool) -> (Cpu, B, BusResult<u16>) {
    let c1 = Cpu { sp: c.sp.wrapping_add(1), ..c };
    bind(read8(c1, b, stack_addr_spec(c1)), |c2: Cpu, b2: B, lo: u8|
        if wide {
            let c3 = Cpu { sp: c2.sp.wrapping_add(1), ..c2 };
            bind(read8(c3, b2, stack_addr_spec(c3)), |c4: Cpu, b4: B, hi: u8| (c4, b4, Ok(word(lo, hi))))
        } else {
            (c2, b2, Ok(lo as u16))
        })
}

// ==================== Bit-level facts ====================

/// Masked values are bounded by their mask.
pub proof fn lemma_mask_bounds()
    by (bit_vector)
    ensures
        forall|x: u32| #[trigger] (x & 0xF) <= 0xF,
        forall|x: u16| #[trigger] (x & 0xF) <= 0xF,
        forall|x: u16| #[trigger] (x & 0xFF) <= 0xFF,
        forall|x: i32| 0 <= #[trigger] (x & 0xF) <= 0xF,
{
}

} // verus!
