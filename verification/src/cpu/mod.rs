//! The 65816 CPU.
//!
//! One `impl Cpu` split across files by instruction family:
//!
//! - `spec` -- the instruction set's semantics as spec functions, over the
//!   memory bus's own state machine (`MemoryBus::read_spec`/`write_spec`).
//! - `base` -- construction, the fetch/execute step, memory access, and the
//!   register-width/flag bookkeeping every instruction goes through.
//! - `addressing` -- the addressing modes and stack addressing.
//! - `alu` -- the arithmetic, logic, compare and bit-test cores.
//! - `families` -- the shared shapes of the load/ALU, store and
//!   read-modify-write instructions across addressing modes.
//! - `ops` -- the per-opcode handlers.
//! - `control` -- branches, jumps, calls, stack, interrupts, block moves.
//! - `dispatch` -- the 256-arm opcode `match`.
//!
//! The M and X flags switch the accumulator and index registers between 8
//! and 16 bits at runtime; emulation mode forces both to 8.
use vstd::prelude::*;

pub mod spec;
pub mod base;
pub mod addressing;
pub mod alu;
pub mod families;
pub mod ops;
pub mod control;
pub mod dispatch;
pub mod snapshot;
pub mod widths;

verus! {

/// The processor status register P.
#[derive(Debug, Clone, Copy, PartialEq, Eq)]
pub struct CpuFlags(pub u8);

/// Carry (C).
pub const FLAG_C: u8 = 0x01;
/// Zero (Z).
pub const FLAG_Z: u8 = 0x02;
/// IRQ disable (I).
pub const FLAG_I: u8 = 0x04;
/// Decimal mode (D).
pub const FLAG_D: u8 = 0x08;
/// 8-bit index registers (X).
pub const FLAG_X: u8 = 0x10;
/// 8-bit memory/accumulator (M).
pub const FLAG_M: u8 = 0x20;
/// Overflow (V).
pub const FLAG_V: u8 = 0x40;
/// Negative (N).
pub const FLAG_N: u8 = 0x80;

impl CpuFlags {
    pub const CARRY: u8 = FLAG_C;
    pub const ZERO: u8 = FLAG_Z;
    pub const IRQ_DISABLE: u8 = FLAG_I;
    pub const DECIMAL: u8 = FLAG_D;
    pub const INDEX_8BIT: u8 = FLAG_X;
    pub const MEMORY_8BIT: u8 = FLAG_M;
    pub const OVERFLOW: u8 = FLAG_V;
    pub const NEGATIVE: u8 = FLAG_N;

    /// No flag set.
    pub fn empty() -> (r: CpuFlags)
        ensures
            r.0 == 0,
    {
        CpuFlags(0)
    }

    /// Every bit pattern is a valid status register.
    pub fn from_bits_truncate(bits: u8) -> (r: CpuFlags)
        ensures
            r.0 == bits,
    {
        CpuFlags(bits)
    }

    /// The raw status byte.
    pub fn bits(&self) -> (r: u8)
        ensures
            r == self.0,
    {
        self.0
    }

    /// Whether every flag in the mask `other` is set.
    pub fn contains(&self, other: u8) -> (r: bool)
        ensures
            r == (self.0 & other == other),
    {
        (self.0 & other) == other
    }

    /// Sets the flags of `other`.
    pub fn insert(&mut self, other: u8)
        ensures
            final(self).0 == old(self).0 | other,
    {
        self.0 = self.0 | other;
    }

    /// Clears the flags of `other`.
    pub fn remove(&mut self, other: u8)
        ensures
            final(self).0 == old(self).0 & !other,
    {
        self.0 = self.0 & !other;
    }
}

/// The 65816 register file.
pub struct Cpu {
    pub a: u16,
    pub x: u16,
    pub y: u16,
    pub pc: u16,
    pub pb: u8,
    pub sp: u16,
    pub db: u8,
    pub d: u16,
    pub p: CpuFlags,
    pub e: bool,
    pub cycles: u64,
    /// Set by WAI (0xCB) or STP (0xDB): suspends instruction fetch until
    /// `nmi()` (or `irq()`/`wake_if_interrupt_pending()` on an asserted
    /// IRQ line) wakes the CPU.
    pub waiting_for_interrupt: bool,
}

} // verus!
