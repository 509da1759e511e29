//! The shapes shared by most of the instruction set: an operand read
//! (loads, ALU, compares, BIT), a register store, and a read-modify-write
//! of memory, each across the addressing modes. An instruction of these
//! families is its kind, its addressing mode and its cycle cost.
use vstd::prelude::*;
use super::{Cpu, FLAG_M, FLAG_X, FLAG_Z, FLAG_C};
use super::spec::{bind, flag_on, set_flag, nz_w, merge_a, read_mem, write_mem};
use super::addressing::{Mode, imm_spec, ea_spec};
use super::alu::{Logic, Shift, logic_spec, adc_spec, sbc_spec, compare_spec, bit_spec, bit_imm_spec, shift_spec};
use crate::bus::{BusResult, MemoryBus};

verus! {

/// Instructions that read an operand and update registers from it.
#[derive(Debug, Clone, Copy, PartialEq, Eq, Structural)]
pub enum ReadKind {
    Lda,
    Ldx,
    Ldy,
    Ora,
    And,
    Eor,
    Adc,
    Sbc,
    Cmp,
    Cpx,
    Cpy,
    Bit,
}

/// The register a store writes.
#[derive(Debug, Clone, Copy, PartialEq, Eq, Structural)]
pub enum StoreReg {
    A,
    X,
    Y,
    Zero,
}

/// Read-modify-write instructions on memory.
#[derive(Debug, Clone, Copy, PartialEq, Eq, Structural)]
pub enum RmwKind {
    Asl,
    Lsr,
    Rol,
    Ror,
    Inc,
    Dec,
    Tsb,
    Trb,
}

/// Whether an instruction of this kind works at 16 bits: the index width
/// (X flag) for X/Y loads and compares, the accumulator width (M) otherwise.
pub open spec fn read_wide(c: Cpu, k: ReadKind) -> bool {
    match k {
        ReadKind::Ldx | ReadKind::Ldy | ReadKind::Cpx | ReadKind::Cpy => !flag_on(c.p, FLAG_X),
        _ => !flag_on(c.p, FLAG_M),
    }
}

pub open spec fn store_wide(c: Cpu, r: StoreReg) -> bool {
    match r {
        StoreReg::X | StoreReg::Y => !flag_on(c.p, FLAG_X),
        _ => !flag_on(c.p, FLAG_M),
    }
}

pub open spec fn store_value(c: Cpu, r: StoreReg) -> u16 {
    match r {
        StoreReg::A => c.a,
        StoreReg::X => c.x,
        StoreReg::Y => c.y,
        StoreReg::Zero => 0,
    }
}

/// The cost of a family instruction: the 16- or 8-bit cycle count, plus
/// one when it uses direct page and the low byte of D is not zero.
pub open spec fn family_cycles(d: u16, wide: bool, c16: u8, c8: u8, dp_extra: bool) -> u8 {
    ((if wide { c16 } else { c8 }) + (if dp_extra && (d & 0xFF) != 0 { 1u8 } else { 0u8 })) as u8
}

/// The operand of an instruction: immediate, or read from its effective
/// address at the given width.
pub open spec fn operand_spec<B: MemoryBus>(c: Cpu, b: B, mode: Mode, wide: bool) -> (Cpu, B, BusResult<u16>) {
    match mode {
        Mode::Imm => imm_spec(c, b, wide),
        _ => bind(ea_spec(c, b, mode), |c1: Cpu, b1: B, addr: u32| read_mem(c1, b1, addr, wide)),
    }
}

/// The register effect of a read-family instruction given its operand.
pub open spec fn apply_read(c: Cpu, k: ReadKind, mode: Mode, v: u16, wide: bool) -> Cpu {
    match k {
        ReadKind::Lda => Cpu { a: merge_a(c.a, v, wide), p: nz_w(c.p, v, wide), ..c },
        ReadKind::Ldx => Cpu { x: v, p: nz_w(c.p, v, wide), ..c },
        ReadKind::Ldy => Cpu { y: v, p: nz_w(c.p, v, wide), ..c },
        ReadKind::Ora => logic_spec(c, Logic::Ora, v, wide),
        ReadKind::And => logic_spec(c, Logic::And, v, wide),
        ReadKind::Eor => logic_spec(c, Logic::Eor, v, wide),
        ReadKind::Adc => adc_spec(c, v, wide),
        ReadKind::Sbc => sbc_spec(c, v, wide),
        ReadKind::Cmp => compare_spec(c, c.a, v, wide),
        ReadKind::Cpx => compare_spec(c, c.x, v, wide),
        ReadKind::Cpy => compare_spec(c, c.y, v, wide),
        ReadKind::Bit => if mode == Mode::Imm {
            bit_imm_spec(c, v, wide)
        } else {
            bit_spec(c, v, wide)
        },
    }
}

/// A read-family instruction: fetch the operand, apply it, report cycles.
pub open spec fn read_op_spec<B: MemoryBus>(c: Cpu, b: B, k: ReadKind, mode: Mode, c16: u8, c8: u8, dp_extra: bool) -> (Cpu, B, BusResult<u8>) {
    let wide = read_wide(c, k);
    bind(operand_spec(c, b, mode, wide), |c1: Cpu, b1: B, v: u16| {
        let c2 = apply_read(c1, k, mode, v, wide);
        (c2, b1, Ok(family_cycles(c2.d, wide, c16, c8, dp_extra)))
    })
}

/// A store: write the register (or zero) to the effective address.
pub open spec fn store_op_spec<B: MemoryBus>(c: Cpu, b: B, r: StoreReg, mode: Mode, c16: u8, c8: u8, dp_extra: bool) -> (Cpu, B, BusResult<u8>) {
    let wide = store_wide(c, r);
    bind(ea_spec(c, b, mode), |c1: Cpu, b1: B, addr: u32|
        bind(write_mem(c1, b1, addr, store_value(c1, r), wide), |c2: Cpu, b2: B, u: ()|
            (c2, b2, Ok(family_cycles(c2.d, wide, c16, c8, dp_extra)))))
}

pub open spec fn rmw_shift(k: RmwKind) -> Shift {
    match k {
        RmwKind::Lsr => Shift::Lsr,
        RmwKind::Rol => Shift::Rol,
        RmwKind::Ror => Shift::Ror,
        _ => Shift::Asl,
    }
}

/// The value a read-modify-write stores back, with the flags it sets
/// before the write (C for shifts, Z for TSB/TRB).
pub open spec fn rmw_compute(c: Cpu, k: RmwKind, v: u16, wide: bool) -> (Cpu, u16) {
    match k {
        RmwKind::Inc => (c, v.wrapping_add(1)),
        RmwKind::Dec => (c, v.wrapping_sub(1)),
        RmwKind::Tsb | RmwKind::Trb => {
            let test = if wide { v & c.a } else { (v & 0xFF) & (c.a & 0xFF) };
            let r = if k == RmwKind::Tsb {
                if wide { v | c.a } else { (v & 0xFF00) | (((v as u8) | (c.a as u8)) as u16) }
            } else {
                if wide { v & !c.a } else { (v & 0xFF00) | (((v as u8) & !(c.a as u8)) as u16) }
            };
            (Cpu { p: set_flag(c.p, FLAG_Z, test == 0), ..c }, r)
        },
        _ => {
            let (r, cout) = shift_spec(rmw_shift(k), v, wide, flag_on(c.p, FLAG_C));
            (Cpu { p: set_flag(c.p, FLAG_C, cout), ..c }, r)
        },
    }
}

/// The flags a read-modify-write sets after the write: N and Z from the
/// stored value, except for TSB/TRB.
pub open spec fn rmw_after(c: Cpu, k: RmwKind, r: u16, wide: bool) -> Cpu {
    if k == RmwKind::Tsb || k == RmwKind::Trb {
        c
    } else {
        Cpu { p: nz_w(c.p, r, wide), ..c }
    }
}

/// A read-modify-write of memory at the accumulator width.
pub open spec fn rmw_op_spec<B: MemoryBus>(c: Cpu, b: B, k: RmwKind, mode: Mode, c16: u8, c8: u8, dp_extra: bool) -> (Cpu, B, BusResult<u8>) {
    let wide = !flag_on(c.p, FLAG_M);
    bind(ea_spec(c, b, mode), |c1: Cpu, b1: B, addr: u32|
        bind(read_mem(c1, b1, addr, wide), |c2: Cpu, b2: B, v: u16| {
            let c3 = rmw_compute(c2, k, v, wide).0;
            let r = rmw_compute(c2, k, v, wide).1;
            bind(write_mem(c3, b2, addr, r, wide), |c4: Cpu, b4: B, u: ()| {
                let c5 = rmw_after(c4, k, r, wide);
                (c5, b4, Ok(family_cycles(c5.d, wide, c16, c8, dp_extra)))
            })
        }))
}

impl Cpu {
    fn family_cost(&self, is_16bit: bool, c16: u8, c8: u8, dp_extra: bool) -> (r: u8)
        requires
            c16 < 255,
            c8 < 255,
        ensures
            r == family_cycles(self.d, is_16bit, c16, c8, dp_extra),
    {
        let extra: u8 = if dp_extra && (self.d & 0xFF) != 0 { 1 } else { 0 };
        if is_16bit { c16 + extra } else { c8 + extra }
    }

    /// The operand of an instruction at the given width.
    pub fn read_operand<B: MemoryBus>(&mut self, bus: &mut B, mode: Mode, is_16bit: bool) -> (r: BusResult<u16>)
        ensures
            (*final(self), *final(bus), r) == operand_spec(*old(self), *old(bus), mode, is_16bit),
    {
        match mode {
            Mode::Imm => self.addr_immediate(bus, is_16bit),
            _ => {
                let addr = self.effective_address(bus, mode)?;
                self.read_memory(bus, addr, is_16bit)
            },
        }
    }

    /// LDA/LDX/LDY, ORA/AND/EOR, ADC/SBC, CMP/CPX/CPY and BIT in any
    /// addressing mode, returning the cycle cost.
    pub fn read_op<B: MemoryBus>(&mut self, bus: &mut B, k: ReadKind, mode: Mode, c16: u8, c8: u8, dp_extra: bool) -> (r: BusResult<u8>)
        requires
            c16 < 255,
            c8 < 255,
        ensures
            (*final(self), *final(bus), r) == read_op_spec(*old(self), *old(bus), k, mode, c16, c8, dp_extra),
    {
        let is_16bit = match k {
            ReadKind::Ldx | ReadKind::Ldy | ReadKind::Cpx | ReadKind::Cpy => !self.p.contains(FLAG_X),
            _ => !self.p.contains(FLAG_M),
        };
        let value = self.read_operand(bus, mode, is_16bit)?;
        match k {
            ReadKind::Lda => {
                self.set_a(value, is_16bit);
                self.update_nz_flags_mem(value, is_16bit);
            },
            ReadKind::Ldx => {
                self.x = value;
                self.update_nz_flags_mem(value, is_16bit);
            },
            ReadKind::Ldy => {
                self.y = value;
                self.update_nz_flags_mem(value, is_16bit);
            },
            ReadKind::Ora => self.ora_into_a(value, is_16bit),
            ReadKind::And => self.and_into_a(value, is_16bit),
            ReadKind::Eor => self.eor_into_a(value, is_16bit),
            ReadKind::Adc => self.adc_binary(value, is_16bit),
            ReadKind::Sbc => self.sbc_binary(value, is_16bit),
            ReadKind::Cmp => self.compare(self.a, value, is_16bit),
            ReadKind::Cpx => self.compare(self.x, value, is_16bit),
            ReadKind::Cpy => self.compare(self.y, value, is_16bit),
            ReadKind::Bit => {
                if mode == Mode::Imm {
                    self.bit_test_immediate(value, is_16bit);
                } else {
                    self.bit_test(value, is_16bit);
                }
            },
        }
        Ok(self.family_cost(is_16bit, c16, c8, dp_extra))
    }

    /// STA/STX/STY/STZ in any addressing mode, returning the cycle cost.
    pub fn store_op<B: MemoryBus>(&mut self, bus: &mut B, reg: StoreReg, mode: Mode, c16: u8, c8: u8, dp_extra: bool) -> (r: BusResult<u8>)
        requires
            c16 < 255,
            c8 < 255,
        ensures
            (*final(self), *final(bus), r) == store_op_spec(*old(self), *old(bus), reg, mode, c16, c8, dp_extra),
    {
        let is_16bit = match reg {
            StoreReg::X | StoreReg::Y => !self.p.contains(FLAG_X),
            _ => !self.p.contains(FLAG_M),
        };
        let addr = self.effective_address(bus, mode)?;
        let value = match reg {
            StoreReg::A => self.a,
            StoreReg::X => self.x,
            StoreReg::Y => self.y,
            StoreReg::Zero => 0,
        };
        self.write_memory(bus, addr, value, is_16bit)?;
        Ok(self.family_cost(is_16bit, c16, c8, dp_extra))
    }

    /// ASL/LSR/ROL/ROR, INC/DEC and TSB/TRB on memory in any addressing
    /// mode, returning the cycle cost.
    pub fn rmw_op<B: MemoryBus>(&mut self, bus: &mut B, k: RmwKind, mode: Mode, c16: u8, c8: u8, dp_extra: bool) -> (r: BusResult<u8>)
        requires
            c16 < 255,
            c8 < 255,
        ensures
            (*final(self), *final(bus), r) == rmw_op_spec(*old(self), *old(bus), k, mode, c16, c8, dp_extra),
    {
        let is_16bit = !self.p.contains(FLAG_M);
        let addr = self.effective_address(bus, mode)?;
        let value = self.read_memory(bus, addr, is_16bit)?;
        let result = match k {
            RmwKind::Inc => value.wrapping_add(1),
            RmwKind::Dec => value.wrapping_sub(1),
            RmwKind::Tsb | RmwKind::Trb => {
                let test = if is_16bit { value & self.a } else { (value & 0xFF) & (self.a & 0xFF) };
                if test == 0 {
                    self.p.insert(FLAG_Z);
                } else {
                    self.p.remove(FLAG_Z);
                }
                if k == RmwKind::Tsb {
                    if is_16bit { value | self.a } else { (value & 0xFF00) | (((value as u8) | (self.a as u8)) as u16) }
                } else {
                    if is_16bit { value & !self.a } else { (value & 0xFF00) | (((value as u8) & !(self.a as u8)) as u16) }
                }
            },
            _ => {
                let shift = match k {
                    RmwKind::Lsr => Shift::Lsr,
                    RmwKind::Rol => Shift::Rol,
                    RmwKind::Ror => Shift::Ror,
                    _ => Shift::Asl,
                };
                let (r, carry) = self.shift_compute(shift, value, is_16bit);
                if carry {
                    self.p.insert(FLAG_C);
                } else {
                    self.p.remove(FLAG_C);
                }
                r
            },
        };
        self.write_memory(bus, addr, result, is_16bit)?;
        if k != RmwKind::Tsb && k != RmwKind::Trb {
            self.update_nz_flags_mem(result, is_16bit);
        }
        Ok(self.family_cost(is_16bit, c16, c8, dp_extra))
    }
}

} // verus!
