//! The opcode dispatch, the fetch/execute step and reset.
//!
//! One exhaustive `match` over all 256 opcodes, in the specification as in
//! the code: with no wildcard arm the compiler checks that every opcode is
//! handled, and Verus checks that each is handled as its specification says.
use vstd::prelude::*;
use super::{Cpu, CpuFlags, FLAG_C, FLAG_I, FLAG_M, FLAG_N, FLAG_V, FLAG_X, FLAG_Z};
use super::spec::{bind, flag_on, fetch8, read8, word};
use super::addressing::Mode;
use super::families::{ReadKind, StoreReg, RmwKind, read_op_spec, store_op_spec, rmw_op_spec};
use super::ops::{RegOp, reg_op_spec, reg_op_cycles};
use super::control::{PushReg, PullReg, push_op_spec, pull_op_spec, pea_spec, pei_spec, per_spec, rep_spec, sep_spec,
    wdm_spec, branch_spec, brl_spec, jmp_abs_spec, jmp_ind_spec, jmp_ix_spec, jml_spec, jml_ind_spec, jsr_abs_spec,
    jsr_ix_spec, jsl_spec, rts_spec, rtl_spec, rti_spec, soft_interrupt_spec, move_op_spec};
use crate::bus::{BusResult, MemoryBus};

verus! {

/// Every opcode but the block moves, with its cycle cost.
pub open spec fn base_op_spec<B: MemoryBus>(c: Cpu, b: B, opcode: u8) -> (Cpu, B, BusResult<u8>) {
    match opcode {
        0x00 => soft_interrupt_spec(c, b, 0xFFE6, 0xFFFE),
        0x01 => read_op_spec(c, b, ReadKind::Ora, Mode::DpIndX, 7, 6, false),
        0x02 => soft_interrupt_spec(c, b, 0xFFE4, 0xFFF4),
        0x03 => read_op_spec(c, b, ReadKind::Ora, Mode::Sr, 5, 4, false),
        0x04 => rmw_op_spec(c, b, RmwKind::Tsb, Mode::Dp, 7, 5, true),
        0x05 => read_op_spec(c, b, ReadKind::Ora, Mode::Dp, 4, 3, false),
        0x06 => rmw_op_spec(c, b, RmwKind::Asl, Mode::Dp, 7, 5, false),
        0x07 => read_op_spec(c, b, ReadKind::Ora, Mode::DpIndLong, 7, 6, false),
        0x08 => push_op_spec(c, b, PushReg::P),
        0x09 => read_op_spec(c, b, ReadKind::Ora, Mode::Imm, 3, 2, false),
        0x0A => (reg_op_spec(c, RegOp::AslA), b, Ok(reg_op_cycles(RegOp::AslA))),
        0x0B => push_op_spec(c, b, PushReg::D),
        0x0C => rmw_op_spec(c, b, RmwKind::Tsb, Mode::Abs, 8, 6, false),
        0x0D => read_op_spec(c, b, ReadKind::Ora, Mode::Abs, 4, 3, false),
        0x0E => rmw_op_spec(c, b, RmwKind::Asl, Mode::Abs, 7, 5, false),
        0x0F => read_op_spec(c, b, ReadKind::Ora, Mode::Long, 6, 5, false),
        0x10 => branch_spec(c, b, !flag_on(c.p, FLAG_N)),
        0x11 => read_op_spec(c, b, ReadKind::Ora, Mode::DpIndY, 7, 6, false),
        0x12 => read_op_spec(c, b, ReadKind::Ora, Mode::DpInd, 6, 5, false),
        0x13 => read_op_spec(c, b, ReadKind::Ora, Mode::SrIndY, 8, 7, false),
        0x14 => rmw_op_spec(c, b, RmwKind::Trb, Mode::Dp, 7, 5, true),
        0x15 => read_op_spec(c, b, ReadKind::Ora, Mode::DpX, 5, 4, false),
        0x16 => rmw_op_spec(c, b, RmwKind::Asl, Mode::DpX, 8, 6, false),
        0x17 => read_op_spec(c, b, ReadKind::Ora, Mode::DpIndLongY, 7, 6, false),
        0x18 => (reg_op_spec(c, RegOp::Clc), b, Ok(reg_op_cycles(RegOp::Clc))),
        0x19 => read_op_spec(c, b, ReadKind::Ora, Mode::AbsY, 6, 5, false),
        0x1A => (reg_op_spec(c, RegOp::IncA), b, Ok(reg_op_cycles(RegOp::IncA))),
        0x1B => (reg_op_spec(c, RegOp::Tcs), b, Ok(reg_op_cycles(RegOp::Tcs))),
        0x1C => rmw_op_spec(c, b, RmwKind::Trb, Mode::Abs, 8, 6, false),
        0x1D => read_op_spec(c, b, ReadKind::Ora, Mode::AbsX, 6, 5, false),
        0x1E => rmw_op_spec(c, b, RmwKind::Asl, Mode::AbsX, 9, 7, false),
        0x1F => read_op_spec(c, b, ReadKind::Ora, Mode::LongX, 6, 5, false),
        0x20 => jsr_abs_spec(c, b),
        0x21 => read_op_spec(c, b, ReadKind::And, Mode::DpIndX, 7, 6, false),
        0x22 => jsl_spec(c, b),
        0x23 => read_op_spec(c, b, ReadKind::And, Mode::Sr, 5, 4, false),
        0x24 => read_op_spec(c, b, ReadKind::Bit, Mode::Dp, 4, 3, false),
        0x25 => read_op_spec(c, b, ReadKind::And, Mode::Dp, 4, 3, false),
        0x26 => rmw_op_spec(c, b, RmwKind::Rol, Mode::Dp, 7, 5, false),
        0x27 => read_op_spec(c, b, ReadKind::And, Mode::DpIndLong, 7, 6, false),
        0x28 => pull_op_spec(c, b, PullReg::P),
        0x29 => read_op_spec(c, b, ReadKind::And, Mode::Imm, 3, 2, false),
        0x2A => (reg_op_spec(c, RegOp::RolA), b, Ok(reg_op_cycles(RegOp::RolA))),
        0x2B => pull_op_spec(c, b, PullReg::D),
        0x2C => read_op_spec(c, b, ReadKind::Bit, Mode::Abs, 4, 3, false),
        0x2D => read_op_spec(c, b, ReadKind::And, Mode::Abs, 4, 3, false),
        0x2E => rmw_op_spec(c, b, RmwKind::Rol, Mode::Abs, 7, 5, false),
        0x2F => read_op_spec(c, b, ReadKind::And, Mode::Long, 6, 5, false),
        0x30 => branch_spec(c, b, flag_on(c.p, FLAG_N)),
        0x31 => read_op_spec(c, b, ReadKind::And, Mode::DpIndY, 7, 6, false),
        0x32 => read_op_spec(c, b, ReadKind::And, Mode::DpInd, 6, 5, false),
        0x33 => read_op_spec(c, b, ReadKind::And, Mode::SrIndY, 8, 7, false),
        0x34 => read_op_spec(c, b, ReadKind::Bit, Mode::DpX, 5, 4, true),
        0x35 => read_op_spec(c, b, ReadKind::And, Mode::DpX, 5, 4, false),
        0x36 => rmw_op_spec(c, b, RmwKind::Rol, Mode::DpX, 8, 6, false),
        0x37 => read_op_spec(c, b, ReadKind::And, Mode::DpIndLongY, 7, 6, false),
        0x38 => (reg_op_spec(c, RegOp::Sec), b, Ok(reg_op_cycles(RegOp::Sec))),
        0x39 => read_op_spec(c, b, ReadKind::And, Mode::AbsY, 6, 5, false),
        0x3A => (reg_op_spec(c, RegOp::DecA), b, Ok(reg_op_cycles(RegOp::DecA))),
        0x3B => (reg_op_spec(c, RegOp::Tsc), b, Ok(reg_op_cycles(RegOp::Tsc))),
        0x3C => read_op_spec(c, b, ReadKind::Bit, Mode::AbsX, 5, 4, false),
        0x3D => read_op_spec(c, b, ReadKind::And, Mode::AbsX, 6, 5, false),
        0x3E => rmw_op_spec(c, b, RmwKind::Rol, Mode::AbsX, 9, 7, false),
        0x3F => read_op_spec(c, b, ReadKind::And, Mode::LongX, 6, 5, false),
        0x40 => rti_spec(c, b),
        0x41 => read_op_spec(c, b, ReadKind::Eor, Mode::DpIndX, 7, 6, false),
        0x42 => wdm_spec(c, b),
        0x43 => read_op_spec(c, b, ReadKind::Eor, Mode::Sr, 5, 4, false),
        0x44 => (c, b, Ok(0u8)),
        0x45 => read_op_spec(c, b, ReadKind::Eor, Mode::Dp, 4, 3, false),
        0x46 => rmw_op_spec(c, b, RmwKind::Lsr, Mode::Dp, 7, 5, false),
        0x47 => read_op_spec(c, b, ReadKind::Eor, Mode::DpIndLong, 7, 6, false),
        0x48 => push_op_spec(c, b, PushReg::A),
        0x49 => read_op_spec(c, b, ReadKind::Eor, Mode::Imm, 3, 2, false),
        0x4A => (reg_op_spec(c, RegOp::LsrA), b, Ok(reg_op_cycles(RegOp::LsrA))),
        0x4B => push_op_spec(c, b, PushReg::Pb),
        0x4C => jmp_abs_spec(c, b),
        0x4D => read_op_spec(c, b, ReadKind::Eor, Mode::Abs, 4, 3, false),
        0x4E => rmw_op_spec(c, b, RmwKind::Lsr, Mode::Abs, 7, 5, false),
        0x4F => read_op_spec(c, b, ReadKind::Eor, Mode::Long, 6, 5, false),
        0x50 => branch_spec(c, b, !flag_on(c.p, FLAG_V)),
        0x51 => read_op_spec(c, b, ReadKind::Eor, Mode::DpIndY, 7, 6, false),
        0x52 => read_op_spec(c, b, ReadKind::Eor, Mode::DpInd, 6, 5, false),
        0x53 => read_op_spec(c, b, ReadKind::Eor, Mode::SrIndY, 8, 7, false),
        0x54 => (c, b, Ok(0u8)),
        0x55 => read_op_spec(c, b, ReadKind::Eor, Mode::DpX, 5, 4, false),
        0x56 => rmw_op_spec(c, b, RmwKind::Lsr, Mode::DpX, 8, 6, false),
        0x57 => read_op_spec(c, b, ReadKind::Eor, Mode::DpIndLongY, 7, 6, false),
        0x58 => (reg_op_spec(c, RegOp::Cli), b, Ok(reg_op_cycles(RegOp::Cli))),
        0x59 => read_op_spec(c, b, ReadKind::Eor, Mode::AbsY, 6, 5, false),
        0x5A => push_op_spec(c, b, PushReg::Y),
        0x5B => (reg_op_spec(c, RegOp::Tcd), b, Ok(reg_op_cycles(RegOp::Tcd))),
        0x5C => jml_spec(c, b),
        0x5D => read_op_spec(c, b, ReadKind::Eor, Mode::AbsX, 6, 5, false),
        0x5E => rmw_op_spec(c, b, RmwKind::Lsr, Mode::AbsX, 9, 7, false),
        0x5F => read_op_spec(c, b, ReadKind::Eor, Mode::LongX, 6, 5, false),
        0x60 => rts_spec(c, b),
        0x61 => read_op_spec(c, b, ReadKind::Adc, Mode::DpIndX, 7, 6, false),
        0x62 => per_spec(c, b),
        0x63 => read_op_spec(c, b, ReadKind::Adc, Mode::Sr, 5, 4, false),
        0x64 => store_op_spec(c, b, StoreReg::Zero, Mode::Dp, 4, 3, true),
        0x65 => read_op_spec(c, b, ReadKind::Adc, Mode::Dp, 4, 3, true),
        0x66 => rmw_op_spec(c, b, RmwKind::Ror, Mode::Dp, 7, 5, false),
        0x67 => read_op_spec(c, b, ReadKind::Adc, Mode::DpIndLong, 7, 6, false),
        0x68 => pull_op_spec(c, b, PullReg::A),
        0x69 => read_op_spec(c, b, ReadKind::Adc, Mode::Imm, 3, 2, false),
        0x6A => (reg_op_spec(c, RegOp::RorA), b, Ok(reg_op_cycles(RegOp::RorA))),
        0x6B => rtl_spec(c, b),
        0x6C => jmp_ind_spec(c, b),
        0x6D => read_op_spec(c, b, ReadKind::Adc, Mode::Abs, 5, 4, false),
        0x6E => rmw_op_spec(c, b, RmwKind::Ror, Mode::Abs, 7, 5, false),
        0x6F => read_op_spec(c, b, ReadKind::Adc, Mode::Long, 6, 5, false),
        0x70 => branch_spec(c, b, flag_on(c.p, FLAG_V)),
        0x71 => read_op_spec(c, b, ReadKind::Adc, Mode::DpIndY, 7, 6, false),
        0x72 => read_op_spec(c, b, ReadKind::Adc, Mode::DpInd, 6, 5, false),
        0x73 => read_op_spec(c, b, ReadKind::Adc, Mode::SrIndY, 8, 7, false),
        0x74 => store_op_spec(c, b, StoreReg::Zero, Mode::DpX, 5, 4, true),
        0x75 => read_op_spec(c, b, ReadKind::Adc, Mode::DpX, 5, 4, false),
        0x76 => rmw_op_spec(c, b, RmwKind::Ror, Mode::DpX, 8, 6, false),
        0x77 => read_op_spec(c, b, ReadKind::Adc, Mode::DpIndLongY, 7, 6, false),
        0x78 => (reg_op_spec(c, RegOp::Sei), b, Ok(reg_op_cycles(RegOp::Sei))),
        0x79 => read_op_spec(c, b, ReadKind::Adc, Mode::AbsY, 6, 5, false),
        0x7A => pull_op_spec(c, b, PullReg::Y),
        0x7B => (reg_op_spec(c, RegOp::Tdc), b, Ok(reg_op_cycles(RegOp::Tdc))),
        0x7C => jmp_ix_spec(c, b),
        0x7D => read_op_spec(c, b, ReadKind::Adc, Mode::AbsX, 6, 5, false),
        0x7E => rmw_op_spec(c, b, RmwKind::Ror, Mode::AbsX, 9, 7, false),
        0x7F => read_op_spec(c, b, ReadKind::Adc, Mode::LongX, 6, 5, false),
        0x80 => branch_spec(c, b, true),
        0x81 => store_op_spec(c, b, StoreReg::A, Mode::DpIndX, 7, 6, false),
        0x82 => brl_spec(c, b),
        0x83 => store_op_spec(c, b, StoreReg::A, Mode::Sr, 5, 4, false),
        0x84 => store_op_spec(c, b, StoreReg::Y, Mode::Dp, 4, 3, true),
        0x85 => store_op_spec(c, b, StoreReg::A, Mode::Dp, 4, 3, true),
        0x86 => store_op_spec(c, b, StoreReg::X, Mode::Dp, 4, 3, true),
        0x87 => store_op_spec(c, b, StoreReg::A, Mode::DpIndLong, 7, 6, false),
        0x88 => (reg_op_spec(c, RegOp::Dey), b, Ok(reg_op_cycles(RegOp::Dey))),
        0x89 => read_op_spec(c, b, ReadKind::Bit, Mode::Imm, 3, 2, false),
        0x8A => (reg_op_spec(c, RegOp::Txa), b, Ok(reg_op_cycles(RegOp::Txa))),
        0x8B => push_op_spec(c, b, PushReg::Db),
        0x8C => store_op_spec(c, b, StoreReg::Y, Mode::Abs, 5, 4, false),
        0x8D => store_op_spec(c, b, StoreReg::A, Mode::Abs, 5, 4, false),
        0x8E => store_op_spec(c, b, StoreReg::X, Mode::Abs, 5, 4, false),
        0x8F => store_op_spec(c, b, StoreReg::A, Mode::Long, 6, 5, false),
        0x90 => branch_spec(c, b, !flag_on(c.p, FLAG_C)),
        0x91 => store_op_spec(c, b, StoreReg::A, Mode::DpIndY, 7, 6, false),
        0x92 => store_op_spec(c, b, StoreReg::A, Mode::DpInd, 6, 5, false),
        0x93 => store_op_spec(c, b, StoreReg::A, Mode::SrIndY, 8, 7, false),
        0x94 => store_op_spec(c, b, StoreReg::Y, Mode::DpX, 5, 4, true),
        0x95 => store_op_spec(c, b, StoreReg::A, Mode::DpX, 5, 4, true),
        0x96 => store_op_spec(c, b, StoreReg::X, Mode::DpY, 5, 4, true),
        0x97 => store_op_spec(c, b, StoreReg::A, Mode::DpIndLongY, 7, 6, false),
        0x98 => (reg_op_spec(c, RegOp::Tya), b, Ok(reg_op_cycles(RegOp::Tya))),
        0x99 => store_op_spec(c, b, StoreReg::A, Mode::AbsY, 6, 5, false),
        0x9A => (reg_op_spec(c, RegOp::Txs), b, Ok(reg_op_cycles(RegOp::Txs))),
        0x9B => (reg_op_spec(c, RegOp::Txy), b, Ok(reg_op_cycles(RegOp::Txy))),
        0x9C => store_op_spec(c, b, StoreReg::Zero, Mode::Abs, 5, 4, false),
        0x9D => store_op_spec(c, b, StoreReg::A, Mode::AbsX, 6, 5, false),
        0x9E => store_op_spec(c, b, StoreReg::Zero, Mode::AbsX, 6, 5, false),
        0x9F => store_op_spec(c, b, StoreReg::A, Mode::LongX, 6, 5, false),
        0xA0 => read_op_spec(c, b, ReadKind::Ldy, Mode::Imm, 3, 2, false),
        0xA1 => read_op_spec(c, b, ReadKind::Lda, Mode::DpIndX, 7, 6, false),
        0xA2 => read_op_spec(c, b, ReadKind::Ldx, Mode::Imm, 3, 2, false),
        0xA3 => read_op_spec(c, b, ReadKind::Lda, Mode::Sr, 5, 4, false),
        0xA4 => read_op_spec(c, b, ReadKind::Ldy, Mode::Dp, 4, 3, true),
        0xA5 => read_op_spec(c, b, ReadKind::Lda, Mode::Dp, 4, 3, true),
        0xA6 => read_op_spec(c, b, ReadKind::Ldx, Mode::Dp, 4, 3, true),
        0xA7 => read_op_spec(c, b, ReadKind::Lda, Mode::DpIndLong, 7, 6, false),
        0xA8 => (reg_op_spec(c, RegOp::Tay), b, Ok(reg_op_cycles(RegOp::Tay))),
        0xA9 => read_op_spec(c, b, ReadKind::Lda, Mode::Imm, 3, 2, false),
        0xAA => (reg_op_spec(c, RegOp::Tax), b, Ok(reg_op_cycles(RegOp::Tax))),
        0xAB => pull_op_spec(c, b, PullReg::Db),
        0xAC => read_op_spec(c, b, ReadKind::Ldy, Mode::Abs, 5, 4, false),
        0xAD => read_op_spec(c, b, ReadKind::Lda, Mode::Abs, 5, 4, false),
        0xAE => read_op_spec(c, b, ReadKind::Ldx, Mode::Abs, 5, 4, false),
        0xAF => read_op_spec(c, b, ReadKind::Lda, Mode::Long, 6, 5, false),
        0xB0 => branch_spec(c, b, flag_on(c.p, FLAG_C)),
        0xB1 => read_op_spec(c, b, ReadKind::Lda, Mode::DpIndY, 7, 6, false),
        0xB2 => read_op_spec(c, b, ReadKind::Lda, Mode::DpInd, 6, 5, false),
        0xB3 => read_op_spec(c, b, ReadKind::Lda, Mode::SrIndY, 8, 7, false),
        0xB4 => read_op_spec(c, b, ReadKind::Ldy, Mode::DpX, 5, 4, true),
        0xB5 => read_op_spec(c, b, ReadKind::Lda, Mode::DpX, 5, 4, true),
        0xB6 => read_op_spec(c, b, ReadKind::Ldx, Mode::DpY, 5, 4, true),
        0xB7 => read_op_spec(c, b, ReadKind::Lda, Mode::DpIndLongY, 7, 6, false),
        0xB8 => (reg_op_spec(c, RegOp::Clv), b, Ok(reg_op_cycles(RegOp::Clv))),
        0xB9 => read_op_spec(c, b, ReadKind::Lda, Mode::AbsY, 6, 5, false),
        0xBA => (reg_op_spec(c, RegOp::Tsx), b, Ok(reg_op_cycles(RegOp::Tsx))),
        0xBB => (reg_op_spec(c, RegOp::Tyx), b, Ok(reg_op_cycles(RegOp::Tyx))),
        0xBC => read_op_spec(c, b, ReadKind::Ldy, Mode::AbsX, 5, 4, false),
        0xBD => read_op_spec(c, b, ReadKind::Lda, Mode::AbsX, 5, 4, false),
        0xBE => read_op_spec(c, b, ReadKind::Ldx, Mode::AbsY, 5, 4, false),
        0xBF => read_op_spec(c, b, ReadKind::Lda, Mode::LongX, 6, 5, false),
        0xC0 => read_op_spec(c, b, ReadKind::Cpy, Mode::Imm, 3, 2, false),
        0xC1 => read_op_spec(c, b, ReadKind::Cmp, Mode::DpIndX, 7, 6, false),
        0xC2 => rep_spec(c, b),
        0xC3 => read_op_spec(c, b, ReadKind::Cmp, Mode::Sr, 5, 4, false),
        0xC4 => read_op_spec(c, b, ReadKind::Cpy, Mode::Dp, 4, 3, false),
        0xC5 => read_op_spec(c, b, ReadKind::Cmp, Mode::Dp, 4, 3, false),
        0xC6 => rmw_op_spec(c, b, RmwKind::Dec, Mode::Dp, 7, 5, false),
        0xC7 => read_op_spec(c, b, ReadKind::Cmp, Mode::DpIndLong, 7, 6, false),
        0xC8 => (reg_op_spec(c, RegOp::Iny), b, Ok(reg_op_cycles(RegOp::Iny))),
        0xC9 => read_op_spec(c, b, ReadKind::Cmp, Mode::Imm, 3, 2, false),
        0xCA => (reg_op_spec(c, RegOp::Dex), b, Ok(reg_op_cycles(RegOp::Dex))),
        0xCB => (reg_op_spec(c, RegOp::Wai), b, Ok(reg_op_cycles(RegOp::Wai))),
        0xCC => read_op_spec(c, b, ReadKind::Cpy, Mode::Abs, 4, 3, false),
        0xCD => read_op_spec(c, b, ReadKind::Cmp, Mode::Abs, 4, 3, false),
        0xCE => rmw_op_spec(c, b, RmwKind::Dec, Mode::Abs, 7, 5, false),
        0xCF => read_op_spec(c, b, ReadKind::Cmp, Mode::Long, 6, 5, false),
        0xD0 => branch_spec(c, b, !flag_on(c.p, FLAG_Z)),
        0xD1 => read_op_spec(c, b, ReadKind::Cmp, Mode::DpIndY, 7, 6, false),
        0xD2 => read_op_spec(c, b, ReadKind::Cmp, Mode::DpInd, 6, 5, false),
        0xD3 => read_op_spec(c, b, ReadKind::Cmp, Mode::SrIndY, 8, 7, false),
        0xD4 => pei_spec(c, b),
        0xD5 => read_op_spec(c, b, ReadKind::Cmp, Mode::DpX, 5, 4, false),
        0xD6 => rmw_op_spec(c, b, RmwKind::Dec, Mode::DpX, 8, 6, false),
        0xD7 => read_op_spec(c, b, ReadKind::Cmp, Mode::DpIndLongY, 7, 6, false),
        0xD8 => (reg_op_spec(c, RegOp::Cld), b, Ok(reg_op_cycles(RegOp::Cld))),
        0xD9 => read_op_spec(c, b, ReadKind::Cmp, Mode::AbsY, 6, 5, false),
        0xDA => push_op_spec(c, b, PushReg::X),
        0xDB => (reg_op_spec(c, RegOp::Wai), b, Ok(reg_op_cycles(RegOp::Wai))),
        0xDC => jml_ind_spec(c, b),
        0xDD => read_op_spec(c, b, ReadKind::Cmp, Mode::AbsX, 6, 5, false),
        0xDE => rmw_op_spec(c, b, RmwKind::Dec, Mode::AbsX, 9, 7, false),
        0xDF => read_op_spec(c, b, ReadKind::Cmp, Mode::LongX, 6, 5, false),
        0xE0 => read_op_spec(c, b, ReadKind::Cpx, Mode::Imm, 3, 2, false),
        0xE1 => read_op_spec(c, b, ReadKind::Sbc, Mode::DpIndX, 7, 6, false),
        0xE2 => sep_spec(c, b),
        0xE3 => read_op_spec(c, b, ReadKind::Sbc, Mode::Sr, 5, 4, false),
        0xE4 => read_op_spec(c, b, ReadKind::Cpx, Mode::Dp, 4, 3, false),
        0xE5 => read_op_spec(c, b, ReadKind::Sbc, Mode::Dp, 4, 3, true),
        0xE6 => rmw_op_spec(c, b, RmwKind::Inc, Mode::Dp, 7, 5, false),
        0xE7 => read_op_spec(c, b, ReadKind::Sbc, Mode::DpIndLong, 7, 6, false),
        0xE8 => (reg_op_spec(c, RegOp::Inx), b, Ok(reg_op_cycles(RegOp::Inx))),
        0xE9 => read_op_spec(c, b, ReadKind::Sbc, Mode::Imm, 3, 2, false),
        0xEA => (reg_op_spec(c, RegOp::Nop), b, Ok(reg_op_cycles(RegOp::Nop))),
        0xEB => (reg_op_spec(c, RegOp::Xba), b, Ok(reg_op_cycles(RegOp::Xba))),
        0xEC => read_op_spec(c, b, ReadKind::Cpx, Mode::Abs, 4, 3, false),
        0xED => read_op_spec(c, b, ReadKind::Sbc, Mode::Abs, 5, 4, false),
        0xEE => rmw_op_spec(c, b, RmwKind::Inc, Mode::Abs, 7, 5, false),
        0xEF => read_op_spec(c, b, ReadKind::Sbc, Mode::Long, 6, 5, false),
        0xF0 => branch_spec(c, b, flag_on(c.p, FLAG_Z)),
        0xF1 => read_op_spec(c, b, ReadKind::Sbc, Mode::DpIndY, 7, 6, false),
        0xF2 => read_op_spec(c, b, ReadKind::Sbc, Mode::DpInd, 6, 5, false),
        0xF3 => read_op_spec(c, b, ReadKind::Sbc, Mode::SrIndY, 8, 7, false),
        0xF4 => pea_spec(c, b),
        0xF5 => read_op_spec(c, b, ReadKind::Sbc, Mode::DpX, 5, 4, false),
        0xF6 => rmw_op_spec(c, b, RmwKind::Inc, Mode::DpX, 8, 6, false),
        0xF7 => read_op_spec(c, b, ReadKind::Sbc, Mode::DpIndLongY, 7, 6, false),
        0xF8 => (reg_op_spec(c, RegOp::Sed), b, Ok(reg_op_cycles(RegOp::Sed))),
        0xF9 => read_op_spec(c, b, ReadKind::Sbc, Mode::AbsY, 6, 5, false),
        0xFA => pull_op_spec(c, b, PullReg::X),
        0xFB => (reg_op_spec(c, RegOp::Xce), b, Ok(reg_op_cycles(RegOp::Xce))),
        0xFC => jsr_ix_spec(c, b),
        0xFD => read_op_spec(c, b, ReadKind::Sbc, Mode::AbsX, 6, 5, false),
        0xFE => rmw_op_spec(c, b, RmwKind::Inc, Mode::AbsX, 9, 7, false),
        0xFF => read_op_spec(c, b, ReadKind::Sbc, Mode::LongX, 6, 5, false),
    }
}

/// One instruction, given its opcode (already fetched): the registers and
/// bus afterwards and the cycles it took. MVN/MVP report their full cost,
/// which can exceed what fits in a byte.
pub open spec fn execute_spec<B: MemoryBus>(c: Cpu, b: B, opcode: u8) -> (Cpu, B, BusResult<u32>) {
    if opcode == 0x54 {
        move_op_spec(c, b, true)
    } else if opcode == 0x44 {
        move_op_spec(c, b, false)
    } else {
        bind(base_op_spec(c, b, opcode), |c1: Cpu, b1: B, n: u8| (c1, b1, Ok(n as u32)))
    }
}

/// One step: while waiting for an interrupt nothing is fetched and the step
/// costs one cycle; otherwise the opcode at PB:PC is fetched and executed.
pub open spec fn step_spec<B: MemoryBus>(c: Cpu, b: B) -> (Cpu, B, BusResult<u32>) {
    if c.waiting_for_interrupt {
        (c, b, Ok(1))
    } else {
        bind(fetch8(c, b), |c1: Cpu, b1: B, opcode: u8| execute_spec(c1, b1, opcode))
    }
}

/// Reset: PC from the vector at $FFFC; emulation mode with 8-bit
/// registers and IRQs masked; A, X, Y, D, DB, PB cleared; the stack moved
/// to page 1 keeping its low byte; the wait latch cleared.
pub open spec fn reset_spec<B: MemoryBus>(c: Cpu, b: B) -> (Cpu, B, BusResult<()>) {
    bind(read8(c, b, 0xFFFC), |c1: Cpu, b1: B, lo: u8|
        bind(read8(c1, b1, 0xFFFD), |c2: Cpu, b2: B, hi: u8|
            (Cpu {
                pc: word(lo, hi),
                pb: 0,
                db: 0,
                d: 0,
                sp: (c2.sp & 0x00FF) | 0x0100,
                p: CpuFlags(FLAG_I | FLAG_M | FLAG_X),
                e: true,
                a: 0,
                x: 0,
                y: 0,
                waiting_for_interrupt: false,
                ..c2
            }, b2, Ok(()))))
}

impl Cpu {
    /// Loads PC from the reset vector and puts the registers in their reset
    /// state.
    pub fn reset<B: MemoryBus>(&mut self, bus: &mut B) -> (r: BusResult<()>)
        ensures
            (*final(self), *final(bus), r) == reset_spec(*old(self), *old(bus)),
    {
        let pc_lo = bus.read_u8(0xFFFC)?;
        let pc_hi = bus.read_u8(0xFFFD)?;
        self.pc = ((pc_hi as u16) << 8) | (pc_lo as u16);
        self.pb = 0;
        self.db = 0;
        self.d = 0;
        self.sp = (self.sp & 0x00FF) | 0x0100;
        self.p = CpuFlags::from_bits_truncate(FLAG_I | FLAG_M | FLAG_X);
        self.e = true;
        self.a = 0;
        self.x = 0;
        self.y = 0;
        self.waiting_for_interrupt = false;
        Ok(())
    }

    /// Fetches and executes one instruction, returning the cycles it took.
    pub fn step<B: MemoryBus>(&mut self, bus: &mut B) -> (r: BusResult<u32>)
        ensures
            (*final(self), *final(bus), r) == step_spec(*old(self), *old(bus)),
    {
        if self.waiting_for_interrupt {
            return Ok(1);
        }
        let opcode = self.fetch_u8(bus)?;
        self.execute(opcode, bus)
    }

    /// Executes one already-fetched opcode.
    #[verifier::rlimit(100)]
    pub fn execute<B: MemoryBus>(&mut self, opcode: u8, bus: &mut B) -> (r: BusResult<u32>)
        ensures
            (*final(self), *final(bus), r) == execute_spec(*old(self), *old(bus), opcode),
    {
        let base: BusResult<u8> = match opcode {
            0x00 => self.op_brk(bus),
            0x01 => self.read_op(bus, ReadKind::Ora, Mode::DpIndX, 7, 6, false),
            0x02 => self.op_cop(bus),
            0x03 => self.read_op(bus, ReadKind::Ora, Mode::Sr, 5, 4, false),
            0x04 => self.rmw_op(bus, RmwKind::Tsb, Mode::Dp, 7, 5, true),
            0x05 => self.read_op(bus, ReadKind::Ora, Mode::Dp, 4, 3, false),
            0x06 => self.rmw_op(bus, RmwKind::Asl, Mode::Dp, 7, 5, false),
            0x07 => self.read_op(bus, ReadKind::Ora, Mode::DpIndLong, 7, 6, false),
            0x08 => self.push_register(bus, PushReg::P),
            0x09 => self.read_op(bus, ReadKind::Ora, Mode::Imm, 3, 2, false),
            0x0A => Ok(self.op_asl_acc()),
            0x0B => self.push_register(bus, PushReg::D),
            0x0C => self.rmw_op(bus, RmwKind::Tsb, Mode::Abs, 8, 6, false),
            0x0D => self.read_op(bus, ReadKind::Ora, Mode::Abs, 4, 3, false),
            0x0E => self.rmw_op(bus, RmwKind::Asl, Mode::Abs, 7, 5, false),
            0x0F => self.read_op(bus, ReadKind::Ora, Mode::Long, 6, 5, false),
            0x10 => self.branch_if(!self.p.contains(FLAG_N), bus),
            0x11 => self.read_op(bus, ReadKind::Ora, Mode::DpIndY, 7, 6, false),
            0x12 => self.read_op(bus, ReadKind::Ora, Mode::DpInd, 6, 5, false),
            0x13 => self.read_op(bus, ReadKind::Ora, Mode::SrIndY, 8, 7, false),
            0x14 => self.rmw_op(bus, RmwKind::Trb, Mode::Dp, 7, 5, true),
            0x15 => self.read_op(bus, ReadKind::Ora, Mode::DpX, 5, 4, false),
            0x16 => self.rmw_op(bus, RmwKind::Asl, Mode::DpX, 8, 6, false),
            0x17 => self.read_op(bus, ReadKind::Ora, Mode::DpIndLongY, 7, 6, false),
            0x18 => Ok(self.op_clc()),
            0x19 => self.read_op(bus, ReadKind::Ora, Mode::AbsY, 6, 5, false),
            0x1A => Ok(self.op_inc_acc()),
            0x1B => Ok(self.op_tcs()),
            0x1C => self.rmw_op(bus, RmwKind::Trb, Mode::Abs, 8, 6, false),
            0x1D => self.read_op(bus, ReadKind::Ora, Mode::AbsX, 6, 5, false),
            0x1E => self.rmw_op(bus, RmwKind::Asl, Mode::AbsX, 9, 7, false),
            0x1F => self.read_op(bus, ReadKind::Ora, Mode::LongX, 6, 5, false),
            0x20 => self.op_jsr_abs(bus),
            0x21 => self.read_op(bus, ReadKind::And, Mode::DpIndX, 7, 6, false),
            0x22 => self.op_jsl(bus),
            0x23 => self.read_op(bus, ReadKind::And, Mode::Sr, 5, 4, false),
            0x24 => self.read_op(bus, ReadKind::Bit, Mode::Dp, 4, 3, false),
            0x25 => self.read_op(bus, ReadKind::And, Mode::Dp, 4, 3, false),
            0x26 => self.rmw_op(bus, RmwKind::Rol, Mode::Dp, 7, 5, false),
            0x27 => self.read_op(bus, ReadKind::And, Mode::DpIndLong, 7, 6, false),
            0x28 => self.pull_register(bus, PullReg::P),
            0x29 => self.read_op(bus, ReadKind::And, Mode::Imm, 3, 2, false),
            0x2A => Ok(self.op_rol_acc()),
            0x2B => self.pull_register(bus, PullReg::D),
            0x2C => self.read_op(bus, ReadKind::Bit, Mode::Abs, 4, 3, false),
            0x2D => self.read_op(bus, ReadKind::And, Mode::Abs, 4, 3, false),
            0x2E => self.rmw_op(bus, RmwKind::Rol, Mode::Abs, 7, 5, false),
            0x2F => self.read_op(bus, ReadKind::And, Mode::Long, 6, 5, false),
            0x30 => self.branch_if(self.p.contains(FLAG_N), bus),
            0x31 => self.read_op(bus, ReadKind::And, Mode::DpIndY, 7, 6, false),
            0x32 => self.read_op(bus, ReadKind::And, Mode::DpInd, 6, 5, false),
            0x33 => self.read_op(bus, ReadKind::And, Mode::SrIndY, 8, 7, false),
            0x34 => self.read_op(bus, ReadKind::Bit, Mode::DpX, 5, 4, true),
            0x35 => self.read_op(bus, ReadKind::And, Mode::DpX, 5, 4, false),
            0x36 => self.rmw_op(bus, RmwKind::Rol, Mode::DpX, 8, 6, false),
            0x37 => self.read_op(bus, ReadKind::And, Mode::DpIndLongY, 7, 6, false),
            0x38 => Ok(self.op_sec()),
            0x39 => self.read_op(bus, ReadKind::And, Mode::AbsY, 6, 5, false),
            0x3A => Ok(self.op_dec_acc()),
            0x3B => Ok(self.op_tsc()),
            0x3C => self.read_op(bus, ReadKind::Bit, Mode::AbsX, 5, 4, false),
            0x3D => self.read_op(bus, ReadKind::And, Mode::AbsX, 6, 5, false),
            0x3E => self.rmw_op(bus, RmwKind::Rol, Mode::AbsX, 9, 7, false),
            0x3F => self.read_op(bus, ReadKind::And, Mode::LongX, 6, 5, false),
            0x40 => self.op_rti(bus),
            0x41 => self.read_op(bus, ReadKind::Eor, Mode::DpIndX, 7, 6, false),
            0x42 => self.op_wdm(bus),
            0x43 => self.read_op(bus, ReadKind::Eor, Mode::Sr, 5, 4, false),
            0x44 => {
                return self.op_mvp(bus);
            },
            0x45 => self.read_op(bus, ReadKind::Eor, Mode::Dp, 4, 3, false),
            0x46 => self.rmw_op(bus, RmwKind::Lsr, Mode::Dp, 7, 5, false),
            0x47 => self.read_op(bus, ReadKind::Eor, Mode::DpIndLong, 7, 6, false),
            0x48 => self.push_register(bus, PushReg::A),
            0x49 => self.read_op(bus, ReadKind::Eor, Mode::Imm, 3, 2, false),
            0x4A => Ok(self.op_lsr_acc()),
            0x4B => self.push_register(bus, PushReg::Pb),
            0x4C => self.op_jmp_abs(bus),
            0x4D => self.read_op(bus, ReadKind::Eor, Mode::Abs, 4, 3, false),
            0x4E => self.rmw_op(bus, RmwKind::Lsr, Mode::Abs, 7, 5, false),
            0x4F => self.read_op(bus, ReadKind::Eor, Mode::Long, 6, 5, false),
            0x50 => self.branch_if(!self.p.contains(FLAG_V), bus),
            0x51 => self.read_op(bus, ReadKind::Eor, Mode::DpIndY, 7, 6, false),
            0x52 => self.read_op(bus, ReadKind::Eor, Mode::DpInd, 6, 5, false),
            0x53 => self.read_op(bus, ReadKind::Eor, Mode::SrIndY, 8, 7, false),
            0x54 => {
                return self.op_mvn(bus);
            },
            0x55 => self.read_op(bus, ReadKind::Eor, Mode::DpX, 5, 4, false),
            0x56 => self.rmw_op(bus, RmwKind::Lsr, Mode::DpX, 8, 6, false),
            0x57 => self.read_op(bus, ReadKind::Eor, Mode::DpIndLongY, 7, 6, false),
            0x58 => Ok(self.op_cli()),
            0x59 => self.read_op(bus, ReadKind::Eor, Mode::AbsY, 6, 5, false),
            0x5A => self.push_register(bus, PushReg::Y),
            0x5B => Ok(self.op_tcd()),
            0x5C => self.op_jml(bus),
            0x5D => self.read_op(bus, ReadKind::Eor, Mode::AbsX, 6, 5, false),
            0x5E => self.rmw_op(bus, RmwKind::Lsr, Mode::AbsX, 9, 7, false),
            0x5F => self.read_op(bus, ReadKind::Eor, Mode::LongX, 6, 5, false),
            0x60 => self.op_rts(bus),
            0x61 => self.read_op(bus, ReadKind::Adc, Mode::DpIndX, 7, 6, false),
            0x62 => self.op_per(bus),
            0x63 => self.read_op(bus, ReadKind::Adc, Mode::Sr, 5, 4, false),
            0x64 => self.store_op(bus, StoreReg::Zero, Mode::Dp, 4, 3, true),
            0x65 => self.read_op(bus, ReadKind::Adc, Mode::Dp, 4, 3, true),
            0x66 => self.rmw_op(bus, RmwKind::Ror, Mode::Dp, 7, 5, false),
            0x67 => self.read_op(bus, ReadKind::Adc, Mode::DpIndLong, 7, 6, false),
            0x68 => self.pull_register(bus, PullReg::A),
            0x69 => self.read_op(bus, ReadKind::Adc, Mode::Imm, 3, 2, false),
            0x6A => Ok(self.op_ror_acc()),
            0x6B => self.op_rtl(bus),
            0x6C => self.op_jmp_ind(bus),
            0x6D => self.read_op(bus, ReadKind::Adc, Mode::Abs, 5, 4, false),
            0x6E => self.rmw_op(bus, RmwKind::Ror, Mode::Abs, 7, 5, false),
            0x6F => self.read_op(bus, ReadKind::Adc, Mode::Long, 6, 5, false),
            0x70 => self.branch_if(self.p.contains(FLAG_V), bus),
            0x71 => self.read_op(bus, ReadKind::Adc, Mode::DpIndY, 7, 6, false),
            0x72 => self.read_op(bus, ReadKind::Adc, Mode::DpInd, 6, 5, false),
            0x73 => self.read_op(bus, ReadKind::Adc, Mode::SrIndY, 8, 7, false),
            0x74 => self.store_op(bus, StoreReg::Zero, Mode::DpX, 5, 4, true),
            0x75 => self.read_op(bus, ReadKind::Adc, Mode::DpX, 5, 4, false),
            0x76 => self.rmw_op(bus, RmwKind::Ror, Mode::DpX, 8, 6, false),
            0x77 => self.read_op(bus, ReadKind::Adc, Mode::DpIndLongY, 7, 6, false),
            0x78 => Ok(self.op_sei()),
            0x79 => self.read_op(bus, ReadKind::Adc, Mode::AbsY, 6, 5, false),
            0x7A => self.pull_register(bus, PullReg::Y),
            0x7B => Ok(self.op_tdc()),
            0x7C => self.op_jmp_ix(bus),
            0x7D => self.read_op(bus, ReadKind::Adc, Mode::AbsX, 6, 5, false),
            0x7E => self.rmw_op(bus, RmwKind::Ror, Mode::AbsX, 9, 7, false),
            0x7F => self.read_op(bus, ReadKind::Adc, Mode::LongX, 6, 5, false),
            0x80 => self.branch_if(true, bus),
            0x81 => self.store_op(bus, StoreReg::A, Mode::DpIndX, 7, 6, false),
            0x82 => self.op_brl(bus),
            0x83 => self.store_op(bus, StoreReg::A, Mode::Sr, 5, 4, false),
            0x84 => self.store_op(bus, StoreReg::Y, Mode::Dp, 4, 3, true),
            0x85 => self.store_op(bus, StoreReg::A, Mode::Dp, 4, 3, true),
            0x86 => self.store_op(bus, StoreReg::X, Mode::Dp, 4, 3, true),
            0x87 => self.store_op(bus, StoreReg::A, Mode::DpIndLong, 7, 6, false),
            0x88 => Ok(self.op_dey()),
            0x89 => self.read_op(bus, ReadKind::Bit, Mode::Imm, 3, 2, false),
            0x8A => Ok(self.op_txa()),
            0x8B => self.push_register(bus, PushReg::Db),
            0x8C => self.store_op(bus, StoreReg::Y, Mode::Abs, 5, 4, false),
            0x8D => self.store_op(bus, StoreReg::A, Mode::Abs, 5, 4, false),
            0x8E => self.store_op(bus, StoreReg::X, Mode::Abs, 5, 4, false),
            0x8F => self.store_op(bus, StoreReg::A, Mode::Long, 6, 5, false),
            0x90 => self.branch_if(!self.p.contains(FLAG_C), bus),
            0x91 => self.store_op(bus, StoreReg::A, Mode::DpIndY, 7, 6, false),
            0x92 => self.store_op(bus, StoreReg::A, Mode::DpInd, 6, 5, false),
            0x93 => self.store_op(bus, StoreReg::A, Mode::SrIndY, 8, 7, false),
            0x94 => self.store_op(bus, StoreReg::Y, Mode::DpX, 5, 4, true),
            0x95 => self.store_op(bus, StoreReg::A, Mode::DpX, 5, 4, true),
            0x96 => self.store_op(bus, StoreReg::X, Mode::DpY, 5, 4, true),
            0x97 => self.store_op(bus, StoreReg::A, Mode::DpIndLongY, 7, 6, false),
            0x98 => Ok(self.op_tya()),
            0x99 => self.store_op(bus, StoreReg::A, Mode::AbsY, 6, 5, false),
            0x9A => Ok(self.op_txs()),
            0x9B => Ok(self.op_txy()),
            0x9C => self.store_op(bus, StoreReg::Zero, Mode::Abs, 5, 4, false),
            0x9D => self.store_op(bus, StoreReg::A, Mode::AbsX, 6, 5, false),
            0x9E => self.store_op(bus, StoreReg::Zero, Mode::AbsX, 6, 5, false),
            0x9F => self.store_op(bus, StoreReg::A, Mode::LongX, 6, 5, false),
            0xA0 => self.read_op(bus, ReadKind::Ldy, Mode::Imm, 3, 2, false),
            0xA1 => self.read_op(bus, ReadKind::Lda, Mode::DpIndX, 7, 6, false),
            0xA2 => self.read_op(bus, ReadKind::Ldx, Mode::Imm, 3, 2, false),
            0xA3 => self.read_op(bus, ReadKind::Lda, Mode::Sr, 5, 4, false),
            0xA4 => self.read_op(bus, ReadKind::Ldy, Mode::Dp, 4, 3, true),
            0xA5 => self.read_op(bus, ReadKind::Lda, Mode::Dp, 4, 3, true),
            0xA6 => self.read_op(bus, ReadKind::Ldx, Mode::Dp, 4, 3, true),
            0xA7 => self.read_op(bus, ReadKind::Lda, Mode::DpIndLong, 7, 6, false),
            0xA8 => Ok(self.op_tay()),
            0xA9 => self.read_op(bus, ReadKind::Lda, Mode::Imm, 3, 2, false),
            0xAA => Ok(self.op_tax()),
            0xAB => self.pull_register(bus, PullReg::Db),
            0xAC => self.read_op(bus, ReadKind::Ldy, Mode::Abs, 5, 4, false),
            0xAD => self.read_op(bus, ReadKind::Lda, Mode::Abs, 5, 4, false),
            0xAE => self.read_op(bus, ReadKind::Ldx, Mode::Abs, 5, 4, false),
            0xAF => self.read_op(bus, ReadKind::Lda, Mode::Long, 6, 5, false),
            0xB0 => self.branch_if(self.p.contains(FLAG_C), bus),
            0xB1 => self.read_op(bus, ReadKind::Lda, Mode::DpIndY, 7, 6, false),
            0xB2 => self.read_op(bus, ReadKind::Lda, Mode::DpInd, 6, 5, false),
            0xB3 => self.read_op(bus, ReadKind::Lda, Mode::SrIndY, 8, 7, false),
            0xB4 => self.read_op(bus, ReadKind::Ldy, Mode::DpX, 5, 4, true),
            0xB5 => self.read_op(bus, ReadKind::Lda, Mode::DpX, 5, 4, true),
            0xB6 => self.read_op(bus, ReadKind::Ldx, Mode::DpY, 5, 4, true),
            0xB7 => self.read_op(bus, ReadKind::Lda, Mode::DpIndLongY, 7, 6, false),
            0xB8 => Ok(self.op_clv()),
            0xB9 => self.read_op(bus, ReadKind::Lda, Mode::AbsY, 6, 5, false),
            0xBA => Ok(self.op_tsx()),
            0xBB => Ok(self.op_tyx()),
            0xBC => self.read_op(bus, ReadKind::Ldy, Mode::AbsX, 5, 4, false),
            0xBD => self.read_op(bus, ReadKind::Lda, Mode::AbsX, 5, 4, false),
            0xBE => self.read_op(bus, ReadKind::Ldx, Mode::AbsY, 5, 4, false),
            0xBF => self.read_op(bus, ReadKind::Lda, Mode::LongX, 6, 5, false),
            0xC0 => self.read_op(bus, ReadKind::Cpy, Mode::Imm, 3, 2, false),
            0xC1 => self.read_op(bus, ReadKind::Cmp, Mode::DpIndX, 7, 6, false),
            0xC2 => self.op_rep(bus),
            0xC3 => self.read_op(bus, ReadKind::Cmp, Mode::Sr, 5, 4, false),
            0xC4 => self.read_op(bus, ReadKind::Cpy, Mode::Dp, 4, 3, false),
            0xC5 => self.read_op(bus, ReadKind::Cmp, Mode::Dp, 4, 3, false),
            0xC6 => self.rmw_op(bus, RmwKind::Dec, Mode::Dp, 7, 5, false),
            0xC7 => self.read_op(bus, ReadKind::Cmp, Mode::DpIndLong, 7, 6, false),
            0xC8 => Ok(self.op_iny()),
            0xC9 => self.read_op(bus, ReadKind::Cmp, Mode::Imm, 3, 2, false),
            0xCA => Ok(self.op_dex()),
            0xCB => Ok(self.op_wai()),
            0xCC => self.read_op(bus, ReadKind::Cpy, Mode::Abs, 4, 3, false),
            0xCD => self.read_op(bus, ReadKind::Cmp, Mode::Abs, 4, 3, false),
            0xCE => self.rmw_op(bus, RmwKind::Dec, Mode::Abs, 7, 5, false),
            0xCF => self.read_op(bus, ReadKind::Cmp, Mode::Long, 6, 5, false),
            0xD0 => self.branch_if(!self.p.contains(FLAG_Z), bus),
            0xD1 => self.read_op(bus, ReadKind::Cmp, Mode::DpIndY, 7, 6, false),
            0xD2 => self.read_op(bus, ReadKind::Cmp, Mode::DpInd, 6, 5, false),
            0xD3 => self.read_op(bus, ReadKind::Cmp, Mode::SrIndY, 8, 7, false),
            0xD4 => self.op_pei(bus),
            0xD5 => self.read_op(bus, ReadKind::Cmp, Mode::DpX, 5, 4, false),
            0xD6 => self.rmw_op(bus, RmwKind::Dec, Mode::DpX, 8, 6, false),
            0xD7 => self.read_op(bus, ReadKind::Cmp, Mode::DpIndLongY, 7, 6, false),
            0xD8 => Ok(self.op_cld()),
            0xD9 => self.read_op(bus, ReadKind::Cmp, Mode::AbsY, 6, 5, false),
            0xDA => self.push_register(bus, PushReg::X),
            0xDB => Ok(self.op_wai()),
            0xDC => self.op_jml_indirect(bus),
            0xDD => self.read_op(bus, ReadKind::Cmp, Mode::AbsX, 6, 5, false),
            0xDE => self.rmw_op(bus, RmwKind::Dec, Mode::AbsX, 9, 7, false),
            0xDF => self.read_op(bus, ReadKind::Cmp, Mode::LongX, 6, 5, false),
            0xE0 => self.read_op(bus, ReadKind::Cpx, Mode::Imm, 3, 2, false),
            0xE1 => self.read_op(bus, ReadKind::Sbc, Mode::DpIndX, 7, 6, false),
            0xE2 => self.op_sep(bus),
            0xE3 => self.read_op(bus, ReadKind::Sbc, Mode::Sr, 5, 4, false),
            0xE4 => self.read_op(bus, ReadKind::Cpx, Mode::Dp, 4, 3, false),
            0xE5 => self.read_op(bus, ReadKind::Sbc, Mode::Dp, 4, 3, true),
            0xE6 => self.rmw_op(bus, RmwKind::Inc, Mode::Dp, 7, 5, false),
            0xE7 => self.read_op(bus, ReadKind::Sbc, Mode::DpIndLong, 7, 6, false),
            0xE8 => Ok(self.op_inx()),
            0xE9 => self.read_op(bus, ReadKind::Sbc, Mode::Imm, 3, 2, false),
            0xEA => Ok(self.op_nop()),
            0xEB => Ok(self.op_xba()),
            0xEC => self.read_op(bus, ReadKind::Cpx, Mode::Abs, 4, 3, false),
            0xED => self.read_op(bus, ReadKind::Sbc, Mode::Abs, 5, 4, false),
            0xEE => self.rmw_op(bus, RmwKind::Inc, Mode::Abs, 7, 5, false),
            0xEF => self.read_op(bus, ReadKind::Sbc, Mode::Long, 6, 5, false),
            0xF0 => self.branch_if(self.p.contains(FLAG_Z), bus),
            0xF1 => self.read_op(bus, ReadKind::Sbc, Mode::DpIndY, 7, 6, false),
            0xF2 => self.read_op(bus, ReadKind::Sbc, Mode::DpInd, 6, 5, false),
            0xF3 => self.read_op(bus, ReadKind::Sbc, Mode::SrIndY, 8, 7, false),
            0xF4 => self.op_pea(bus),
            0xF5 => self.read_op(bus, ReadKind::Sbc, Mode::DpX, 5, 4, false),
            0xF6 => self.rmw_op(bus, RmwKind::Inc, Mode::DpX, 8, 6, false),
            0xF7 => self.read_op(bus, ReadKind::Sbc, Mode::DpIndLongY, 7, 6, false),
            0xF8 => Ok(self.op_sed()),
            0xF9 => self.read_op(bus, ReadKind::Sbc, Mode::AbsY, 6, 5, false),
            0xFA => self.pull_register(bus, PullReg::X),
            0xFB => Ok(self.op_xce()),
            0xFC => self.op_jsr_ix(bus),
            0xFD => self.read_op(bus, ReadKind::Sbc, Mode::AbsX, 6, 5, false),
            0xFE => self.rmw_op(bus, RmwKind::Inc, Mode::AbsX, 9, 7, false),
            0xFF => self.read_op(bus, ReadKind::Sbc, Mode::LongX, 6, 5, false),
        };
        match base {
            Ok(n) => Ok(n as u32),
            Err(e) => Err(e),
        }
    }
}

} // verus!
