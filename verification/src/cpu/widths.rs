//! The emulation-mode register widths: with E set, hardware has no 16-bit
//! A/X/Y, so M and X stay set and X and Y hold 8-bit values. Every
//! instruction, interrupt and reset keeps that, except that a block move
//! steps X and Y at 16 bits and can carry them past $FF.
use vstd::prelude::*;
use super::{Cpu, CpuFlags, FLAG_C, FLAG_D, FLAG_I, FLAG_M, FLAG_N, FLAG_V, FLAG_X, FLAG_Z};
use super::spec::{lemma_mask_bounds, long_addr, flag_on, set_flag, enforce_widths_spec, fetch8, fetch16, read_mem,
    write_mem, push, pull};
use super::addressing::{Mode, ea_spec, ptr16_spec, dp_spec};
use super::alu::{Logic, logic_spec, adc_spec, sbc_spec, compare_spec, bit_spec, bit_imm_spec};
use super::families::{ReadKind, StoreReg, RmwKind, operand_spec, apply_read, read_wide, read_op_spec, store_op_spec,
    rmw_op_spec, rmw_compute, rmw_after};
use super::ops::{RegOp, reg_op_spec};
use super::control::{PushReg, PullReg, push_op_spec, pull_op_spec, pull_wide, pea_spec, pei_spec, per_spec,
    rep_spec, sep_spec, wdm_spec, branch_spec, brl_spec, jmp_abs_spec, jmp_ind_spec, jmp_ix_spec, jml_spec,
    jml_ind_spec, jsr_abs_spec, jsr_ix_spec, jsl_spec, rts_spec, rtl_spec, rti_spec, interrupt_spec,
    soft_interrupt_spec, nmi_spec, irq_spec, block_move_spec, move_op_spec};
use super::dispatch::{base_op_spec, execute_spec, step_spec, reset_spec};
use super::base::fresh_cpu;
use crate::bus::MemoryBus;

verus! {

/// The emulation-mode widths hold: with E set, M and X are set and X and Y
/// fit in 8 bits.
pub open spec fn widths_ok(c: Cpu) -> bool {
    c.e ==> flag_on(c.p, FLAG_M) && flag_on(c.p, FLAG_X) && c.x <= 0xFF && c.y <= 0xFF
}

/// `c2` keeps `c`'s mode, width flags and index registers.
pub open spec fn same_widths(c: Cpu, c2: Cpu) -> bool {
    &&& c2.e == c.e
    &&& flag_on(c2.p, FLAG_M) == flag_on(c.p, FLAG_M)
    &&& flag_on(c2.p, FLAG_X) == flag_on(c.p, FLAG_X)
    &&& c2.x == c.x
    &&& c2.y == c.y
}

/// The bit facts behind the width flags: the other flags' updates leave M
/// and X alone; forcing, XCE's entry, SEP and interrupt entry keep them set.
proof fn lemma_p_bits(x: u8, m: u8)
    by (bit_vector)
    ensures
        ((x | FLAG_C) & FLAG_M == FLAG_M) == (x & FLAG_M == FLAG_M),
        ((x | FLAG_C) & FLAG_X == FLAG_X) == (x & FLAG_X == FLAG_X),
        ((x & !FLAG_C) & FLAG_M == FLAG_M) == (x & FLAG_M == FLAG_M),
        ((x & !FLAG_C) & FLAG_X == FLAG_X) == (x & FLAG_X == FLAG_X),
        ((x | FLAG_Z) & FLAG_M == FLAG_M) == (x & FLAG_M == FLAG_M),
        ((x | FLAG_Z) & FLAG_X == FLAG_X) == (x & FLAG_X == FLAG_X),
        ((x & !FLAG_Z) & FLAG_M == FLAG_M) == (x & FLAG_M == FLAG_M),
        ((x & !FLAG_Z) & FLAG_X == FLAG_X) == (x & FLAG_X == FLAG_X),
        ((x | FLAG_I) & FLAG_M == FLAG_M) == (x & FLAG_M == FLAG_M),
        ((x | FLAG_I) & FLAG_X == FLAG_X) == (x & FLAG_X == FLAG_X),
        ((x & !FLAG_I) & FLAG_M == FLAG_M) == (x & FLAG_M == FLAG_M),
        ((x & !FLAG_I) & FLAG_X == FLAG_X) == (x & FLAG_X == FLAG_X),
        ((x | FLAG_D) & FLAG_M == FLAG_M) == (x & FLAG_M == FLAG_M),
        ((x | FLAG_D) & FLAG_X == FLAG_X) == (x & FLAG_X == FLAG_X),
        ((x & !FLAG_D) & FLAG_M == FLAG_M) == (x & FLAG_M == FLAG_M),
        ((x & !FLAG_D) & FLAG_X == FLAG_X) == (x & FLAG_X == FLAG_X),
        ((x | FLAG_V) & FLAG_M == FLAG_M) == (x & FLAG_M == FLAG_M),
        ((x | FLAG_V) & FLAG_X == FLAG_X) == (x & FLAG_X == FLAG_X),
        ((x & !FLAG_V) & FLAG_M == FLAG_M) == (x & FLAG_M == FLAG_M),
        ((x & !FLAG_V) & FLAG_X == FLAG_X) == (x & FLAG_X == FLAG_X),
        ((x | FLAG_N) & FLAG_M == FLAG_M) == (x & FLAG_M == FLAG_M),
        ((x | FLAG_N) & FLAG_X == FLAG_X) == (x & FLAG_X == FLAG_X),
        ((x & !FLAG_N) & FLAG_M == FLAG_M) == (x & FLAG_M == FLAG_M),
        ((x & !FLAG_N) & FLAG_X == FLAG_X) == (x & FLAG_X == FLAG_X),
        (x | FLAG_M | FLAG_X) & FLAG_M == FLAG_M,
        (x | FLAG_M | FLAG_X) & FLAG_X == FLAG_X,
        ((((x & !FLAG_C) | FLAG_I) | FLAG_M) | FLAG_X) & FLAG_M == FLAG_M,
        ((((x & !FLAG_C) | FLAG_I) | FLAG_M) | FLAG_X) & FLAG_X == FLAG_X,
        x & FLAG_M == FLAG_M ==> (x | m) & FLAG_M == FLAG_M,
        x & FLAG_X == FLAG_X ==> (x | m) & FLAG_X == FLAG_X,
        x & FLAG_M == FLAG_M ==> ((x & !FLAG_D) | FLAG_I) & FLAG_M == FLAG_M,
        x & FLAG_X == FLAG_X ==> ((x & !FLAG_D) | FLAG_I) & FLAG_X == FLAG_X,
{
}

/// `q` has the same M and X flags as `p`.
pub open spec fn keeps_mx(p: CpuFlags, q: CpuFlags) -> bool {
    flag_on(q, FLAG_M) == flag_on(p, FLAG_M) && flag_on(q, FLAG_X) == flag_on(p, FLAG_X)
}

/// Setting or clearing C, Z, I, D, V or N leaves M and X alone.
proof fn lemma_flags_keep_widths()
    ensures
        forall|p: CpuFlags, on: bool| #![trigger set_flag(p, FLAG_C, on)] keeps_mx(p, set_flag(p, FLAG_C, on)),
        forall|p: CpuFlags, on: bool| #![trigger set_flag(p, FLAG_Z, on)] keeps_mx(p, set_flag(p, FLAG_Z, on)),
        forall|p: CpuFlags, on: bool| #![trigger set_flag(p, FLAG_I, on)] keeps_mx(p, set_flag(p, FLAG_I, on)),
        forall|p: CpuFlags, on: bool| #![trigger set_flag(p, FLAG_D, on)] keeps_mx(p, set_flag(p, FLAG_D, on)),
        forall|p: CpuFlags, on: bool| #![trigger set_flag(p, FLAG_V, on)] keeps_mx(p, set_flag(p, FLAG_V, on)),
        forall|p: CpuFlags, on: bool| #![trigger set_flag(p, FLAG_N, on)] keeps_mx(p, set_flag(p, FLAG_N, on)),
{
    assert forall|p: CpuFlags, on: bool| #![trigger set_flag(p, FLAG_C, on)] keeps_mx(p, set_flag(p, FLAG_C, on)) by {
        lemma_p_bits(p.0, 0);
    }
    assert forall|p: CpuFlags, on: bool| #![trigger set_flag(p, FLAG_Z, on)] keeps_mx(p, set_flag(p, FLAG_Z, on)) by {
        lemma_p_bits(p.0, 0);
    }
    assert forall|p: CpuFlags, on: bool| #![trigger set_flag(p, FLAG_I, on)] keeps_mx(p, set_flag(p, FLAG_I, on)) by {
        lemma_p_bits(p.0, 0);
    }
    assert forall|p: CpuFlags, on: bool| #![trigger set_flag(p, FLAG_D, on)] keeps_mx(p, set_flag(p, FLAG_D, on)) by {
        lemma_p_bits(p.0, 0);
    }
    assert forall|p: CpuFlags, on: bool| #![trigger set_flag(p, FLAG_V, on)] keeps_mx(p, set_flag(p, FLAG_V, on)) by {
        lemma_p_bits(p.0, 0);
    }
    assert forall|p: CpuFlags, on: bool| #![trigger set_flag(p, FLAG_N, on)] keeps_mx(p, set_flag(p, FLAG_N, on)) by {
        lemma_p_bits(p.0, 0);
    }
}

/// After `enforce_widths_spec` the widths hold.
proof fn lemma_enforce_ok(c: Cpu)
    ensures
        widths_ok(enforce_widths_spec(c)),
{
    lemma_p_bits(c.p.0, 0);
    lemma_mask_bounds();
}

/// `c2` differs from `c` at most in PC.
pub open spec fn only_pc(c: Cpu, c2: Cpu) -> bool {
    c2 == Cpu { pc: c2.pc, ..c }
}

proof fn lemma_fetch_only_pc<B: MemoryBus>(c: Cpu, b: B)
    ensures
        only_pc(c, fetch8(c, b).0),
        only_pc(c, fetch16(c, b).0),
{
}

/// Computing an effective address moves at most PC.
proof fn lemma_ea_only_pc<B: MemoryBus>(c: Cpu, b: B, mode: Mode)
    ensures
        only_pc(c, ea_spec(c, b, mode).0),
{
}

proof fn lemma_operand<B: MemoryBus>(c: Cpu, b: B, mode: Mode, wide: bool)
    ensures
        only_pc(c, operand_spec(c, b, mode, wide).0),
        !wide ==> (operand_spec(c, b, mode, wide).2 matches Ok(v) ==> v <= 0xFF),
{
    lemma_ea_only_pc(c, b, mode);
}

/// The flag updates of the arithmetic and logic cores leave M and X alone.
proof fn lemma_alu_keeps(c: Cpu, v: u16, wide: bool)
    ensures
        same_widths(c, adc_spec(c, v, wide)),
        same_widths(c, sbc_spec(c, v, wide)),
        same_widths(c, logic_spec(c, Logic::Ora, v, wide)),
        same_widths(c, logic_spec(c, Logic::And, v, wide)),
        same_widths(c, logic_spec(c, Logic::Eor, v, wide)),
        same_widths(c, compare_spec(c, c.a, v, wide)),
        same_widths(c, compare_spec(c, c.x, v, wide)),
        same_widths(c, compare_spec(c, c.y, v, wide)),
        same_widths(c, bit_spec(c, v, wide)),
        same_widths(c, bit_imm_spec(c, v, wide)),
{
    lemma_flags_keep_widths();
}

proof fn lemma_apply_read(c: Cpu, k: ReadKind, mode: Mode, v: u16, wide: bool)
    requires
        widths_ok(c),
        wide == read_wide(c, k),
        !wide ==> v <= 0xFF,
    ensures
        widths_ok(apply_read(c, k, mode, v, wide)),
{
    lemma_flags_keep_widths();
    lemma_alu_keeps(c, v, wide);
}

proof fn lemma_read_op<B: MemoryBus>(c: Cpu, b: B, k: ReadKind, mode: Mode, c16: u8, c8: u8, dp_extra: bool)
    requires
        widths_ok(c),
    ensures
        widths_ok(read_op_spec(c, b, k, mode, c16, c8, dp_extra).0),
{
    let wide = read_wide(c, k);
    lemma_operand(c, b, mode, wide);
    let m = operand_spec(c, b, mode, wide);
    if let Ok(v) = m.2 {
        lemma_apply_read(m.0, k, mode, v, wide);
    }
}

proof fn lemma_store_op<B: MemoryBus>(c: Cpu, b: B, r: StoreReg, mode: Mode, c16: u8, c8: u8, dp_extra: bool)
    requires
        widths_ok(c),
    ensures
        widths_ok(store_op_spec(c, b, r, mode, c16, c8, dp_extra).0),
{
    lemma_ea_only_pc(c, b, mode);
}

proof fn lemma_rmw_op<B: MemoryBus>(c: Cpu, b: B, k: RmwKind, mode: Mode, c16: u8, c8: u8, dp_extra: bool)
    requires
        widths_ok(c),
    ensures
        widths_ok(rmw_op_spec(c, b, k, mode, c16, c8, dp_extra).0),
{
    lemma_flags_keep_widths();
    lemma_ea_only_pc(c, b, mode);
    let wide = !flag_on(c.p, FLAG_M);
    let m1 = ea_spec(c, b, mode);
    if let Ok(addr) = m1.2 {
        let m2 = read_mem(m1.0, m1.1, addr, wide);
        if let Ok(v) = m2.2 {
            let c3 = rmw_compute(m2.0, k, v, wide).0;
            let r = rmw_compute(m2.0, k, v, wide).1;
            assert(same_widths(m2.0, c3));
            let m4 = write_mem(c3, m2.1, addr, r, wide);
            assert(same_widths(m4.0, rmw_after(m4.0, k, r, wide)));
        }
    }
}

/// `c2` differs from `c` at most in SP.
pub open spec fn only_sp(c: Cpu, c2: Cpu) -> bool {
    c2 == Cpu { sp: c2.sp, ..c }
}

proof fn lemma_stack_only_sp<B: MemoryBus>(c: Cpu, b: B, v: u16, wide: bool)
    ensures
        only_sp(c, push(c, b, v, wide).0),
        only_sp(c, pull(c, b, wide).0),
        !wide ==> (pull(c, b, wide).2 matches Ok(r) ==> r <= 0xFF),
{
}

proof fn lemma_reg_op(c: Cpu, op: RegOp)
    requires
        widths_ok(c),
    ensures
        widths_ok(reg_op_spec(c, op)),
{
    lemma_flags_keep_widths();
    lemma_p_bits(c.p.0, 0);
    lemma_mask_bounds();
}

proof fn lemma_push_op<B: MemoryBus>(c: Cpu, b: B, r: PushReg)
    requires
        widths_ok(c),
    ensures
        widths_ok(push_op_spec(c, b, r).0),
{
    lemma_stack_only_sp(c, b, 0, false);
    lemma_stack_only_sp(c, b, 0, true);
}

proof fn lemma_pull_op<B: MemoryBus>(c: Cpu, b: B, r: PullReg)
    requires
        widths_ok(c),
    ensures
        widths_ok(pull_op_spec(c, b, r).0),
{
    lemma_flags_keep_widths();
    let wide = pull_wide(c, r);
    lemma_stack_only_sp(c, b, 0, wide);
    let m = pull(c, b, wide);
    if let Ok(v) = m.2 {
        lemma_enforce_ok(Cpu { p: CpuFlags(v as u8), ..m.0 });
    }
}

proof fn lemma_stack_ops<B: MemoryBus>(c: Cpu, b: B)
    requires
        widths_ok(c),
    ensures
        widths_ok(pea_spec(c, b).0),
        widths_ok(pei_spec(c, b).0),
        widths_ok(per_spec(c, b).0),
        widths_ok(wdm_spec(c, b).0),
        widths_ok(rep_spec(c, b).0),
        widths_ok(sep_spec(c, b).0),
{
    lemma_fetch_only_pc(c, b);
    lemma_ea_only_pc(c, b, Mode::Dp);
    let w8 = fetch8(c, b);
    if let Ok(m) = w8.2 {
        lemma_enforce_ok(Cpu { p: CpuFlags(w8.0.p.0 & !m), ..w8.0 });
        lemma_p_bits(c.p.0, m);
        lemma_mask_bounds();
    }
    let w16 = fetch16(c, b);
    if let Ok(v) = w16.2 {
        lemma_stack_only_sp(w16.0, w16.1, v, true);
        lemma_stack_only_sp(w16.0, w16.1, w16.0.pc.wrapping_add(v), true);
    }
    let d = dp_spec(c, b);
    if let Ok(at) = d.2 {
        let q = ptr16_spec(d.0, d.1, at);
        if let Ok(v) = q.2 {
            lemma_stack_only_sp(q.0, q.1, v, true);
        }
    }
}

proof fn lemma_flow_ops<B: MemoryBus>(c: Cpu, b: B, cond: bool)
    requires
        widths_ok(c),
    ensures
        widths_ok(branch_spec(c, b, cond).0),
        widths_ok(brl_spec(c, b).0),
        widths_ok(jmp_abs_spec(c, b).0),
        widths_ok(jmp_ind_spec(c, b).0),
        widths_ok(jmp_ix_spec(c, b).0),
        widths_ok(jml_spec(c, b).0),
        widths_ok(jml_ind_spec(c, b).0),
        widths_ok(rts_spec(c, b).0),
        widths_ok(rtl_spec(c, b).0),
{
    lemma_fetch_only_pc(c, b);
    lemma_stack_only_sp(c, b, 0, true);
    let p = pull(c, b, true);
    lemma_stack_only_sp(p.0, p.1, 0, false);
}

proof fn lemma_call_ops<B: MemoryBus>(c: Cpu, b: B)
    requires
        widths_ok(c),
    ensures
        widths_ok(jsr_abs_spec(c, b).0),
        widths_ok(jsr_ix_spec(c, b).0),
        widths_ok(jsl_spec(c, b).0),
{
    lemma_fetch_only_pc(c, b);
    let w16 = fetch16(c, b);
    lemma_stack_only_sp(w16.0, w16.1, w16.0.pc.wrapping_sub(1), true);
    let w8 = fetch8(c, b);
    lemma_fetch_only_pc(w8.0, w8.1);
    let w8b = fetch8(w8.0, w8.1);
    lemma_fetch_only_pc(w8b.0, w8b.1);
    let w8c = fetch8(w8b.0, w8b.1);
    lemma_stack_only_sp(w8c.0, w8c.1, w8c.0.pb as u16, false);
    let q = push(w8c.0, w8c.1, w8c.0.pb as u16, false);
    lemma_stack_only_sp(q.0, q.1, w8c.0.pc.wrapping_sub(1), true);
}

proof fn lemma_rti<B: MemoryBus>(c: Cpu, b: B)
    requires
        widths_ok(c),
    ensures
        widths_ok(rti_spec(c, b).0),
{
    lemma_stack_only_sp(c, b, 0, false);
    let m1 = pull(c, b, false);
    if let Ok(s) = m1.2 {
        let c2 = enforce_widths_spec(Cpu { p: CpuFlags(s as u8), ..m1.0 });
        lemma_enforce_ok(Cpu { p: CpuFlags(s as u8), ..m1.0 });
        lemma_stack_only_sp(c2, m1.1, 0, true);
        let m3 = pull(c2, m1.1, true);
        if let Ok(a) = m3.2 {
            let c4 = Cpu { pc: a, ..m3.0 };
            lemma_stack_only_sp(c4, m3.1, 0, false);
        }
    }
}

/// The interrupt sequence keeps the widths: it only sets I and clears D.
proof fn lemma_interrupt<B: MemoryBus>(c: Cpu, b: B, native: u32, emulation: u32)
    requires
        widths_ok(c),
    ensures
        widths_ok(interrupt_spec(c, b, native, emulation).0),
{
    lemma_stack_only_sp(c, b, c.pb as u16, false);
    let m0 = if !c.e { push(c, b, c.pb as u16, false) } else { (c, b, Ok(())) };
    lemma_stack_only_sp(m0.0, m0.1, m0.0.pc, true);
    let m1 = push(m0.0, m0.1, m0.0.pc, true);
    lemma_stack_only_sp(m1.0, m1.1, m1.0.p.0 as u16, false);
    let m2 = push(m1.0, m1.1, m1.0.p.0 as u16, false);
    lemma_p_bits(m2.0.p.0, 0);
}

proof fn lemma_soft_interrupt<B: MemoryBus>(c: Cpu, b: B, native: u32, emulation: u32)
    requires
        widths_ok(c),
    ensures
        widths_ok(soft_interrupt_spec(c, b, native, emulation).0),
{
    lemma_fetch_only_pc(c, b);
    let m = fetch8(c, b);
    lemma_interrupt(m.0, m.1, native, emulation);
}

/// A block move that counts X and Y `count` times up (MVN) or down (MVP)
/// from their current values stays inside $00-$FF in emulation mode.
pub open spec fn move_fits(c: Cpu, count: int, up: bool) -> bool {
    c.e ==> if up {
        c.x + count <= 0xFF && c.y + count <= 0xFF
    } else {
        c.x >= count && c.y >= count
    }
}

proof fn lemma_block_move<B: MemoryBus>(c: Cpu, b: B, src: u8, dst: u8, count: u32, up: bool)
    requires
        widths_ok(c),
        move_fits(c, count as int, up),
    ensures
        widths_ok(block_move_spec(c, b, src, dst, count, up).0),
    decreases count,
{
    if count > 0 {
        let nx = if up { c.x.wrapping_add(1) } else { c.x.wrapping_sub(1) };
        let ny = if up { c.y.wrapping_add(1) } else { c.y.wrapping_sub(1) };
        let (b1, r1) = b.read_spec(long_addr(src, c.x));
        if let Ok(byte) = r1 {
            let (b2, r2) = b1.write_spec(long_addr(dst, c.y), byte);
            lemma_block_move(Cpu { x: nx, y: ny, ..c }, b2, src, dst, (count - 1) as u32, up);
        }
    }
}

proof fn lemma_move_op<B: MemoryBus>(c: Cpu, b: B, up: bool)
    requires
        widths_ok(c),
        move_fits(c, c.a + 1, up),
    ensures
        widths_ok(move_op_spec(c, b, up).0),
{
    lemma_fetch_only_pc(c, b);
    let m1 = fetch8(c, b);
    lemma_fetch_only_pc(m1.0, m1.1);
    let m2 = fetch8(m1.0, m1.1);
    if let (Ok(dst), Ok(src)) = (m1.2, m2.2) {
        lemma_block_move(m2.0, m2.1, src, dst, (m2.0.a + 1) as u32, up);
    }
}

proof fn lemma_base_op<B: MemoryBus>(c: Cpu, b: B, opcode: u8)
    requires
        widths_ok(c),
    ensures
        widths_ok(base_op_spec(c, b, opcode).0),
{
    match opcode {
        0x00 => { lemma_soft_interrupt(c, b, 0xFFE6, 0xFFFE); }
        0x01 => { lemma_read_op(c, b, ReadKind::Ora, Mode::DpIndX, 7, 6, false); }
        0x02 => { lemma_soft_interrupt(c, b, 0xFFE4, 0xFFF4); }
        0x03 => { lemma_read_op(c, b, ReadKind::Ora, Mode::Sr, 5, 4, false); }
        0x04 => { lemma_rmw_op(c, b, RmwKind::Tsb, Mode::Dp, 7, 5, true); }
        0x05 => { lemma_read_op(c, b, ReadKind::Ora, Mode::Dp, 4, 3, false); }
        0x06 => { lemma_rmw_op(c, b, RmwKind::Asl, Mode::Dp, 7, 5, false); }
        0x07 => { lemma_read_op(c, b, ReadKind::Ora, Mode::DpIndLong, 7, 6, false); }
        0x08 => { lemma_push_op(c, b, PushReg::P); }
        0x09 => { lemma_read_op(c, b, ReadKind::Ora, Mode::Imm, 3, 2, false); }
        0x0A => { lemma_reg_op(c, RegOp::AslA); }
        0x0B => { lemma_push_op(c, b, PushReg::D); }
        0x0C => { lemma_rmw_op(c, b, RmwKind::Tsb, Mode::Abs, 8, 6, false); }
        0x0D => { lemma_read_op(c, b, ReadKind::Ora, Mode::Abs, 4, 3, false); }
        0x0E => { lemma_rmw_op(c, b, RmwKind::Asl, Mode::Abs, 7, 5, false); }
        0x0F => { lemma_read_op(c, b, ReadKind::Ora, Mode::Long, 6, 5, false); }
        0x10 => { lemma_flow_ops(c, b, !flag_on(c.p, FLAG_N)); }
        0x11 => { lemma_read_op(c, b, ReadKind::Ora, Mode::DpIndY, 7, 6, false); }
        0x12 => { lemma_read_op(c, b, ReadKind::Ora, Mode::DpInd, 6, 5, false); }
        0x13 => { lemma_read_op(c, b, ReadKind::Ora, Mode::SrIndY, 8, 7, false); }
        0x14 => { lemma_rmw_op(c, b, RmwKind::Trb, Mode::Dp, 7, 5, true); }
        0x15 => { lemma_read_op(c, b, ReadKind::Ora, Mode::DpX, 5, 4, false); }
        0x16 => { lemma_rmw_op(c, b, RmwKind::Asl, Mode::DpX, 8, 6, false); }
        0x17 => { lemma_read_op(c, b, ReadKind::Ora, Mode::DpIndLongY, 7, 6, false); }
        0x18 => { lemma_reg_op(c, RegOp::Clc); }
        0x19 => { lemma_read_op(c, b, ReadKind::Ora, Mode::AbsY, 6, 5, false); }
        0x1A => { lemma_reg_op(c, RegOp::IncA); }
        0x1B => { lemma_reg_op(c, RegOp::Tcs); }
        0x1C => { lemma_rmw_op(c, b, RmwKind::Trb, Mode::Abs, 8, 6, false); }
        0x1D => { lemma_read_op(c, b, ReadKind::Ora, Mode::AbsX, 6, 5, false); }
        0x1E => { lemma_rmw_op(c, b, RmwKind::Asl, Mode::AbsX, 9, 7, false); }
        0x1F => { lemma_read_op(c, b, ReadKind::Ora, Mode::LongX, 6, 5, false); }
        0x20 => { lemma_call_ops(c, b); }
        0x21 => { lemma_read_op(c, b, ReadKind::And, Mode::DpIndX, 7, 6, false); }
        0x22 => { lemma_call_ops(c, b); }
        0x23 => { lemma_read_op(c, b, ReadKind::And, Mode::Sr, 5, 4, false); }
        0x24 => { lemma_read_op(c, b, ReadKind::Bit, Mode::Dp, 4, 3, false); }
        0x25 => { lemma_read_op(c, b, ReadKind::And, Mode::Dp, 4, 3, false); }
        0x26 => { lemma_rmw_op(c, b, RmwKind::Rol, Mode::Dp, 7, 5, false); }
        0x27 => { lemma_read_op(c, b, ReadKind::And, Mode::DpIndLong, 7, 6, false); }
        0x28 => { lemma_pull_op(c, b, PullReg::P); }
        0x29 => { lemma_read_op(c, b, ReadKind::And, Mode::Imm, 3, 2, false); }
        0x2A => { lemma_reg_op(c, RegOp::RolA); }
        0x2B => { lemma_pull_op(c, b, PullReg::D); }
        0x2C => { lemma_read_op(c, b, ReadKind::Bit, Mode::Abs, 4, 3, false); }
        0x2D => { lemma_read_op(c, b, ReadKind::And, Mode::Abs, 4, 3, false); }
        0x2E => { lemma_rmw_op(c, b, RmwKind::Rol, Mode::Abs, 7, 5, false); }
        0x2F => { lemma_read_op(c, b, ReadKind::And, Mode::Long, 6, 5, false); }
        0x30 => { lemma_flow_ops(c, b, flag_on(c.p, FLAG_N)); }
        0x31 => { lemma_read_op(c, b, ReadKind::And, Mode::DpIndY, 7, 6, false); }
        0x32 => { lemma_read_op(c, b, ReadKind::And, Mode::DpInd, 6, 5, false); }
        0x33 => { lemma_read_op(c, b, ReadKind::And, Mode::SrIndY, 8, 7, false); }
        0x34 => { lemma_read_op(c, b, ReadKind::Bit, Mode::DpX, 5, 4, true); }
        0x35 => { lemma_read_op(c, b, ReadKind::And, Mode::DpX, 5, 4, false); }
        0x36 => { lemma_rmw_op(c, b, RmwKind::Rol, Mode::DpX, 8, 6, false); }
        0x37 => { lemma_read_op(c, b, ReadKind::And, Mode::DpIndLongY, 7, 6, false); }
        0x38 => { lemma_reg_op(c, RegOp::Sec); }
        0x39 => { lemma_read_op(c, b, ReadKind::And, Mode::AbsY, 6, 5, false); }
        0x3A => { lemma_reg_op(c, RegOp::DecA); }
        0x3B => { lemma_reg_op(c, RegOp::Tsc); }
        0x3C => { lemma_read_op(c, b, ReadKind::Bit, Mode::AbsX, 5, 4, false); }
        0x3D => { lemma_read_op(c, b, ReadKind::And, Mode::AbsX, 6, 5, false); }
        0x3E => { lemma_rmw_op(c, b, RmwKind::Rol, Mode::AbsX, 9, 7, false); }
        0x3F => { lemma_read_op(c, b, ReadKind::And, Mode::LongX, 6, 5, false); }
        0x40 => { lemma_rti(c, b); }
        0x41 => { lemma_read_op(c, b, ReadKind::Eor, Mode::DpIndX, 7, 6, false); }
        0x42 => { lemma_stack_ops(c, b); }
        0x43 => { lemma_read_op(c, b, ReadKind::Eor, Mode::Sr, 5, 4, false); }
        0x44 => {}
        0x45 => { lemma_read_op(c, b, ReadKind::Eor, Mode::Dp, 4, 3, false); }
        0x46 => { lemma_rmw_op(c, b, RmwKind::Lsr, Mode::Dp, 7, 5, false); }
        0x47 => { lemma_read_op(c, b, ReadKind::Eor, Mode::DpIndLong, 7, 6, false); }
        0x48 => { lemma_push_op(c, b, PushReg::A); }
        0x49 => { lemma_read_op(c, b, ReadKind::Eor, Mode::Imm, 3, 2, false); }
        0x4A => { lemma_reg_op(c, RegOp::LsrA); }
        0x4B => { lemma_push_op(c, b, PushReg::Pb); }
        0x4C => { lemma_flow_ops(c, b, true); }
        0x4D => { lemma_read_op(c, b, ReadKind::Eor, Mode::Abs, 4, 3, false); }
        0x4E => { lemma_rmw_op(c, b, RmwKind::Lsr, Mode::Abs, 7, 5, false); }
        0x4F => { lemma_read_op(c, b, ReadKind::Eor, Mode::Long, 6, 5, false); }
        0x50 => { lemma_flow_ops(c, b, !flag_on(c.p, FLAG_V)); }
        0x51 => { lemma_read_op(c, b, ReadKind::Eor, Mode::DpIndY, 7, 6, false); }
        0x52 => { lemma_read_op(c, b, ReadKind::Eor, Mode::DpInd, 6, 5, false); }
        0x53 => { lemma_read_op(c, b, ReadKind::Eor, Mode::SrIndY, 8, 7, false); }
        0x54 => {}
        0x55 => { lemma_read_op(c, b, ReadKind::Eor, Mode::DpX, 5, 4, false); }
        0x56 => { lemma_rmw_op(c, b, RmwKind::Lsr, Mode::DpX, 8, 6, false); }
        0x57 => { lemma_read_op(c, b, ReadKind::Eor, Mode::DpIndLongY, 7, 6, false); }
        0x58 => { lemma_reg_op(c, RegOp::Cli); }
        0x59 => { lemma_read_op(c, b, ReadKind::Eor, Mode::AbsY, 6, 5, false); }
        0x5A => { lemma_push_op(c, b, PushReg::Y); }
        0x5B => { lemma_reg_op(c, RegOp::Tcd); }
        0x5C => { lemma_flow_ops(c, b, true); }
        0x5D => { lemma_read_op(c, b, ReadKind::Eor, Mode::AbsX, 6, 5, false); }
        0x5E => { lemma_rmw_op(c, b, RmwKind::Lsr, Mode::AbsX, 9, 7, false); }
        0x5F => { lemma_read_op(c, b, ReadKind::Eor, Mode::LongX, 6, 5, false); }
        0x60 => { lemma_flow_ops(c, b, true); }
        0x61 => { lemma_read_op(c, b, ReadKind::Adc, Mode::DpIndX, 7, 6, false); }
        0x62 => { lemma_stack_ops(c, b); }
        0x63 => { lemma_read_op(c, b, ReadKind::Adc, Mode::Sr, 5, 4, false); }
        0x64 => { lemma_store_op(c, b, StoreReg::Zero, Mode::Dp, 4, 3, true); }
        0x65 => { lemma_read_op(c, b, ReadKind::Adc, Mode::Dp, 4, 3, true); }
        0x66 => { lemma_rmw_op(c, b, RmwKind::Ror, Mode::Dp, 7, 5, false); }
        0x67 => { lemma_read_op(c, b, ReadKind::Adc, Mode::DpIndLong, 7, 6, false); }
        0x68 => { lemma_pull_op(c, b, PullReg::A); }
        0x69 => { lemma_read_op(c, b, ReadKind::Adc, Mode::Imm, 3, 2, false); }
        0x6A => { lemma_reg_op(c, RegOp::RorA); }
        0x6B => { lemma_flow_ops(c, b, true); }
        0x6C => { lemma_flow_ops(c, b, true); }
        0x6D => { lemma_read_op(c, b, ReadKind::Adc, Mode::Abs, 5, 4, false); }
        0x6E => { lemma_rmw_op(c, b, RmwKind::Ror, Mode::Abs, 7, 5, false); }
        0x6F => { lemma_read_op(c, b, ReadKind::Adc, Mode::Long, 6, 5, false); }
        0x70 => { lemma_flow_ops(c, b, flag_on(c.p, FLAG_V)); }
        0x71 => { lemma_read_op(c, b, ReadKind::Adc, Mode::DpIndY, 7, 6, false); }
        0x72 => { lemma_read_op(c, b, ReadKind::Adc, Mode::DpInd, 6, 5, false); }
        0x73 => { lemma_read_op(c, b, ReadKind::Adc, Mode::SrIndY, 8, 7, false); }
        0x74 => { lemma_store_op(c, b, StoreReg::Zero, Mode::DpX, 5, 4, true); }
        0x75 => { lemma_read_op(c, b, ReadKind::Adc, Mode::DpX, 5, 4, false); }
        0x76 => { lemma_rmw_op(c, b, RmwKind::Ror, Mode::DpX, 8, 6, false); }
        0x77 => { lemma_read_op(c, b, ReadKind::Adc, Mode::DpIndLongY, 7, 6, false); }
        0x78 => { lemma_reg_op(c, RegOp::Sei); }
        0x79 => { lemma_read_op(c, b, ReadKind::Adc, Mode::AbsY, 6, 5, false); }
        0x7A => { lemma_pull_op(c, b, PullReg::Y); }
        0x7B => { lemma_reg_op(c, RegOp::Tdc); }
        0x7C => { lemma_flow_ops(c, b, true); }
        0x7D => { lemma_read_op(c, b, ReadKind::Adc, Mode::AbsX, 6, 5, false); }
        0x7E => { lemma_rmw_op(c, b, RmwKind::Ror, Mode::AbsX, 9, 7, false); }
        0x7F => { lemma_read_op(c, b, ReadKind::Adc, Mode::LongX, 6, 5, false); }
        0x80 => { lemma_flow_ops(c, b, true); }
        0x81 => { lemma_store_op(c, b, StoreReg::A, Mode::DpIndX, 7, 6, false); }
        0x82 => { lemma_flow_ops(c, b, true); }
        0x83 => { lemma_store_op(c, b, StoreReg::A, Mode::Sr, 5, 4, false); }
        0x84 => { lemma_store_op(c, b, StoreReg::Y, Mode::Dp, 4, 3, true); }
        0x85 => { lemma_store_op(c, b, StoreReg::A, Mode::Dp, 4, 3, true); }
        0x86 => { lemma_store_op(c, b, StoreReg::X, Mode::Dp, 4, 3, true); }
        0x87 => { lemma_store_op(c, b, StoreReg::A, Mode::DpIndLong, 7, 6, false); }
        0x88 => { lemma_reg_op(c, RegOp::Dey); }
        0x89 => { lemma_read_op(c, b, ReadKind::Bit, Mode::Imm, 3, 2, false); }
        0x8A => { lemma_reg_op(c, RegOp::Txa); }
        0x8B => { lemma_push_op(c, b, PushReg::Db); }
        0x8C => { lemma_store_op(c, b, StoreReg::Y, Mode::Abs, 5, 4, false); }
        0x8D => { lemma_store_op(c, b, StoreReg::A, Mode::Abs, 5, 4, false); }
        0x8E => { lemma_store_op(c, b, StoreReg::X, Mode::Abs, 5, 4, false); }
        0x8F => { lemma_store_op(c, b, StoreReg::A, Mode::Long, 6, 5, false); }
        0x90 => { lemma_flow_ops(c, b, !flag_on(c.p, FLAG_C)); }
        0x91 => { lemma_store_op(c, b, StoreReg::A, Mode::DpIndY, 7, 6, false); }
        0x92 => { lemma_store_op(c, b, StoreReg::A, Mode::DpInd, 6, 5, false); }
        0x93 => { lemma_store_op(c, b, StoreReg::A, Mode::SrIndY, 8, 7, false); }
        0x94 => { lemma_store_op(c, b, StoreReg::Y, Mode::DpX, 5, 4, true); }
        0x95 => { lemma_store_op(c, b, StoreReg::A, Mode::DpX, 5, 4, true); }
        0x96 => { lemma_store_op(c, b, StoreReg::X, Mode::DpY, 5, 4, true); }
        0x97 => { lemma_store_op(c, b, StoreReg::A, Mode::DpIndLongY, 7, 6, false); }
        0x98 => { lemma_reg_op(c, RegOp::Tya); }
        0x99 => { lemma_store_op(c, b, StoreReg::A, Mode::AbsY, 6, 5, false); }
        0x9A => { lemma_reg_op(c, RegOp::Txs); }
        0x9B => { lemma_reg_op(c, RegOp::Txy); }
        0x9C => { lemma_store_op(c, b, StoreReg::Zero, Mode::Abs, 5, 4, false); }
        0x9D => { lemma_store_op(c, b, StoreReg::A, Mode::AbsX, 6, 5, false); }
        0x9E => { lemma_store_op(c, b, StoreReg::Zero, Mode::AbsX, 6, 5, false); }
        0x9F => { lemma_store_op(c, b, StoreReg::A, Mode::LongX, 6, 5, false); }
        0xA0 => { lemma_read_op(c, b, ReadKind::Ldy, Mode::Imm, 3, 2, false); }
        0xA1 => { lemma_read_op(c, b, ReadKind::Lda, Mode::DpIndX, 7, 6, false); }
        0xA2 => { lemma_read_op(c, b, ReadKind::Ldx, Mode::Imm, 3, 2, false); }
        0xA3 => { lemma_read_op(c, b, ReadKind::Lda, Mode::Sr, 5, 4, false); }
        0xA4 => { lemma_read_op(c, b, ReadKind::Ldy, Mode::Dp, 4, 3, true); }
        0xA5 => { lemma_read_op(c, b, ReadKind::Lda, Mode::Dp, 4, 3, true); }
        0xA6 => { lemma_read_op(c, b, ReadKind::Ldx, Mode::Dp, 4, 3, true); }
        0xA7 => { lemma_read_op(c, b, ReadKind::Lda, Mode::DpIndLong, 7, 6, false); }
        0xA8 => { lemma_reg_op(c, RegOp::Tay); }
        0xA9 => { lemma_read_op(c, b, ReadKind::Lda, Mode::Imm, 3, 2, false); }
        0xAA => { lemma_reg_op(c, RegOp::Tax); }
        0xAB => { lemma_pull_op(c, b, PullReg::Db); }
        0xAC => { lemma_read_op(c, b, ReadKind::Ldy, Mode::Abs, 5, 4, false); }
        0xAD => { lemma_read_op(c, b, ReadKind::Lda, Mode::Abs, 5, 4, false); }
        0xAE => { lemma_read_op(c, b, ReadKind::Ldx, Mode::Abs, 5, 4, false); }
        0xAF => { lemma_read_op(c, b, ReadKind::Lda, Mode::Long, 6, 5, false); }
        0xB0 => { lemma_flow_ops(c, b, flag_on(c.p, FLAG_C)); }
        0xB1 => { lemma_read_op(c, b, ReadKind::Lda, Mode::DpIndY, 7, 6, false); }
        0xB2 => { lemma_read_op(c, b, ReadKind::Lda, Mode::DpInd, 6, 5, false); }
        0xB3 => { lemma_read_op(c, b, ReadKind::Lda, Mode::SrIndY, 8, 7, false); }
        0xB4 => { lemma_read_op(c, b, ReadKind::Ldy, Mode::DpX, 5, 4, true); }
        0xB5 => { lemma_read_op(c, b, ReadKind::Lda, Mode::DpX, 5, 4, true); }
        0xB6 => { lemma_read_op(c, b, ReadKind::Ldx, Mode::DpY, 5, 4, true); }
        0xB7 => { lemma_read_op(c, b, ReadKind::Lda, Mode::DpIndLongY, 7, 6, false); }
        0xB8 => { lemma_reg_op(c, RegOp::Clv); }
        0xB9 => { lemma_read_op(c, b, ReadKind::Lda, Mode::AbsY, 6, 5, false); }
        0xBA => { lemma_reg_op(c, RegOp::Tsx); }
        0xBB => { lemma_reg_op(c, RegOp::Tyx); }
        0xBC => { lemma_read_op(c, b, ReadKind::Ldy, Mode::AbsX, 5, 4, false); }
        0xBD => { lemma_read_op(c, b, ReadKind::Lda, Mode::AbsX, 5, 4, false); }
        0xBE => { lemma_read_op(c, b, ReadKind::Ldx, Mode::AbsY, 5, 4, false); }
        0xBF => { lemma_read_op(c, b, ReadKind::Lda, Mode::LongX, 6, 5, false); }
        0xC0 => { lemma_read_op(c, b, ReadKind::Cpy, Mode::Imm, 3, 2, false); }
        0xC1 => { lemma_read_op(c, b, ReadKind::Cmp, Mode::DpIndX, 7, 6, false); }
        0xC2 => { lemma_stack_ops(c, b); }
        0xC3 => { lemma_read_op(c, b, ReadKind::Cmp, Mode::Sr, 5, 4, false); }
        0xC4 => { lemma_read_op(c, b, ReadKind::Cpy, Mode::Dp, 4, 3, false); }
        0xC5 => { lemma_read_op(c, b, ReadKind::Cmp, Mode::Dp, 4, 3, false); }
        0xC6 => { lemma_rmw_op(c, b, RmwKind::Dec, Mode::Dp, 7, 5, false); }
        0xC7 => { lemma_read_op(c, b, ReadKind::Cmp, Mode::DpIndLong, 7, 6, false); }
        0xC8 => { lemma_reg_op(c, RegOp::Iny); }
        0xC9 => { lemma_read_op(c, b, ReadKind::Cmp, Mode::Imm, 3, 2, false); }
        0xCA => { lemma_reg_op(c, RegOp::Dex); }
        0xCB => { lemma_reg_op(c, RegOp::Wai); }
        0xCC => { lemma_read_op(c, b, ReadKind::Cpy, Mode::Abs, 4, 3, false); }
        0xCD => { lemma_read_op(c, b, ReadKind::Cmp, Mode::Abs, 4, 3, false); }
        0xCE => { lemma_rmw_op(c, b, RmwKind::Dec, Mode::Abs, 7, 5, false); }
        0xCF => { lemma_read_op(c, b, ReadKind::Cmp, Mode::Long, 6, 5, false); }
        0xD0 => { lemma_flow_ops(c, b, !flag_on(c.p, FLAG_Z)); }
        0xD1 => { lemma_read_op(c, b, ReadKind::Cmp, Mode::DpIndY, 7, 6, false); }
        0xD2 => { lemma_read_op(c, b, ReadKind::Cmp, Mode::DpInd, 6, 5, false); }
        0xD3 => { lemma_read_op(c, b, ReadKind::Cmp, Mode::SrIndY, 8, 7, false); }
        0xD4 => { lemma_stack_ops(c, b); }
        0xD5 => { lemma_read_op(c, b, ReadKind::Cmp, Mode::DpX, 5, 4, false); }
        0xD6 => { lemma_rmw_op(c, b, RmwKind::Dec, Mode::DpX, 8, 6, false); }
        0xD7 => { lemma_read_op(c, b, ReadKind::Cmp, Mode::DpIndLongY, 7, 6, false); }
        0xD8 => { lemma_reg_op(c, RegOp::Cld); }
        0xD9 => { lemma_read_op(c, b, ReadKind::Cmp, Mode::AbsY, 6, 5, false); }
        0xDA => { lemma_push_op(c, b, PushReg::X); }
        0xDB => { lemma_reg_op(c, RegOp::Wai); }
        0xDC => { lemma_flow_ops(c, b, true); }
        0xDD => { lemma_read_op(c, b, ReadKind::Cmp, Mode::AbsX, 6, 5, false); }
        0xDE => { lemma_rmw_op(c, b, RmwKind::Dec, Mode::AbsX, 9, 7, false); }
        0xDF => { lemma_read_op(c, b, ReadKind::Cmp, Mode::LongX, 6, 5, false); }
        0xE0 => { lemma_read_op(c, b, ReadKind::Cpx, Mode::Imm, 3, 2, false); }
        0xE1 => { lemma_read_op(c, b, ReadKind::Sbc, Mode::DpIndX, 7, 6, false); }
        0xE2 => { lemma_stack_ops(c, b); }
        0xE3 => { lemma_read_op(c, b, ReadKind::Sbc, Mode::Sr, 5, 4, false); }
        0xE4 => { lemma_read_op(c, b, ReadKind::Cpx, Mode::Dp, 4, 3, false); }
        0xE5 => { lemma_read_op(c, b, ReadKind::Sbc, Mode::Dp, 4, 3, true); }
        0xE6 => { lemma_rmw_op(c, b, RmwKind::Inc, Mode::Dp, 7, 5, false); }
        0xE7 => { lemma_read_op(c, b, ReadKind::Sbc, Mode::DpIndLong, 7, 6, false); }
        0xE8 => { lemma_reg_op(c, RegOp::Inx); }
        0xE9 => { lemma_read_op(c, b, ReadKind::Sbc, Mode::Imm, 3, 2, false); }
        0xEA => { lemma_reg_op(c, RegOp::Nop); }
        0xEB => { lemma_reg_op(c, RegOp::Xba); }
        0xEC => { lemma_read_op(c, b, ReadKind::Cpx, Mode::Abs, 4, 3, false); }
        0xED => { lemma_read_op(c, b, ReadKind::Sbc, Mode::Abs, 5, 4, false); }
        0xEE => { lemma_rmw_op(c, b, RmwKind::Inc, Mode::Abs, 7, 5, false); }
        0xEF => { lemma_read_op(c, b, ReadKind::Sbc, Mode::Long, 6, 5, false); }
        0xF0 => { lemma_flow_ops(c, b, flag_on(c.p, FLAG_Z)); }
        0xF1 => { lemma_read_op(c, b, ReadKind::Sbc, Mode::DpIndY, 7, 6, false); }
        0xF2 => { lemma_read_op(c, b, ReadKind::Sbc, Mode::DpInd, 6, 5, false); }
        0xF3 => { lemma_read_op(c, b, ReadKind::Sbc, Mode::SrIndY, 8, 7, false); }
        0xF4 => { lemma_stack_ops(c, b); }
        0xF5 => { lemma_read_op(c, b, ReadKind::Sbc, Mode::DpX, 5, 4, false); }
        0xF6 => { lemma_rmw_op(c, b, RmwKind::Inc, Mode::DpX, 8, 6, false); }
        0xF7 => { lemma_read_op(c, b, ReadKind::Sbc, Mode::DpIndLongY, 7, 6, false); }
        0xF8 => { lemma_reg_op(c, RegOp::Sed); }
        0xF9 => { lemma_read_op(c, b, ReadKind::Sbc, Mode::AbsY, 6, 5, false); }
        0xFA => { lemma_pull_op(c, b, PullReg::X); }
        0xFB => { lemma_reg_op(c, RegOp::Xce); }
        0xFC => { lemma_call_ops(c, b); }
        0xFD => { lemma_read_op(c, b, ReadKind::Sbc, Mode::AbsX, 6, 5, false); }
        0xFE => { lemma_rmw_op(c, b, RmwKind::Inc, Mode::AbsX, 9, 7, false); }
        0xFF => { lemma_read_op(c, b, ReadKind::Sbc, Mode::LongX, 6, 5, false); }
    }
}

/// Every instruction keeps the emulation-mode widths (with E set, M and X
/// stay set and X and Y fit in 8 bits), except a block move whose 16-bit
/// stepping of X and Y would leave $00-$FF.
pub proof fn lemma_execute_keeps_widths<B: MemoryBus>(c: Cpu, b: B, opcode: u8)
    requires
        widths_ok(c),
        opcode == 0x54 ==> move_fits(c, c.a + 1, true),
        opcode == 0x44 ==> move_fits(c, c.a + 1, false),
    ensures
        widths_ok(execute_spec(c, b, opcode).0),
{
    if opcode == 0x54 {
        lemma_move_op(c, b, true);
    } else if opcode == 0x44 {
        lemma_move_op(c, b, false);
    } else {
        lemma_base_op(c, b, opcode);
    }
}

/// A step keeps the emulation-mode widths, unless it runs a block move that
/// carries X or Y outside $00-$FF.
pub proof fn lemma_step_keeps_widths<B: MemoryBus>(c: Cpu, b: B)
    requires
        widths_ok(c),
        fetch8(c, b).2 matches Ok(op) ==> (op == 0x54 ==> move_fits(c, c.a + 1, true)) && (op == 0x44 ==> move_fits(
            c,
            c.a + 1,
            false,
        )),
    ensures
        widths_ok(step_spec(c, b).0),
{
    lemma_fetch_only_pc(c, b);
    let m = fetch8(c, b);
    if let Ok(op) = m.2 {
        lemma_execute_keeps_widths(m.0, m.1, op);
    }
}

/// NMI and IRQ entry keep the emulation-mode widths, and reset establishes
/// them.
pub proof fn lemma_interrupts_and_reset_keep_widths<B: MemoryBus>(c: Cpu, b: B)
    requires
        widths_ok(c),
    ensures
        widths_ok(nmi_spec(c, b).0),
        widths_ok(irq_spec(c, b).0),
        widths_ok(reset_spec(c, b).0),
{
    lemma_interrupt(Cpu { waiting_for_interrupt: false, ..c }, b, 0xFFEA, 0xFFFA);
    lemma_interrupt(Cpu { waiting_for_interrupt: false, ..c }, b, 0xFFEE, 0xFFFE);
    lemma_p_bits(FLAG_I, 0);
}

/// A new CPU starts with the emulation-mode widths in place.
pub proof fn lemma_fresh_widths()
    ensures
        widths_ok(fresh_cpu()),
{
    lemma_p_bits(FLAG_I, 0);
}

} // verus!
