//! The instructions that use the stack or change the flow of control:
//! pushes and pulls, REP/SEP, branches, jumps and calls, returns, software
//! and hardware interrupts, and the block moves.
use vstd::prelude::*;
use super::{Cpu, CpuFlags, FLAG_D, FLAG_I, FLAG_M, FLAG_X};
use super::spec::{bind, flag_on, nz16, nz8, nz_w, merge_a, enforce_widths_spec, fetch8, fetch16, read8, write8,
    long_addr, word, push, pull};
use super::addressing::{dp_spec, ptr16_spec};
use crate::bus::{BusResult, MemoryBus};

verus! {

/// A register pushed by PHA/PHX/PHY/PHP/PHB/PHD/PHK.
#[derive(Debug, Clone, Copy, PartialEq, Eq, Structural)]
pub enum PushReg {
    A,
    X,
    Y,
    P,
    Db,
    D,
    Pb,
}

/// The value pushed and whether it is 16-bit.
pub open spec fn push_source(c: Cpu, r: PushReg) -> (u16, bool) {
    match r {
        PushReg::A => (c.a, !flag_on(c.p, FLAG_M)),
        PushReg::X => (c.x, !flag_on(c.p, FLAG_X)),
        PushReg::Y => (c.y, !flag_on(c.p, FLAG_X)),
        PushReg::P => (c.p.0 as u16, false),
        PushReg::Db => (c.db as u16, false),
        PushReg::D => (c.d, true),
        PushReg::Pb => (c.pb as u16, false),
    }
}

pub open spec fn push_cycles(r: PushReg) -> u8 {
    if r == PushReg::D { 4 } else { 3 }
}

/// PHA/PHX/PHY/PHP/PHB/PHD/PHK.
pub open spec fn push_op_spec<B: MemoryBus>(c: Cpu, b: B, r: PushReg) -> (Cpu, B, BusResult<u8>) {
    bind(push(c, b, push_source(c, r).0, push_source(c, r).1), |c1: Cpu, b1: B, u: ()| (c1, b1, Ok(push_cycles(r))))
}

/// A register pulled by PLA/PLX/PLY/PLP/PLB/PLD.
#[derive(Debug, Clone, Copy, PartialEq, Eq, Structural)]
pub enum PullReg {
    A,
    X,
    Y,
    P,
    Db,
    D,
}

pub open spec fn pull_wide(c: Cpu, r: PullReg) -> bool {
    match r {
        PullReg::A => !flag_on(c.p, FLAG_M),
        PullReg::X | PullReg::Y => !flag_on(c.p, FLAG_X),
        PullReg::D => true,
        _ => false,
    }
}

/// The registers after pulling `v`: loads set N and Z (PLP instead
/// replaces P and re-applies the emulation-mode widths).
pub open spec fn pull_into(c: Cpu, r: PullReg, v: u16, wide: bool) -> Cpu {
    match r {
        PullReg::A => Cpu { a: merge_a(c.a, v, wide), p: nz_w(c.p, merge_a(c.a, v, wide), wide), ..c },
        PullReg::X => Cpu { x: v, p: nz_w(c.p, v, wide), ..c },
        PullReg::Y => Cpu { y: v, p: nz_w(c.p, v, wide), ..c },
        PullReg::P => enforce_widths_spec(Cpu { p: CpuFlags(v as u8), ..c }),
        PullReg::Db => Cpu { db: v as u8, p: nz8(c.p, v as u8), ..c },
        PullReg::D => Cpu { d: v, p: nz16(c.p, v), ..c },
    }
}

pub open spec fn pull_cycles(r: PullReg) -> u8 {
    if r == PullReg::D { 5 } else { 4 }
}

/// PLA/PLX/PLY/PLP/PLB/PLD.
pub open spec fn pull_op_spec<B: MemoryBus>(c: Cpu, b: B, r: PullReg) -> (Cpu, B, BusResult<u8>) {
    let wide = pull_wide(c, r);
    bind(pull(c, b, wide), |c1: Cpu, b1: B, v: u16| (pull_into(c1, r, v, wide), b1, Ok(pull_cycles(r))))
}

/// PEA: pushes the 16-bit operand.
pub open spec fn pea_spec<B: MemoryBus>(c: Cpu, b: B) -> (Cpu, B, BusResult<u8>) {
    bind(fetch16(c, b), |c1: Cpu, b1: B, v: u16| bind(push(c1, b1, v, true), |c2: Cpu, b2: B, u: ()| (c2, b2, Ok(5u8))))
}

/// PEI: pushes the 16-bit word at a direct-page address.
pub open spec fn pei_spec<B: MemoryBus>(c: Cpu, b: B) -> (Cpu, B, BusResult<u8>) {
    bind(dp_spec(c, b), |c1: Cpu, b1: B, at: u32|
        bind(ptr16_spec(c1, b1, at), |c2: Cpu, b2: B, v: u16|
            bind(push(c2, b2, v, true), |c3: Cpu, b3: B, u: ()| (c3, b3, Ok(6u8)))))
}

/// PER: pushes PC plus the 16-bit operand.
pub open spec fn per_spec<B: MemoryBus>(c: Cpu, b: B) -> (Cpu, B, BusResult<u8>) {
    bind(fetch16(c, b), |c1: Cpu, b1: B, o: u16|
        bind(push(c1, b1, c1.pc.wrapping_add(o), true), |c2: Cpu, b2: B, u: ()| (c2, b2, Ok(6u8))))
}

/// REP: clears the flags of the operand mask, then re-applies the
/// emulation-mode widths.
pub open spec fn rep_spec<B: MemoryBus>(c: Cpu, b: B) -> (Cpu, B, BusResult<u8>) {
    bind(fetch8(c, b), |c1: Cpu, b1: B, m: u8| (enforce_widths_spec(Cpu { p: CpuFlags(c1.p.0 & !m), ..c1 }), b1, Ok(3u8)))
}

/// SEP: sets the flags of the operand mask; setting X truncates X and Y.
pub open spec fn sep_spec<B: MemoryBus>(c: Cpu, b: B) -> (Cpu, B, BusResult<u8>) {
    bind(fetch8(c, b), |c1: Cpu, b1: B, m: u8| {
        let c2 = Cpu { p: CpuFlags(c1.p.0 | m), ..c1 };
        let c3 = if m & FLAG_X != 0 { Cpu { x: c2.x & 0x00FF, y: c2.y & 0x00FF, ..c2 } } else { c2 };
        (c3, b1, Ok(3u8))
    })
}

/// WDM: a reserved opcode that skips one operand byte.
pub open spec fn wdm_spec<B: MemoryBus>(c: Cpu, b: B) -> (Cpu, B, BusResult<u8>) {
    bind(fetch8(c, b), |c1: Cpu, b1: B, v: u8| (c1, b1, Ok(2u8)))
}

/// An 8-bit branch displacement sign-extended to 16 bits.
pub open spec fn sign_extend8(v: u8) -> u16 {
    if v < 0x80 {
        v as u16
    } else {
        0xFF00 | (v as u16)
    }
}

/// A relative branch: taken when `cond`, costing 3 cycles (one more when
/// it crosses a page in emulation mode), else 2.
pub open spec fn branch_spec<B: MemoryBus>(c: Cpu, b: B, cond: bool) -> (Cpu, B, BusResult<u8>) {
    bind(fetch8(c, b), |c1: Cpu, b1: B, o: u8|
        if cond {
            let npc = c1.pc.wrapping_add(sign_extend8(o));
            let cross = c1.e && (c1.pc & 0xFF00) != (npc & 0xFF00);
            (Cpu { pc: npc, ..c1 }, b1, Ok(if cross { 4u8 } else { 3u8 }))
        } else {
            (c1, b1, Ok(2u8))
        })
}

/// BRL: PC plus a 16-bit displacement.
pub open spec fn brl_spec<B: MemoryBus>(c: Cpu, b: B) -> (Cpu, B, BusResult<u8>) {
    bind(fetch16(c, b), |c1: Cpu, b1: B, o: u16| (Cpu { pc: c1.pc.wrapping_add(o), ..c1 }, b1, Ok(4u8)))
}

/// JMP addr.
pub open spec fn jmp_abs_spec<B: MemoryBus>(c: Cpu, b: B) -> (Cpu, B, BusResult<u8>) {
    bind(fetch16(c, b), |c1: Cpu, b1: B, t: u16| (Cpu { pc: t, ..c1 }, b1, Ok(3u8)))
}

/// JMP (addr): the target is the word at `addr` in bank 0.
pub open spec fn jmp_ind_spec<B: MemoryBus>(c: Cpu, b: B) -> (Cpu, B, BusResult<u8>) {
    bind(fetch16(c, b), |c1: Cpu, b1: B, ptr: u16|
        bind(ptr16_spec(c1, b1, ptr as u32), |c2: Cpu, b2: B, t: u16| (Cpu { pc: t, ..c2 }, b2, Ok(5u8))))
}

/// JMP (addr,X): the target is the word at `addr + X` in the program bank.
pub open spec fn jmp_ix_spec<B: MemoryBus>(c: Cpu, b: B) -> (Cpu, B, BusResult<u8>) {
    bind(fetch16(c, b), |c1: Cpu, b1: B, ptr: u16|
        bind(ptr16_spec(c1, b1, long_addr(c1.pb, ptr.wrapping_add(c1.x))), |c2: Cpu, b2: B, t: u16|
            (Cpu { pc: t, ..c2 }, b2, Ok(6u8))))
}

/// JML addr: a 24-bit jump.
pub open spec fn jml_spec<B: MemoryBus>(c: Cpu, b: B) -> (Cpu, B, BusResult<u8>) {
    bind(fetch8(c, b), |c1: Cpu, b1: B, lo: u8|
        bind(fetch8(c1, b1), |c2: Cpu, b2: B, mid: u8|
            bind(fetch8(c2, b2), |c3: Cpu, b3: B, bank: u8| (Cpu { pc: word(lo, mid), pb: bank, ..c3 }, b3, Ok(4u8)))))
}

/// JML [addr]: the 24-bit target is read from `addr` in bank 0.
pub open spec fn jml_ind_spec<B: MemoryBus>(c: Cpu, b: B) -> (Cpu, B, BusResult<u8>) {
    bind(fetch16(c, b), |c1: Cpu, b1: B, ptr: u16|
        bind(read8(c1, b1, ptr as u32), |c2: Cpu, b2: B, lo: u8|
            bind(read8(c2, b2, (ptr as u32).wrapping_add(1)), |c3: Cpu, b3: B, mid: u8|
                bind(read8(c3, b3, (ptr as u32).wrapping_add(2)), |c4: Cpu, b4: B, bank: u8|
                    (Cpu { pc: word(lo, mid), pb: bank, ..c4 }, b4, Ok(6u8))))))
}

/// JSR addr: pushes the address of the operand's last byte, then jumps.
pub open spec fn jsr_abs_spec<B: MemoryBus>(c: Cpu, b: B) -> (Cpu, B, BusResult<u8>) {
    bind(fetch16(c, b), |c1: Cpu, b1: B, t: u16|
        bind(push(c1, b1, c1.pc.wrapping_sub(1), true), |c2: Cpu, b2: B, u: ()| (Cpu { pc: t, ..c2 }, b2, Ok(6u8))))
}

/// JSR (addr,X).
pub open spec fn jsr_ix_spec<B: MemoryBus>(c: Cpu, b: B) -> (Cpu, B, BusResult<u8>) {
    bind(fetch16(c, b), |c1: Cpu, b1: B, ptr: u16|
        bind(push(c1, b1, c1.pc.wrapping_sub(1), true), |c2: Cpu, b2: B, u: ()|
            bind(ptr16_spec(c2, b2, long_addr(c2.pb, ptr.wrapping_add(c2.x))), |c3: Cpu, b3: B, t: u16|
                (Cpu { pc: t, ..c3 }, b3, Ok(8u8)))))
}

/// JSL long: pushes PB then the return address, then jumps.
pub open spec fn jsl_spec<B: MemoryBus>(c: Cpu, b: B) -> (Cpu, B, BusResult<u8>) {
    bind(fetch8(c, b), |c1: Cpu, b1: B, lo: u8|
        bind(fetch8(c1, b1), |c2: Cpu, b2: B, mid: u8|
            bind(fetch8(c2, b2), |c3: Cpu, b3: B, bank: u8|
                bind(push(c3, b3, c3.pb as u16, false), |c4: Cpu, b4: B, u: ()|
                    bind(push(c4, b4, c3.pc.wrapping_sub(1), true), |c5: Cpu, b5: B, u2: ()|
                        (Cpu { pb: bank, pc: word(lo, mid), ..c5 }, b5, Ok(8u8)))))))
}

/// RTS: pulls the return address and resumes after it.
pub open spec fn rts_spec<B: MemoryBus>(c: Cpu, b: B) -> (Cpu, B, BusResult<u8>) {
    bind(pull(c, b, true), |c1: Cpu, b1: B, a: u16| (Cpu { pc: a.wrapping_add(1), ..c1 }, b1, Ok(6u8)))
}

/// RTL: pulls the return address and the program bank.
pub open spec fn rtl_spec<B: MemoryBus>(c: Cpu, b: B) -> (Cpu, B, BusResult<u8>) {
    bind(pull(c, b, true), |c1: Cpu, b1: B, a: u16|
        bind(pull(c1, b1, false), |c2: Cpu, b2: B, bank: u16| (Cpu { pb: bank as u8, pc: a.wrapping_add(1), ..c2 }, b2, Ok(6u8))))
}

/// RTI: pulls P (re-applying the emulation-mode widths), then PC, then in
/// native mode PB.
pub open spec fn rti_spec<B: MemoryBus>(c: Cpu, b: B) -> (Cpu, B, BusResult<u8>) {
    bind(pull(c, b, false), |c1: Cpu, b1: B, s: u16| {
        let c2 = enforce_widths_spec(Cpu { p: CpuFlags(s as u8), ..c1 });
        bind(pull(c2, b1, true), |c3: Cpu, b3: B, a: u16| {
            let c4 = Cpu { pc: a, ..c3 };
            if !c4.e {
                bind(pull(c4, b3, false), |c5: Cpu, b5: B, bank: u16| (Cpu { pb: bank as u8, ..c5 }, b5, Ok(7u8)))
            } else {
                (c4, b3, Ok(6u8))
            }
        })
    })
}

/// The interrupt sequence: in native mode PB is pushed, then PC and P; D is
/// cleared and I set; PC is loaded from the vector for the current mode and
/// PB cleared.
pub open spec fn interrupt_spec<B: MemoryBus>(c: Cpu, b: B, native: u32, emulation: u32) -> (Cpu, B, BusResult<()>) {
    let pushed_bank = if !c.e { push(c, b, c.pb as u16, false) } else { (c, b, Ok(())) };
    bind(pushed_bank, |c1: Cpu, b1: B, u: ()|
        bind(push(c1, b1, c1.pc, true), |c2: Cpu, b2: B, u2: ()|
            bind(push(c2, b2, c2.p.0 as u16, false), |c3: Cpu, b3: B, u3: ()| {
                let c4 = Cpu { p: CpuFlags((c3.p.0 & !FLAG_D) | FLAG_I), ..c3 };
                let vector = if c4.e { emulation } else { native };
                bind(ptr16_spec(c4, b3, vector), |c5: Cpu, b5: B, t: u16| (Cpu { pc: t, pb: 0, ..c5 }, b5, Ok(())))
            })))
}

/// BRK and COP: skip the signature byte, then the interrupt sequence.
pub open spec fn soft_interrupt_spec<B: MemoryBus>(c: Cpu, b: B, native: u32, emulation: u32) -> (Cpu, B, BusResult<u8>) {
    bind(fetch8(c, b), |c1: Cpu, b1: B, s: u8|
        bind(interrupt_spec(c1, b1, native, emulation), |c2: Cpu, b2: B, u: ()| (c2, b2, Ok(7u8))))
}

/// NMI: wakes the CPU and enters through $FFEA (native) / $FFFA (emulation).
pub open spec fn nmi_spec<B: MemoryBus>(c: Cpu, b: B) -> (Cpu, B, BusResult<()>) {
    interrupt_spec(Cpu { waiting_for_interrupt: false, ..c }, b, 0xFFEA, 0xFFFA)
}

/// IRQ: wakes the CPU and enters through $FFEE (native) / $FFFE (emulation).
pub open spec fn irq_spec<B: MemoryBus>(c: Cpu, b: B) -> (Cpu, B, BusResult<()>) {
    interrupt_spec(Cpu { waiting_for_interrupt: false, ..c }, b, 0xFFEE, 0xFFFE)
}

/// Copies `count` bytes from bank `src` at X to bank `dst` at Y, stepping X
/// and Y up (MVN) or down (MVP) after each byte; a failed access ends the
/// move with the registers as they stood.
pub open spec fn block_move_spec<B: MemoryBus>(c: Cpu, b: B, src: u8, dst: u8, count: u32, up: bool) -> (Cpu, B, BusResult<()>)
    decreases count,
{
    if count == 0 {
        (c, b, Ok(()))
    } else {
        let (b1, r1) = b.read_spec(long_addr(src, c.x));
        match r1 {
            Err(e) => (c, b1, Err(e)),
            Ok(byte) => {
                let (b2, r2) = b1.write_spec(long_addr(dst, c.y), byte);
                match r2 {
                    Err(e) => (c, b2, Err(e)),
                    Ok(_) => {
                        let nx = if up { c.x.wrapping_add(1) } else { c.x.wrapping_sub(1) };
                        let ny = if up { c.y.wrapping_add(1) } else { c.y.wrapping_sub(1) };
                        block_move_spec(Cpu { x: nx, y: ny, ..c }, b2, src, dst, (count - 1) as u32, up)
                    },
                }
            },
        }
    }
}

/// MVN/MVP: A + 1 bytes are moved; A ends at $FFFF and DB at the
/// destination bank; 7 cycles per byte.
pub open spec fn move_op_spec<B: MemoryBus>(c: Cpu, b: B, up: bool) -> (Cpu, B, BusResult<u32>) {
    bind(fetch8(c, b), |c1: Cpu, b1: B, dst: u8|
        bind(fetch8(c1, b1), |c2: Cpu, b2: B, src: u8|
            bind(block_move_spec(c2, b2, src, dst, (c2.a + 1) as u32, up), |c3: Cpu, b3: B, u: ()|
                (Cpu { a: 0xFFFF, db: dst, ..c3 }, b3, Ok(((c2.a + 1) * 7) as u32)))))
}

impl Cpu {
    /// PHA/PHX/PHY/PHP/PHB/PHD/PHK.
    pub fn push_register<B: MemoryBus>(&mut self, bus: &mut B, reg: PushReg) -> (r: BusResult<u8>)
        ensures
            (*final(self), *final(bus), r) == push_op_spec(*old(self), *old(bus), reg),
    {
        let (value, is_16bit) = match reg {
            PushReg::A => (self.a, !self.p.contains(FLAG_M)),
            PushReg::X => (self.x, !self.p.contains(FLAG_X)),
            PushReg::Y => (self.y, !self.p.contains(FLAG_X)),
            PushReg::P => (self.p.bits() as u16, false),
            PushReg::Db => (self.db as u16, false),
            PushReg::D => (self.d, true),
            PushReg::Pb => (self.pb as u16, false),
        };
        self.push_stack(bus, value, is_16bit)?;
        Ok(if reg == PushReg::D { 4 } else { 3 })
    }

    /// PLA/PLX/PLY/PLP/PLB/PLD.
    pub fn pull_register<B: MemoryBus>(&mut self, bus: &mut B, reg: PullReg) -> (r: BusResult<u8>)
        ensures
            (*final(self), *final(bus), r) == pull_op_spec(*old(self), *old(bus), reg),
    {
        let is_16bit = match reg {
            PullReg::A => !self.p.contains(FLAG_M),
            PullReg::X | PullReg::Y => !self.p.contains(FLAG_X),
            PullReg::D => true,
            _ => false,
        };
        let value = self.pull_stack(bus, is_16bit)?;
        match reg {
            PullReg::A => {
                self.set_a(value, is_16bit);
                self.update_nz_flags_mem(self.a, is_16bit);
            },
            PullReg::X => {
                self.x = value;
                self.update_nz_flags_mem(self.x, is_16bit);
            },
            PullReg::Y => {
                self.y = value;
                self.update_nz_flags_mem(self.y, is_16bit);
            },
            PullReg::P => {
                self.p = CpuFlags::from_bits_truncate(value as u8);
                self.enforce_emulation_mode_register_widths();
            },
            PullReg::Db => {
                self.db = value as u8;
                self.update_nz_flags_8(self.db);
            },
            PullReg::D => {
                self.d = value;
                self.update_nz_flags_16(self.d);
            },
        }
        Ok(if reg == PullReg::D { 5 } else { 4 })
    }

    /// PEA #addr.
    pub fn op_pea<B: MemoryBus>(&mut self, bus: &mut B) -> (r: BusResult<u8>)
        ensures
            (*final(self), *final(bus), r) == pea_spec(*old(self), *old(bus)),
    {
        let value = self.fetch_u16(bus)?;
        self.push_stack(bus, value, true)?;
        Ok(5)
    }

    /// PEI (dp).
    pub fn op_pei<B: MemoryBus>(&mut self, bus: &mut B) -> (r: BusResult<u8>)
        ensures
            (*final(self), *final(bus), r) == pei_spec(*old(self), *old(bus)),
    {
        let dp_addr = self.addr_direct_page(bus)?;
        let lo = bus.read_u8(dp_addr)?;
        let hi = bus.read_u8(dp_addr.wrapping_add(1))?;
        let value = ((hi as u16) << 8) | (lo as u16);
        self.push_stack(bus, value, true)?;
        Ok(6)
    }

    /// PER label.
    pub fn op_per<B: MemoryBus>(&mut self, bus: &mut B) -> (r: BusResult<u8>)
        ensures
            (*final(self), *final(bus), r) == per_spec(*old(self), *old(bus)),
    {
        let offset = self.fetch_u16(bus)?;
        let value = self.pc.wrapping_add(offset);
        self.push_stack(bus, value, true)?;
        Ok(6)
    }

    /// REP #mask.
    pub fn op_rep<B: MemoryBus>(&mut self, bus: &mut B) -> (r: BusResult<u8>)
        ensures
            (*final(self), *final(bus), r) == rep_spec(*old(self), *old(bus)),
    {
        let mask = self.fetch_u8(bus)?;
        self.p.remove(mask);
        self.enforce_emulation_mode_register_widths();
        Ok(3)
    }

    /// SEP #mask.
    pub fn op_sep<B: MemoryBus>(&mut self, bus: &mut B) -> (r: BusResult<u8>)
        ensures
            (*final(self), *final(bus), r) == sep_spec(*old(self), *old(bus)),
    {
        let mask = self.fetch_u8(bus)?;
        self.p.insert(mask);
        if mask & FLAG_X != 0 {
            self.x = self.x & 0x00FF;
            self.y = self.y & 0x00FF;
        }
        Ok(3)
    }

    /// WDM: fetches and ignores one byte.
    pub fn op_wdm<B: MemoryBus>(&mut self, bus: &mut B) -> (r: BusResult<u8>)
        ensures
            (*final(self), *final(bus), r) == wdm_spec(*old(self), *old(bus)),
    {
        self.fetch_u8(bus)?;
        Ok(2)
    }

    /// A relative branch on `condition`.
    pub fn branch_if<B: MemoryBus>(&mut self, condition: bool, bus: &mut B) -> (r: BusResult<u8>)
        ensures
            (*final(self), *final(bus), r) == branch_spec(*old(self), *old(bus), condition),
    {
        let b = self.fetch_u8(bus)?;
        let offset: u16 = if b < 0x80 { b as u16 } else { 0xFF00 | (b as u16) };
        if condition {
            let old_pc = self.pc;
            self.pc = self.pc.wrapping_add(offset);
            let mut cycles: u8 = 3;
            if self.e && (old_pc & 0xFF00) != (self.pc & 0xFF00) {
                cycles = cycles + 1;
            }
            Ok(cycles)
        } else {
            Ok(2)
        }
    }

    /// BRL: 16-bit relative branch, always taken.
    pub fn op_brl<B: MemoryBus>(&mut self, bus: &mut B) -> (r: BusResult<u8>)
        ensures
            (*final(self), *final(bus), r) == brl_spec(*old(self), *old(bus)),
    {
        let offset = self.fetch_u16(bus)?;
        self.pc = self.pc.wrapping_add(offset);
        Ok(4)
    }

    /// JMP addr.
    pub fn op_jmp_abs<B: MemoryBus>(&mut self, bus: &mut B) -> (r: BusResult<u8>)
        ensures
            (*final(self), *final(bus), r) == jmp_abs_spec(*old(self), *old(bus)),
    {
        self.pc = self.fetch_u16(bus)?;
        Ok(3)
    }

    /// A 16-bit little-endian word read from `at` and `at + 1`.
    fn read_word_at<B: MemoryBus>(&mut self, bus: &mut B, at: u32) -> (r: BusResult<u16>)
        ensures
            (*final(self), *final(bus), r) == ptr16_spec(*old(self), *old(bus), at),
    {
        let lo = bus.read_u8(at)?;
        let hi = bus.read_u8(at.wrapping_add(1))?;
        Ok(((hi as u16) << 8) | (lo as u16))
    }

    /// JMP (addr).
    pub fn op_jmp_ind<B: MemoryBus>(&mut self, bus: &mut B) -> (r: BusResult<u8>)
        ensures
            (*final(self), *final(bus), r) == jmp_ind_spec(*old(self), *old(bus)),
    {
        let ptr = self.fetch_u16(bus)?;
        self.pc = self.read_word_at(bus, ptr as u32)?;
        Ok(5)
    }

    /// JMP (addr,X).
    pub fn op_jmp_ix<B: MemoryBus>(&mut self, bus: &mut B) -> (r: BusResult<u8>)
        ensures
            (*final(self), *final(bus), r) == jmp_ix_spec(*old(self), *old(bus)),
    {
        let ptr = self.fetch_u16(bus)?;
        let ptr = ptr.wrapping_add(self.x);
        let addr = ((self.pb as u32) << 16) | (ptr as u32);
        self.pc = self.read_word_at(bus, addr)?;
        Ok(6)
    }

    /// JML long.
    pub fn op_jml<B: MemoryBus>(&mut self, bus: &mut B) -> (r: BusResult<u8>)
        ensures
            (*final(self), *final(bus), r) == jml_spec(*old(self), *old(bus)),
    {
        let lo = self.fetch_u8(bus)?;
        let mid = self.fetch_u8(bus)?;
        let bank = self.fetch_u8(bus)?;
        self.pc = ((mid as u16) << 8) | (lo as u16);
        self.pb = bank;
        Ok(4)
    }

    /// JML [addr].
    pub fn op_jml_indirect<B: MemoryBus>(&mut self, bus: &mut B) -> (r: BusResult<u8>)
        ensures
            (*final(self), *final(bus), r) == jml_ind_spec(*old(self), *old(bus)),
    {
        let ptr = self.fetch_u16(bus)? as u32;
        let lo = bus.read_u8(ptr)?;
        let mid = bus.read_u8(ptr.wrapping_add(1))?;
        let bank = bus.read_u8(ptr.wrapping_add(2))?;
        self.pc = ((mid as u16) << 8) | (lo as u16);
        self.pb = bank;
        Ok(6)
    }

    /// JSR addr.
    pub fn op_jsr_abs<B: MemoryBus>(&mut self, bus: &mut B) -> (r: BusResult<u8>)
        ensures
            (*final(self), *final(bus), r) == jsr_abs_spec(*old(self), *old(bus)),
    {
        let addr = self.fetch_u16(bus)?;
        let return_addr = self.pc.wrapping_sub(1);
        self.push_stack(bus, return_addr, true)?;
        self.pc = addr;
        Ok(6)
    }

    /// JSR (addr,X).
    pub fn op_jsr_ix<B: MemoryBus>(&mut self, bus: &mut B) -> (r: BusResult<u8>)
        ensures
            (*final(self), *final(bus), r) == jsr_ix_spec(*old(self), *old(bus)),
    {
        let operand = self.fetch_u16(bus)?;
        let return_addr = self.pc.wrapping_sub(1);
        self.push_stack(bus, return_addr, true)?;
        let ptr = operand.wrapping_add(self.x);
        let addr = ((self.pb as u32) << 16) | (ptr as u32);
        self.pc = self.read_word_at(bus, addr)?;
        Ok(8)
    }

    /// JSL long.
    pub fn op_jsl<B: MemoryBus>(&mut self, bus: &mut B) -> (r: BusResult<u8>)
        ensures
            (*final(self), *final(bus), r) == jsl_spec(*old(self), *old(bus)),
    {
        let lo = self.fetch_u8(bus)?;
        let mid = self.fetch_u8(bus)?;
        let target_bank = self.fetch_u8(bus)?;
        let target_offset = ((mid as u16) << 8) | (lo as u16);
        let return_addr = self.pc.wrapping_sub(1);
        self.push_stack(bus, self.pb as u16, false)?;
        self.push_stack(bus, return_addr, true)?;
        self.pb = target_bank;
        self.pc = target_offset;
        Ok(8)
    }

    /// RTS.
    pub fn op_rts<B: MemoryBus>(&mut self, bus: &mut B) -> (r: BusResult<u8>)
        ensures
            (*final(self), *final(bus), r) == rts_spec(*old(self), *old(bus)),
    {
        let addr = self.pull_stack(bus, true)?;
        self.pc = addr.wrapping_add(1);
        Ok(6)
    }

    /// RTL.
    pub fn op_rtl<B: MemoryBus>(&mut self, bus: &mut B) -> (r: BusResult<u8>)
        ensures
            (*final(self), *final(bus), r) == rtl_spec(*old(self), *old(bus)),
    {
        let addr = self.pull_stack(bus, true)?;
        let pb = self.pull_stack(bus, false)? as u8;
        self.pb = pb;
        self.pc = addr.wrapping_add(1);
        Ok(6)
    }

    /// RTI: pulls P, then PC, then (native mode) PB.
    pub fn op_rti<B: MemoryBus>(&mut self, bus: &mut B) -> (r: BusResult<u8>)
        ensures
            (*final(self), *final(bus), r) == rti_spec(*old(self), *old(bus)),
    {
        let status = self.pull_stack(bus, false)?;
        self.p = CpuFlags::from_bits_truncate(status as u8);
        self.enforce_emulation_mode_register_widths();
        self.pc = self.pull_stack(bus, true)?;
        if !self.e {
            self.pb = self.pull_stack(bus, false)? as u8;
            Ok(7)
        } else {
            Ok(6)
        }
    }

    /// The interrupt entry sequence shared by NMI, IRQ, BRK and COP.
    fn enter_interrupt<B: MemoryBus>(&mut self, bus: &mut B, native: u32, emulation: u32) -> (r: BusResult<()>)
        ensures
            (*final(self), *final(bus), r) == interrupt_spec(*old(self), *old(bus), native, emulation),
    {
        if !self.e {
            self.push_stack(bus, self.pb as u16, false)?;
        }
        self.push_stack(bus, self.pc, true)?;
        self.push_stack(bus, self.p.bits() as u16, false)?;
        self.p.remove(FLAG_D);
        self.p.insert(FLAG_I);
        let vector = if self.e { emulation } else { native };
        self.pc = self.read_word_at(bus, vector)?;
        self.pb = 0;
        Ok(())
    }

    /// Services a non-maskable interrupt: wakes the CPU, pushes the return
    /// context (PB in native mode, then PC and P) and jumps through the
    /// NMI vector ($FFEA native, $FFFA emulation). To be called between
    /// `step()` calls.
    pub fn nmi<B: MemoryBus>(&mut self, bus: &mut B) -> (r: BusResult<()>)
        ensures
            (*final(self), *final(bus), r) == nmi_spec(*old(self), *old(bus)),
    {
        self.waiting_for_interrupt = false;
        self.enter_interrupt(bus, 0xFFEA, 0xFFFA)
    }

    /// Services a maskable interrupt through the IRQ vector ($FFEE native,
    /// $FFFE emulation). The caller checks the I flag first.
    pub fn irq<B: MemoryBus>(&mut self, bus: &mut B) -> (r: BusResult<()>)
        ensures
            (*final(self), *final(bus), r) == irq_spec(*old(self), *old(bus)),
    {
        self.waiting_for_interrupt = false;
        self.enter_interrupt(bus, 0xFFEE, 0xFFFE)
    }

    /// Resumes instruction fetch after WAI/STP when an interrupt line is
    /// asserted, without taking the interrupt.
    pub fn wake_if_interrupt_pending(&mut self, pending: bool)
        ensures
            *final(self) == (if pending { Cpu { waiting_for_interrupt: false, ..*old(self) } } else { *old(self) }),
    {
        if pending {
            self.waiting_for_interrupt = false;
        }
    }

    /// BRK: software interrupt through $FFE6 (native) / $FFFE (emulation).
    pub fn op_brk<B: MemoryBus>(&mut self, bus: &mut B) -> (r: BusResult<u8>)
        ensures
            (*final(self), *final(bus), r) == soft_interrupt_spec(*old(self), *old(bus), 0xFFE6, 0xFFFE),
    {
        self.fetch_u8(bus)?;
        self.enter_interrupt(bus, 0xFFE6, 0xFFFE)?;
        Ok(7)
    }

    /// COP: software interrupt through $FFE4 (native) / $FFF4 (emulation).
    pub fn op_cop<B: MemoryBus>(&mut self, bus: &mut B) -> (r: BusResult<u8>)
        ensures
            (*final(self), *final(bus), r) == soft_interrupt_spec(*old(self), *old(bus), 0xFFE4, 0xFFF4),
    {
        self.fetch_u8(bus)?;
        self.enter_interrupt(bus, 0xFFE4, 0xFFF4)?;
        Ok(7)
    }

    /// The byte loop of MVN/MVP.
    fn block_move<B: MemoryBus>(&mut self, bus: &mut B, src_bank: u8, dest_bank: u8, count: u32, up: bool) -> (r: BusResult<()>)
        ensures
            (*final(self), *final(bus), r) == block_move_spec(*old(self), *old(bus), src_bank, dest_bank, count, up),
    {
        let mut left = count;
        while left > 0
            invariant
                block_move_spec(*self, *bus, src_bank, dest_bank, left, up)
                    == block_move_spec(*old(self), *old(bus), src_bank, dest_bank, count, up),
            decreases left,
        {
            let byte = bus.read_u8(((src_bank as u32) << 16) | (self.x as u32))?;
            bus.write_u8(((dest_bank as u32) << 16) | (self.y as u32), byte)?;
            if up {
                self.x = self.x.wrapping_add(1);
                self.y = self.y.wrapping_add(1);
            } else {
                self.x = self.x.wrapping_sub(1);
                self.y = self.y.wrapping_sub(1);
            }
            left = left - 1;
        }
        Ok(())
    }

    /// MVN/MVP: moves A + 1 bytes; returns the full cycle cost, 7 per byte.
    fn block_move_op<B: MemoryBus>(&mut self, bus: &mut B, up: bool) -> (r: BusResult<u32>)
        ensures
            (*final(self), *final(bus), r) == move_op_spec(*old(self), *old(bus), up),
    {
        let dest_bank = self.fetch_u8(bus)?;
        let src_bank = self.fetch_u8(bus)?;
        let initial_count = (self.a as u32) + 1;
        self.block_move(bus, src_bank, dest_bank, initial_count, up)?;
        self.a = 0xFFFF;
        self.db = dest_bank;
        Ok(initial_count * 7)
    }

    /// MVN: block move with incrementing addresses.
    pub fn op_mvn<B: MemoryBus>(&mut self, bus: &mut B) -> (r: BusResult<u32>)
        ensures
            (*final(self), *final(bus), r) == move_op_spec(*old(self), *old(bus), true),
    {
        self.block_move_op(bus, true)
    }

    /// MVP: block move with decrementing addresses.
    pub fn op_mvp<B: MemoryBus>(&mut self, bus: &mut B) -> (r: BusResult<u32>)
        ensures
            (*final(self), *final(bus), r) == move_op_spec(*old(self), *old(bus), false),
    {
        self.block_move_op(bus, false)
    }
}

} // verus!
