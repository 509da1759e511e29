//! The register-only instructions: transfers, flag operations, register
//! increments and decrements, accumulator shifts, XBA and XCE.
use vstd::prelude::*;
use super::{Cpu, CpuFlags, FLAG_C, FLAG_D, FLAG_I, FLAG_M, FLAG_V, FLAG_X};
use super::spec::{flag_on, set_flag, nz16, nz8, merge_a};
use super::alu::{Shift, shift_acc_spec};

verus! {

/// A register-only instruction.
#[derive(Debug, Clone, Copy, PartialEq, Eq, Structural)]
pub enum RegOp {
    Nop,
    Tax,
    Txa,
    Tay,
    Tya,
    Tsx,
    Txs,
    Txy,
    Tyx,
    Tcd,
    Tdc,
    Tcs,
    Tsc,
    Xba,
    Clc,
    Sec,
    Cld,
    Sed,
    Cli,
    Sei,
    Clv,
    Inx,
    Dex,
    Iny,
    Dey,
    IncA,
    DecA,
    AslA,
    LsrA,
    RolA,
    RorA,
    Xce,
    Wai,
}

/// An index register `v` moved into an 8- or 16-bit index register:
/// (new value, flags).
pub open spec fn to_index(p: CpuFlags, v: u16) -> (u16, CpuFlags) {
    if flag_on(p, FLAG_X) {
        ((v & 0xFF) as u16, nz8(p, (v & 0xFF) as u8))
    } else {
        (v, nz16(p, v))
    }
}

/// `v` moved into the accumulator at its width: (new A, flags).
pub open spec fn to_acc(c: Cpu, v: u16) -> (u16, CpuFlags) {
    if flag_on(c.p, FLAG_M) {
        let na = merge_a(c.a, v, false);
        (na, nz8(c.p, na as u8))
    } else {
        (v, nz16(c.p, v))
    }
}

/// The stack pointer loaded from `v`: page 1 in emulation mode.
pub open spec fn to_sp(c: Cpu, v: u16) -> u16 {
    if c.e {
        0x0100 | (v & 0xFF)
    } else {
        v
    }
}

/// One step of an index register: +1 or -1 at its width, with N and Z.
pub open spec fn step_index(p: CpuFlags, v: u16, up: bool) -> (u16, CpuFlags) {
    if !flag_on(p, FLAG_X) {
        let r = if up { v.wrapping_add(1) } else { v.wrapping_sub(1) };
        (r, nz16(p, r))
    } else {
        let r8 = if up { (v as u8).wrapping_add(1) } else { (v as u8).wrapping_sub(1) };
        (r8 as u16, nz8(p, r8))
    }
}

/// One step of the accumulator: +1 or -1 at its width, with N and Z.
pub open spec fn step_acc(c: Cpu, up: bool) -> Cpu {
    if !flag_on(c.p, FLAG_M) {
        let r = if up { c.a.wrapping_add(1) } else { c.a.wrapping_sub(1) };
        Cpu { a: r, p: nz16(c.p, r), ..c }
    } else {
        let r8 = if up { (c.a as u8).wrapping_add(1) } else { (c.a as u8).wrapping_sub(1) };
        Cpu { a: (c.a & 0xFF00) | (r8 as u16), p: nz8(c.p, r8), ..c }
    }
}

/// XCE: E takes the carry; entering emulation clears C, forces I, M and
/// X, truncates X and Y and moves the stack to page 1; leaving it sets C.
pub open spec fn xce_spec(c: Cpu) -> Cpu {
    if flag_on(c.p, FLAG_C) {
        Cpu {
            e: true,
            p: CpuFlags(((((c.p.0 & !FLAG_C) | FLAG_I) | FLAG_M) | FLAG_X)),
            x: c.x & 0x00FF,
            y: c.y & 0x00FF,
            sp: (c.sp & 0x00FF) | 0x0100,
            ..c
        }
    } else {
        Cpu { e: false, p: CpuFlags(c.p.0 | FLAG_C), ..c }
    }
}

/// The effect of a register-only instruction.
pub open spec fn reg_op_spec(c: Cpu, op: RegOp) -> Cpu {
    match op {
        RegOp::Nop => c,
        RegOp::Tax => Cpu { x: to_index(c.p, c.a).0, p: to_index(c.p, c.a).1, ..c },
        RegOp::Tay => Cpu { y: to_index(c.p, c.a).0, p: to_index(c.p, c.a).1, ..c },
        RegOp::Tsx => Cpu { x: to_index(c.p, c.sp).0, p: to_index(c.p, c.sp).1, ..c },
        RegOp::Txy => Cpu { y: to_index(c.p, c.x).0, p: to_index(c.p, c.x).1, ..c },
        RegOp::Tyx => Cpu { x: to_index(c.p, c.y).0, p: to_index(c.p, c.y).1, ..c },
        RegOp::Txa => Cpu { a: to_acc(c, c.x).0, p: to_acc(c, c.x).1, ..c },
        RegOp::Tya => Cpu { a: to_acc(c, c.y).0, p: to_acc(c, c.y).1, ..c },
        RegOp::Txs => Cpu { sp: if c.e { 0x0100 | (c.x & 0xFF) } else if flag_on(c.p, FLAG_X) { c.x & 0xFF } else { c.x }, ..c },
        RegOp::Tcd => Cpu { d: c.a, p: nz16(c.p, c.a), ..c },
        RegOp::Tdc => Cpu { a: c.d, p: nz16(c.p, c.d), ..c },
        RegOp::Tcs => Cpu { sp: to_sp(c, c.a), ..c },
        RegOp::Tsc => Cpu { a: c.sp, p: nz16(c.p, c.sp), ..c },
        RegOp::Xba => {
            let r = (c.a << 8) | (c.a >> 8);
            Cpu { a: r, p: nz8(c.p, (r & 0xFF) as u8), ..c }
        },
        RegOp::Clc => Cpu { p: set_flag(c.p, FLAG_C, false), ..c },
        RegOp::Sec => Cpu { p: set_flag(c.p, FLAG_C, true), ..c },
        RegOp::Cld => Cpu { p: set_flag(c.p, FLAG_D, false), ..c },
        RegOp::Sed => Cpu { p: set_flag(c.p, FLAG_D, true), ..c },
        RegOp::Cli => Cpu { p: set_flag(c.p, FLAG_I, false), ..c },
        RegOp::Sei => Cpu { p: set_flag(c.p, FLAG_I, true), ..c },
        RegOp::Clv => Cpu { p: set_flag(c.p, FLAG_V, false), ..c },
        RegOp::Inx => Cpu { x: step_index(c.p, c.x, true).0, p: step_index(c.p, c.x, true).1, ..c },
        RegOp::Dex => Cpu { x: step_index(c.p, c.x, false).0, p: step_index(c.p, c.x, false).1, ..c },
        RegOp::Iny => Cpu { y: step_index(c.p, c.y, true).0, p: step_index(c.p, c.y, true).1, ..c },
        RegOp::Dey => Cpu { y: step_index(c.p, c.y, false).0, p: step_index(c.p, c.y, false).1, ..c },
        RegOp::IncA => step_acc(c, true),
        RegOp::DecA => step_acc(c, false),
        RegOp::AslA => shift_acc_spec(c, Shift::Asl),
        RegOp::LsrA => shift_acc_spec(c, Shift::Lsr),
        RegOp::RolA => shift_acc_spec(c, Shift::Rol),
        RegOp::RorA => shift_acc_spec(c, Shift::Ror),
        RegOp::Xce => xce_spec(c),
        RegOp::Wai => Cpu { waiting_for_interrupt: true, ..c },
    }
}

/// The cycle cost of a register-only instruction.
pub open spec fn reg_op_cycles(op: RegOp) -> u8 {
    match op {
        RegOp::Xba | RegOp::Wai => 3,
        _ => 2,
    }
}

impl Cpu {
    /// TAX/TAY/TSX/TXY/TYX: the source into an index register at its
    /// width.
    fn load_index(&mut self, v: u16) -> (r: u16)
        ensures
            r == to_index(old(self).p, v).0,
            *final(self) == (Cpu { p: to_index(old(self).p, v).1, ..*old(self) }),
    {
        if self.p.contains(FLAG_X) {
            let r = (v & 0xFF) as u16;
            self.update_nz_flags_8(r as u8);
            r
        } else {
            self.update_nz_flags_16(v);
            v
        }
    }

    /// TXA/TYA: an index register into the accumulator at its width.
    fn load_acc(&mut self, v: u16)
        ensures
            *final(self) == (Cpu { a: to_acc(*old(self), v).0, p: to_acc(*old(self), v).1, ..*old(self) }),
    {
        if self.p.contains(FLAG_M) {
            self.set_a(v, false);
            self.update_nz_flags_8(self.a as u8);
        } else {
            self.a = v;
            self.update_nz_flags_16(self.a);
        }
    }

    /// INX/DEX/INY/DEY core: one step of an index register.
    fn step_index_value(&mut self, v: u16, up: bool) -> (r: u16)
        ensures
            r == step_index(old(self).p, v, up).0,
            *final(self) == (Cpu { p: step_index(old(self).p, v, up).1, ..*old(self) }),
    {
        if !self.p.contains(FLAG_X) {
            let r = if up { v.wrapping_add(1) } else { v.wrapping_sub(1) };
            self.update_nz_flags_16(r);
            r
        } else {
            let r8 = if up { (v as u8).wrapping_add(1) } else { (v as u8).wrapping_sub(1) };
            self.update_nz_flags_8(r8);
            r8 as u16
        }
    }

    /// INC A / DEC A.
    fn step_accumulator(&mut self, up: bool)
        ensures
            *final(self) == step_acc(*old(self), up),
    {
        if !self.p.contains(FLAG_M) {
            self.a = if up { self.a.wrapping_add(1) } else { self.a.wrapping_sub(1) };
            self.update_nz_flags_16(self.a);
        } else {
            let result = if up { (self.a as u8).wrapping_add(1) } else { (self.a as u8).wrapping_sub(1) };
            self.a = (self.a & 0xFF00) | (result as u16);
            self.update_nz_flags_8(result);
        }
    }

    pub fn op_nop(&mut self) -> (r: u8)
        ensures
            *final(self) == reg_op_spec(*old(self), RegOp::Nop),
            r == reg_op_cycles(RegOp::Nop),
    {
        2
    }

    pub fn op_tax(&mut self) -> (r: u8)
        ensures
            *final(self) == reg_op_spec(*old(self), RegOp::Tax),
            r == reg_op_cycles(RegOp::Tax),
    {
        let v = self.a;
        self.x = self.load_index(v);
        2
    }

    pub fn op_tay(&mut self) -> (r: u8)
        ensures
            *final(self) == reg_op_spec(*old(self), RegOp::Tay),
            r == reg_op_cycles(RegOp::Tay),
    {
        let v = self.a;
        self.y = self.load_index(v);
        2
    }

    pub fn op_tsx(&mut self) -> (r: u8)
        ensures
            *final(self) == reg_op_spec(*old(self), RegOp::Tsx),
            r == reg_op_cycles(RegOp::Tsx),
    {
        let v = self.sp;
        self.x = self.load_index(v);
        2
    }

    pub fn op_txy(&mut self) -> (r: u8)
        ensures
            *final(self) == reg_op_spec(*old(self), RegOp::Txy),
            r == reg_op_cycles(RegOp::Txy),
    {
        let v = self.x;
        self.y = self.load_index(v);
        2
    }

    pub fn op_tyx(&mut self) -> (r: u8)
        ensures
            *final(self) == reg_op_spec(*old(self), RegOp::Tyx),
            r == reg_op_cycles(RegOp::Tyx),
    {
        let v = self.y;
        self.x = self.load_index(v);
        2
    }

    pub fn op_txa(&mut self) -> (r: u8)
        ensures
            *final(self) == reg_op_spec(*old(self), RegOp::Txa),
            r == reg_op_cycles(RegOp::Txa),
    {
        let v = self.x;
        self.load_acc(v);
        2
    }

    pub fn op_tya(&mut self) -> (r: u8)
        ensures
            *final(self) == reg_op_spec(*old(self), RegOp::Tya),
            r == reg_op_cycles(RegOp::Tya),
    {
        let v = self.y;
        self.load_acc(v);
        2
    }

    /// TXS: in emulation mode the stack stays in page 1.
    pub fn op_txs(&mut self) -> (r: u8)
        ensures
            *final(self) == reg_op_spec(*old(self), RegOp::Txs),
            r == reg_op_cycles(RegOp::Txs),
    {
        if self.p.contains(FLAG_X) {
            if self.e {
                self.sp = 0x0100 | (self.x & 0xFF);
            } else {
                self.sp = self.x & 0xFF;
            }
        } else {
            if self.e {
                self.sp = 0x0100 | (self.x & 0xFF);
            } else {
                self.sp = self.x;
            }
        }
        2
    }

    pub fn op_tcd(&mut self) -> (r: u8)
        ensures
            *final(self) == reg_op_spec(*old(self), RegOp::Tcd),
            r == reg_op_cycles(RegOp::Tcd),
    {
        self.d = self.a;
        self.update_nz_flags_16(self.d);
        2
    }

    pub fn op_tdc(&mut self) -> (r: u8)
        ensures
            *final(self) == reg_op_spec(*old(self), RegOp::Tdc),
            r == reg_op_cycles(RegOp::Tdc),
    {
        self.a = self.d;
        self.update_nz_flags_16(self.a);
        2
    }

    pub fn op_tcs(&mut self) -> (r: u8)
        ensures
            *final(self) == reg_op_spec(*old(self), RegOp::Tcs),
            r == reg_op_cycles(RegOp::Tcs),
    {
        if self.e {
            self.sp = 0x0100 | (self.a & 0xFF);
        } else {
            self.sp = self.a;
        }
        2
    }

    pub fn op_tsc(&mut self) -> (r: u8)
        ensures
            *final(self) == reg_op_spec(*old(self), RegOp::Tsc),
            r == reg_op_cycles(RegOp::Tsc),
    {
        self.a = self.sp;
        self.update_nz_flags_16(self.a);
        2
    }

    /// XBA: swaps the accumulator's bytes; N and Z from the new low byte.
    pub fn op_xba(&mut self) -> (r: u8)
        ensures
            *final(self) == reg_op_spec(*old(self), RegOp::Xba),
            r == reg_op_cycles(RegOp::Xba),
    {
        self.a = (self.a << 8) | (self.a >> 8);
        self.update_nz_flags_8((self.a & 0xFF) as u8);
        3
    }

    pub fn op_clc(&mut self) -> (r: u8)
        ensures
            *final(self) == reg_op_spec(*old(self), RegOp::Clc),
            r == reg_op_cycles(RegOp::Clc),
    {
        self.p.remove(FLAG_C);
        2
    }

    pub fn op_sec(&mut self) -> (r: u8)
        ensures
            *final(self) == reg_op_spec(*old(self), RegOp::Sec),
            r == reg_op_cycles(RegOp::Sec),
    {
        self.p.insert(FLAG_C);
        2
    }

    pub fn op_cld(&mut self) -> (r: u8)
        ensures
            *final(self) == reg_op_spec(*old(self), RegOp::Cld),
            r == reg_op_cycles(RegOp::Cld),
    {
        self.p.remove(FLAG_D);
        2
    }

    pub fn op_sed(&mut self) -> (r: u8)
        ensures
            *final(self) == reg_op_spec(*old(self), RegOp::Sed),
            r == reg_op_cycles(RegOp::Sed),
    {
        self.p.insert(FLAG_D);
        2
    }

    pub fn op_cli(&mut self) -> (r: u8)
        ensures
            *final(self) == reg_op_spec(*old(self), RegOp::Cli),
            r == reg_op_cycles(RegOp::Cli),
    {
        self.p.remove(FLAG_I);
        2
    }

    pub fn op_sei(&mut self) -> (r: u8)
        ensures
            *final(self) == reg_op_spec(*old(self), RegOp::Sei),
            r == reg_op_cycles(RegOp::Sei),
    {
        self.p.insert(FLAG_I);
        2
    }

    pub fn op_clv(&mut self) -> (r: u8)
        ensures
            *final(self) == reg_op_spec(*old(self), RegOp::Clv),
            r == reg_op_cycles(RegOp::Clv),
    {
        self.p.remove(FLAG_V);
        2
    }

    pub fn op_inx(&mut self) -> (r: u8)
        ensures
            *final(self) == reg_op_spec(*old(self), RegOp::Inx),
            r == reg_op_cycles(RegOp::Inx),
    {
        let v = self.x;
        self.x = self.step_index_value(v, true);
        2
    }

    pub fn op_dex(&mut self) -> (r: u8)
        ensures
            *final(self) == reg_op_spec(*old(self), RegOp::Dex),
            r == reg_op_cycles(RegOp::Dex),
    {
        let v = self.x;
        self.x = self.step_index_value(v, false);
        2
    }

    pub fn op_iny(&mut self) -> (r: u8)
        ensures
            *final(self) == reg_op_spec(*old(self), RegOp::Iny),
            r == reg_op_cycles(RegOp::Iny),
    {
        let v = self.y;
        self.y = self.step_index_value(v, true);
        2
    }

    pub fn op_dey(&mut self) -> (r: u8)
        ensures
            *final(self) == reg_op_spec(*old(self), RegOp::Dey),
            r == reg_op_cycles(RegOp::Dey),
    {
        let v = self.y;
        self.y = self.step_index_value(v, false);
        2
    }

    pub fn op_inc_acc(&mut self) -> (r: u8)
        ensures
            *final(self) == reg_op_spec(*old(self), RegOp::IncA),
            r == reg_op_cycles(RegOp::IncA),
    {
        self.step_accumulator(true);
        2
    }

    pub fn op_dec_acc(&mut self) -> (r: u8)
        ensures
            *final(self) == reg_op_spec(*old(self), RegOp::DecA),
            r == reg_op_cycles(RegOp::DecA),
    {
        self.step_accumulator(false);
        2
    }

    pub fn op_asl_acc(&mut self) -> (r: u8)
        ensures
            *final(self) == reg_op_spec(*old(self), RegOp::AslA),
            r == reg_op_cycles(RegOp::AslA),
    {
        self.shift_accumulator(Shift::Asl);
        2
    }

    pub fn op_lsr_acc(&mut self) -> (r: u8)
        ensures
            *final(self) == reg_op_spec(*old(self), RegOp::LsrA),
            r == reg_op_cycles(RegOp::LsrA),
    {
        self.shift_accumulator(Shift::Lsr);
        2
    }

    pub fn op_rol_acc(&mut self) -> (r: u8)
        ensures
            *final(self) == reg_op_spec(*old(self), RegOp::RolA),
            r == reg_op_cycles(RegOp::RolA),
    {
        self.shift_accumulator(Shift::Rol);
        2
    }

    pub fn op_ror_acc(&mut self) -> (r: u8)
        ensures
            *final(self) == reg_op_spec(*old(self), RegOp::RorA),
            r == reg_op_cycles(RegOp::RorA),
    {
        self.shift_accumulator(Shift::Ror);
        2
    }

    /// XCE: exchange carry and emulation.
    pub fn op_xce(&mut self) -> (r: u8)
        ensures
            *final(self) == reg_op_spec(*old(self), RegOp::Xce),
            r == reg_op_cycles(RegOp::Xce),
    {
        self.e = self.p.contains(FLAG_C);
        if self.e {
            self.p.remove(FLAG_C);
            self.p.insert(FLAG_I);
            self.p.insert(FLAG_M);
            self.p.insert(FLAG_X);
            self.x = self.x & 0x00FF;
            self.y = self.y & 0x00FF;
            self.sp = (self.sp & 0x00FF) | 0x0100;
        } else {
            self.p.insert(FLAG_C);
        }
        2
    }

    /// WAI (and STP): suspends instruction fetch until an interrupt.
    pub fn op_wai(&mut self) -> (r: u8)
        ensures
            *final(self) == reg_op_spec(*old(self), RegOp::Wai),
            r == reg_op_cycles(RegOp::Wai),
    {
        self.waiting_for_interrupt = true;
        3
    }
}

} // verus!
