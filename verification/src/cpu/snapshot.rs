//! Save states of the CPU: the architectural registers, flags, emulation
//! bit, cycle counter and wait latch, in a fixed little-endian layout.
use vstd::prelude::*;
use super::{Cpu, CpuFlags};
use crate::error::EmulationError;
use crate::state::{
    decode_fields, encode_fields, field_offset, field_pairs, fields_in_range, fitting_fields, lemma_fitting_fields,
    put_fields, total_width, truncated, values_of, widths_of, StateReader,
};

verus! {

/// The fields `save_state` writes, as (value, width) pairs in order.
pub open spec fn cpu_fields(x: Cpu) -> Seq<(int, nat)> {
    seq![
        (x.a as int, 2nat),
        (x.x as int, 2nat),
        (x.y as int, 2nat),
        (x.pc as int, 2nat),
        (x.pb as int, 1nat),
        (x.sp as int, 2nat),
        (x.db as int, 1nat),
        (x.d as int, 2nat),
        (x.p.0 as int, 1nat),
        (if x.e { 1int } else { 0int }, 1nat),
        (x.cycles as int, 8nat),
        (if x.waiting_for_interrupt { 1int } else { 0int }, 1nat),
    ]
}

/// The widths of the fields `save_state` writes.
pub open spec fn cpu_widths() -> Seq<nat> {
    seq![2nat, 2nat, 2nat, 2nat, 1nat, 2nat, 1nat, 2nat, 1nat, 1nat, 8nat, 1nat]
}

/// The save-state encoding.
pub open spec fn encode_cpu(x: Cpu) -> Seq<u8> {
    encode_fields(cpu_fields(x))
}

/// The value whose save-state fields are `ds` (flags read as nonzero).
pub open spec fn cpu_from_values(ds: Seq<int>) -> Cpu {
    Cpu { a: (ds[0] as u16), x: (ds[1] as u16), y: (ds[2] as u16), pc: (ds[3] as u16), pb: (ds[4] as u8), sp: (ds[5] as u16), db: (ds[6] as u8), d: (ds[7] as u16), p: CpuFlags((ds[8] as u8)), e: (ds[9] != 0), cycles: (ds[10] as u64), waiting_for_interrupt: (ds[11] != 0) }
}

/// `x` with its first `k` save-state fields replaced by those of `ds`:
/// what loading leaves when the buffer runs out after `k` fields.
pub open spec fn cpu_prefix(x: Cpu, ds: Seq<int>, k: nat) -> Cpu {
    Cpu {
        a: if k > 0 { (ds[0] as u16) } else { x.a },
        x: if k > 1 { (ds[1] as u16) } else { x.x },
        y: if k > 2 { (ds[2] as u16) } else { x.y },
        pc: if k > 3 { (ds[3] as u16) } else { x.pc },
        pb: if k > 4 { (ds[4] as u8) } else { x.pb },
        sp: if k > 5 { (ds[5] as u16) } else { x.sp },
        db: if k > 6 { (ds[6] as u8) } else { x.db },
        d: if k > 7 { (ds[7] as u16) } else { x.d },
        p: if k > 8 { CpuFlags((ds[8] as u8)) } else { x.p },
        e: if k > 9 { (ds[9] != 0) } else { x.e },
        cycles: if k > 10 { (ds[10] as u64) } else { x.cycles },
        waiting_for_interrupt: if k > 11 { (ds[11] != 0) } else { x.waiting_for_interrupt },
    }
}

impl Cpu {
    fn state_fields(&self) -> (v: Vec<(u64, usize)>)
        ensures
            field_pairs(v@) == cpu_fields(*self),
            forall|k: int| 0 <= k < v@.len() ==> #[trigger] v@[k].1 <= 8,
    {
        let v = vec![
            (self.a as u64, 2usize),
            (self.x as u64, 2usize),
            (self.y as u64, 2usize),
            (self.pc as u64, 2usize),
            (self.pb as u64, 1usize),
            (self.sp as u64, 2usize),
            (self.db as u64, 1usize),
            (self.d as u64, 2usize),
            (self.p.0 as u64, 1usize),
            (if self.e { 1u64 } else { 0u64 }, 1usize),
            (self.cycles as u64, 8usize),
            (if self.waiting_for_interrupt { 1u64 } else { 0u64 }, 1usize),
        ];
        assert(field_pairs(v@) =~= cpu_fields(*self));
        v
    }

    /// Appends the complete architectural CPU state to `out`: A, X, Y, PC,
    /// PB, SP, DB, D, P, E, the cycle counter and the wait latch.
    pub fn save_state(&self, out: &mut Vec<u8>)
        ensures
            final(out)@ == old(out)@ + encode_cpu(*self),
    {
        let v = self.state_fields();
        put_fields(out, &v);
    }

    /// Restores state produced by `save_state`, field by field in the
    /// order it was written; a truncated buffer stops the load at the first
    /// field it no longer holds in full, keeping the fields read before it.
    pub fn load_state(&mut self, r: &mut StateReader) -> (res: Result<(), EmulationError>)
        requires
            old(r).wf(),
        ensures
            final(r).wf(),
            ({
                let k = fitting_fields(old(r).rest().len() as int, cpu_widths(), 0);
                &&& *final(self) == cpu_prefix(*old(self), decode_fields(old(r).rest(), cpu_widths()), k)
                &&& old(r).advanced(&*final(r), field_offset(cpu_widths(), k as int))
            }),
            old(r).rest().len() >= total_width(cpu_widths()) ==> old(r).advanced(&*final(r), total_width(cpu_widths()) as int),
            old(r).rest().len() >= total_width(cpu_widths()) ==> res is Ok && *final(self) == cpu_from_values(
                decode_fields(old(r).rest(), cpu_widths()),
            ),
            old(r).rest().len() < total_width(cpu_widths()) ==> res == Err::<(), EmulationError>(truncated()),
    {
        let widths: [usize; 12] = [2, 2, 2, 2, 1, 2, 1, 2, 1, 1, 8, 1];
        assert(widths@.map_values(|w: usize| w as nat) =~= cpu_widths());
        let (v, res) = r.read_prefix(widths.as_slice());
        let ghost ds = decode_fields(old(r).rest(), cpu_widths());
        proof {
            lemma_fitting_fields(old(r).rest().len() as int, cpu_widths(), 0);
            assert(cpu_widths().subrange(0, cpu_widths().len() as int) =~= cpu_widths());
        }
        let n = v.len();
        *self = Cpu {
            a: if n > 0 { (v[0] as u16) } else { self.a },
            x: if n > 1 { (v[1] as u16) } else { self.x },
            y: if n > 2 { (v[2] as u16) } else { self.y },
            pc: if n > 3 { (v[3] as u16) } else { self.pc },
            pb: if n > 4 { (v[4] as u8) } else { self.pb },
            sp: if n > 5 { (v[5] as u16) } else { self.sp },
            db: if n > 6 { (v[6] as u8) } else { self.db },
            d: if n > 7 { (v[7] as u16) } else { self.d },
            p: if n > 8 { CpuFlags((v[8] as u8)) } else { self.p },
            e: if n > 9 { (v[9] != 0) } else { self.e },
            cycles: if n > 10 { (v[10] as u64) } else { self.cycles },
            waiting_for_interrupt: if n > 11 { (v[11] != 0) } else { self.waiting_for_interrupt },
        };
        res
    }
}

/// Loading the encoding of `x` (followed by anything) gives back `x`.
pub proof fn lemma_cpu_roundtrip(x: Cpu, t: Seq<u8>)
    ensures
        cpu_from_values(decode_fields(encode_cpu(x) + t, cpu_widths())) == x,
{
    let fx = cpu_fields(x);
    assert(widths_of(fx) =~= cpu_widths());
    assert(fields_in_range(fx)) by {
        crate::state::lemma_byte_range_8(1);
        crate::state::lemma_byte_range_8(2);
        crate::state::lemma_byte_range_8(4);
        crate::state::lemma_byte_range_8(8);
    }
    crate::state::lemma_fields_roundtrip(fx, t);
    let ds = decode_fields(encode_cpu(x) + t, cpu_widths());
    assert(ds == values_of(fx));
    let y = cpu_from_values(ds);
    assert(ds[0] == values_of(fx)[0]);
    assert(ds[1] == values_of(fx)[1]);
    assert(ds[2] == values_of(fx)[2]);
    assert(ds[3] == values_of(fx)[3]);
    assert(ds[4] == values_of(fx)[4]);
    assert(ds[5] == values_of(fx)[5]);
    assert(ds[6] == values_of(fx)[6]);
    assert(ds[7] == values_of(fx)[7]);
    assert(ds[8] == values_of(fx)[8]);
    assert(ds[9] == values_of(fx)[9]);
    assert(ds[10] == values_of(fx)[10]);
    assert(ds[11] == values_of(fx)[11]);
    assert(y.p == x.p);
}

} // verus!
