//! Binary save-state primitives shared by every component's
//! `save_state`/`load_state` pair: an explicit little-endian byte format.
use vstd::prelude::*;
use crate::error::EmulationError;

verus! {

/// `n`-byte little-endian encoding of `v` (taken modulo 256^n).
pub open spec fn le_bytes(v: int, n: nat) -> Seq<u8>
    decreases n,
{
    if n == 0 {
        Seq::empty()
    } else {
        seq![(v % 256) as u8] + le_bytes(v / 256, (n - 1) as nat)
    }
}

/// The number a little-endian byte sequence denotes.
pub open spec fn le_value(s: Seq<u8>) -> int
    decreases s.len(),
{
    if s.len() == 0 {
        0
    } else {
        s[0] + 256 * le_value(s.subrange(1, s.len() as int))
    }
}

/// 256^n, the number of values `n` bytes can hold.
pub open spec fn byte_range(n: nat) -> int
    decreases n,
{
    if n == 0 {
        1
    } else {
        256 * byte_range((n - 1) as nat)
    }
}

/// Encoding of a bool: one byte, 1 for true and 0 for false.
pub open spec fn bool_byte(b: bool) -> Seq<u8> {
    seq![if b { 1u8 } else { 0u8 }]
}

/// Decoding a little-endian encoding gives back the encoded value.
pub proof fn lemma_le_roundtrip(v: int, n: nat)
    requires
        0 <= v < byte_range(n),
    ensures
        le_bytes(v, n).len() == n,
        le_value(le_bytes(v, n)) == v,
    decreases n,
{
    if n > 0 {
        lemma_le_roundtrip(v / 256, (n - 1) as nat);
        let s = le_bytes(v, n);
        assert(s.subrange(1, s.len() as int) =~= le_bytes(v / 256, (n - 1) as nat));
    }
}

/// A little-endian value of `s` lies in `0..256^len`.
pub proof fn lemma_le_value_range(s: Seq<u8>)
    ensures
        0 <= le_value(s) < byte_range(s.len()),
    decreases s.len(),
{
    if s.len() > 0 {
        lemma_le_value_range(s.subrange(1, s.len() as int));
    }
}

pub proof fn lemma_le_value_step(s: Seq<u8>, j: int)
    requires
        0 <= j < s.len(),
    ensures
        le_value(s.subrange(j, s.len() as int)) == s[j] + 256 * le_value(s.subrange(j + 1, s.len() as int)),
{
    let t = s.subrange(j, s.len() as int);
    assert(t.subrange(1, t.len() as int) =~= s.subrange(j + 1, s.len() as int));
}

/// Appends the `n` low bytes of `v`, least significant first.
pub fn put_le(out: &mut Vec<u8>, v: u64, n: usize)
    requires
        n <= 8,
    ensures
        final(out)@ == old(out)@ + le_bytes(v as int, n as nat),
{
    let mut x = v;
    let mut i: usize = 0;
    while i < n
        invariant
            i <= n,
            old(out)@ + le_bytes(v as int, n as nat) == out@ + le_bytes(x as int, (n - i) as nat),
        decreases n - i,
    {
        assert(le_bytes(x as int, (n - i) as nat) == seq![(x % 256) as u8] + le_bytes(x as int / 256, (n - i - 1) as nat));
        assert(out@ + le_bytes(x as int, (n - i) as nat) =~= out@.push((x % 256) as u8) + le_bytes((x / 256) as int, (n - i - 1) as nat));
        out.push((x % 256) as u8);
        x = x / 256;
        i = i + 1;
    }
    assert(le_bytes(x as int, 0) =~= Seq::<u8>::empty());
    assert(out@ + Seq::<u8>::empty() =~= out@);
}

pub fn put_u8(out: &mut Vec<u8>, v: u8)
    ensures
        final(out)@ == old(out)@ + le_bytes(v as int, 1),
{
    put_le(out, v as u64, 1);
}

pub fn put_bool(out: &mut Vec<u8>, v: bool)
    ensures
        final(out)@ == old(out)@ + bool_byte(v),
{
    out.push(if v { 1u8 } else { 0u8 });
    assert(final(out)@ =~= old(out)@ + bool_byte(v));
}

pub fn put_u16(out: &mut Vec<u8>, v: u16)
    ensures
        final(out)@ == old(out)@ + le_bytes(v as int, 2),
{
    put_le(out, v as u64, 2);
}

pub fn put_u32(out: &mut Vec<u8>, v: u32)
    ensures
        final(out)@ == old(out)@ + le_bytes(v as int, 4),
{
    put_le(out, v as u64, 4);
}

/// Appends a signed 32-bit value as its two's-complement bytes, low first.
pub fn put_i32(out: &mut Vec<u8>, v: i32)
    ensures
        final(out)@ == old(out)@ + le_bytes(v as u32 as int, 4),
{
    put_le(out, v as u32 as u64, 4);
}

pub fn put_u64(out: &mut Vec<u8>, v: u64)
    ensures
        final(out)@ == old(out)@ + le_bytes(v as int, 8),
{
    put_le(out, v, 8);
}

pub fn put_bytes(out: &mut Vec<u8>, v: &[u8])
    ensures
        final(out)@ == old(out)@ + v@,
{
    out.extend_from_slice(v);
    assert(final(out)@ =~= old(out)@ + v@);
}

/// A record's fields as (value, width in bytes) pairs.
pub open spec fn field_pairs(fs: Seq<(u64, usize)>) -> Seq<(int, nat)> {
    fs.map_values(|p: (u64, usize)| (p.0 as int, p.1 as nat))
}

/// The encoding of a list of fields: each field's little-endian bytes, in order.
pub open spec fn encode_fields(fs: Seq<(int, nat)>) -> Seq<u8>
    decreases fs.len(),
{
    if fs.len() == 0 {
        Seq::empty()
    } else {
        encode_fields(fs.drop_last()) + le_bytes(fs.last().0, fs.last().1)
    }
}

/// The widths of a list of fields.
pub open spec fn widths_of(fs: Seq<(int, nat)>) -> Seq<nat> {
    fs.map_values(|p: (int, nat)| p.1)
}

/// The values of a list of fields.
pub open spec fn values_of(fs: Seq<(int, nat)>) -> Seq<int> {
    fs.map_values(|p: (int, nat)| p.0)
}

/// Every field's value fits its width, and no width exceeds 8 bytes.
pub open spec fn fields_in_range(fs: Seq<(int, nat)>) -> bool {
    forall|k: int| 0 <= k < fs.len() ==> 0 <= #[trigger] fs[k].0 < byte_range(fs[k].1) && fs[k].1 <= 8
}

/// Sum of widths.
pub open spec fn total_width(ws: Seq<nat>) -> nat
    decreases ws.len(),
{
    if ws.len() == 0 {
        0
    } else {
        total_width(ws.drop_last()) + ws.last()
    }
}

/// Where field `k` starts in an encoding with widths `ws`.
pub open spec fn field_offset(ws: Seq<nat>, k: int) -> int {
    total_width(ws.subrange(0, k)) as int
}

/// How many fields of widths `ws`, from field `j` on, a buffer of `len`
/// bytes holds in full when they are read in order.
pub open spec fn fitting_fields(len: int, ws: Seq<nat>, j: nat) -> nat
    decreases ws.len() - j,
{
    if j < ws.len() && field_offset(ws, (j + 1) as int) <= len {
        fitting_fields(len, ws, j + 1)
    } else {
        j
    }
}

/// The field values that the bytes `s` hold for the widths `ws`.
pub open spec fn decode_fields(s: Seq<u8>, ws: Seq<nat>) -> Seq<int> {
    Seq::new(ws.len(), |k: int| le_value(s.subrange(field_offset(ws, k), field_offset(ws, k) + ws[k])))
}

pub proof fn lemma_total_width_step(ws: Seq<nat>, k: int)
    requires
        0 <= k < ws.len(),
    ensures
        field_offset(ws, k + 1) == field_offset(ws, k) + ws[k],
{
    assert(ws.subrange(0, k + 1).drop_last() =~= ws.subrange(0, k));
}

pub proof fn lemma_encode_len(fs: Seq<(int, nat)>)
    ensures
        encode_fields(fs).len() == total_width(widths_of(fs)),
    decreases fs.len(),
{
    if fs.len() > 0 {
        lemma_encode_len(fs.drop_last());
        lemma_le_bytes_len(fs.last().0, fs.last().1);
        assert(widths_of(fs).drop_last() =~= widths_of(fs.drop_last()));
    }
}

pub proof fn lemma_le_bytes_len(v: int, n: nat)
    ensures
        le_bytes(v, n).len() == n,
    decreases n,
{
    if n > 0 {
        lemma_le_bytes_len(v / 256, (n - 1) as nat);
    }
}

/// Decoding an encoded list of fields (followed by anything) gives back
/// the field values.
pub proof fn lemma_fields_roundtrip(fs: Seq<(int, nat)>, t: Seq<u8>)
    requires
        fields_in_range(fs),
    ensures
        decode_fields(encode_fields(fs) + t, widths_of(fs)) == values_of(fs),
        encode_fields(fs).len() == total_width(widths_of(fs)),
    decreases fs.len(),
{
    lemma_encode_len(fs);
    if fs.len() > 0 {
        let init = fs.drop_last();
        let last = fs.last();
        let tail = le_bytes(last.0, last.1) + t;
        assert(fields_in_range(init)) by {
            assert forall|k: int| 0 <= k < init.len() implies 0 <= #[trigger] init[k].0 < byte_range(init[k].1) && init[k].1 <= 8 by {
                assert(init[k] == fs[k]);
            }
        }
        lemma_fields_roundtrip(init, tail);
        let s = encode_fields(fs) + t;
        assert(s =~= encode_fields(init) + tail);
        let ws = widths_of(fs);
        assert(widths_of(init) =~= ws.drop_last());
        let d = decode_fields(s, ws);
        let di = decode_fields(s, widths_of(init));
        assert forall|k: int| 0 <= k < fs.len() implies d[k] == values_of(fs)[k] by {
            if k < fs.len() - 1 {
                assert(ws.subrange(0, k) =~= widths_of(init).subrange(0, k));
                assert(d[k] == di[k]);
            } else {
                assert(ws.subrange(0, k) =~= widths_of(init));
                lemma_le_bytes_len(last.0, last.1);
                lemma_le_roundtrip(last.0, last.1);
                assert(s.subrange(field_offset(ws, k), field_offset(ws, k) + ws[k]) =~= le_bytes(last.0, last.1));
            }
        }
        assert(d =~= values_of(fs));
    } else {
        assert(decode_fields(encode_fields(fs) + t, widths_of(fs)) =~= values_of(fs));
    }
}

/// Appends the encoding of a list of (value, width) fields.
pub fn put_fields(out: &mut Vec<u8>, fs: &Vec<(u64, usize)>)
    requires
        forall|k: int| 0 <= k < fs@.len() ==> #[trigger] fs@[k].1 <= 8,
    ensures
        final(out)@ == old(out)@ + encode_fields(field_pairs(fs@)),
{
    let mut i: usize = 0;
    while i < fs.len()
        invariant
            i <= fs@.len(),
            forall|k: int| 0 <= k < fs@.len() ==> #[trigger] fs@[k].1 <= 8,
            out@ == old(out)@ + encode_fields(field_pairs(fs@.subrange(0, i as int))),
        decreases fs@.len() - i,
    {
        let (v, w) = fs[i];
        let ghost pre = field_pairs(fs@.subrange(0, i as int));
        let ghost nxt = field_pairs(fs@.subrange(0, i as int + 1));
        assert(nxt.drop_last() =~= pre);
        assert(nxt.last() == (v as int, w as nat));
        put_le(out, v, w);
        assert(out@ =~= old(out)@ + encode_fields(nxt));
        i = i + 1;
    }
    assert(fs@.subrange(0, fs@.len() as int) =~= fs@);
}

/// The error every reader accessor returns when the buffer runs out.
pub open spec fn truncated() -> EmulationError {
    EmulationError::InvalidSaveState("truncated save state")
}

/// Sequential reader over a save-state byte buffer. Every accessor
/// returns `InvalidSaveState` instead of panicking when the buffer is
/// truncated, so a corrupt or foreign buffer never crashes the emulator.
pub struct StateReader<'a> {
    data: &'a [u8],
    pos: usize,
}

impl<'a> StateReader<'a> {
    /// The whole buffer.
    pub closed spec fn data(&self) -> Seq<u8> {
        self.data@
    }

    /// The read position.
    pub closed spec fn pos(&self) -> int {
        self.pos as int
    }

    /// The bytes not yet consumed.
    pub open spec fn rest(&self) -> Seq<u8> {
        self.data().subrange(self.pos(), self.data().len() as int)
    }

    pub open spec fn wf(&self) -> bool {
        0 <= self.pos() <= self.data().len()
    }

    /// The reader state after `n` more bytes are consumed.
    pub open spec fn advanced(&self, other: &Self, n: int) -> bool {
        other.data() == self.data() && other.pos() == self.pos() + n
    }

    pub fn new(data: &'a [u8]) -> (r: Self)
        ensures
            r.wf(),
            r.data() == data@,
            r.pos() == 0,
    {
        StateReader { data, pos: 0 }
    }

    /// Number of bytes not yet consumed.
    pub fn remaining(&self) -> (n: usize)
        requires
            self.wf(),
        ensures
            n == self.rest().len(),
    {
        self.data.len() - self.pos
    }

    /// Reads little-endian fields of widths `ws` in order, stopping at the
    /// first one the buffer no longer holds in full: the values read, and
    /// `Ok` exactly when every field was read.
    pub fn read_prefix(&mut self, ws: &[usize]) -> (r: (Vec<u64>, Result<(), EmulationError>))
        requires
            old(self).wf(),
            forall|k: int| 0 <= k < ws@.len() ==> 1 <= #[trigger] ws@[k] <= 8,
            ws@.len() <= 1000,
        ensures
            final(self).wf(),
            ({
                let wn = ws@.map_values(|w: usize| w as nat);
                let k = fitting_fields(old(self).rest().len() as int, wn, 0);
                &&& r.0@.len() == k
                &&& forall|i: int| 0 <= i < k ==> #[trigger] r.0@[i] as int == decode_fields(old(self).rest(), wn)[i]
                &&& old(self).advanced(&*final(self), field_offset(wn, k as int))
                &&& r.1 == if k == ws@.len() { Ok::<(), EmulationError>(()) } else { Err(truncated()) }
            }),
    {
        let ghost wn = ws@.map_values(|w: usize| w as nat);
        let ghost s = self.rest();
        let ghost p0 = self.pos();
        let ghost len = s.len() as int;
        let mut out: Vec<u64> = Vec::new();
        let mut j: usize = 0;
        proof {
            assert(wn.subrange(0, 0) =~= Seq::<nat>::empty());
        }
        while j < ws.len()
            invariant
                j <= ws@.len() <= 1000,
                wn == ws@.map_values(|w: usize| w as nat),
                forall|k: int| 0 <= k < ws@.len() ==> 1 <= #[trigger] ws@[k] <= 8,
                self.wf(),
                self.data() == old(self).data(),
                s == old(self).rest(),
                len == s.len(),
                s == self.data().subrange(p0, self.data().len() as int),
                old(self).wf(),
                p0 == old(self).pos(),
                p0 <= self.data().len(),
                self.pos() == p0 + field_offset(wn, j as int),
                field_offset(wn, j as int) <= len,
                fitting_fields(len, wn, 0) == fitting_fields(len, wn, j as nat),
                out@.len() == j,
                forall|k: int| 0 <= k < j ==> #[trigger] out@[k] as int == decode_fields(s, wn)[k],
            decreases ws@.len() - j,
        {
            proof {
                lemma_total_width_step(wn, j as int);
            }
            assert(wn[j as int] == ws@[j as int] as nat);
            assert(self.rest().len() == len - field_offset(wn, j as int));
            if self.remaining() < ws[j] {
                assert(fitting_fields(len, wn, j as nat) == j);
                return (out, Err(EmulationError::InvalidSaveState("truncated save state")));
            }
            let ghost before = self.rest();
            assert forall|i: int| 0 <= i < before.len() implies before[i] == s[field_offset(wn, j as int) + i] by {
                assert(before[i] == self.data()[self.pos() + i]);
                assert(s[field_offset(wn, j as int) + i] == self.data()[p0 + field_offset(wn, j as int) + i]);
            }
            assert(before =~= s.subrange(field_offset(wn, j as int), s.len() as int));
            let v = self.le(ws[j]).unwrap();
            proof {
                let o = field_offset(wn, j as int);
                assert(before.subrange(0, ws@[j as int] as int) =~= s.subrange(o, o + wn[j as int]));
                assert(wn.len() == ws@.len());
                lemma_byte_range_8(ws@[j as int] as nat);
                lemma_le_value_range(before.subrange(0, ws@[j as int] as int));
                assert(decode_fields(s, wn)[j as int] == le_value(s.subrange(o, o + wn[j as int])));
                assert(v as int == decode_fields(s, wn)[j as int]);
                assert(fitting_fields(len, wn, j as nat) == fitting_fields(len, wn, (j + 1) as nat));
            }
            out.push(v);
            j = j + 1;
        }
        assert(fitting_fields(len, wn, j as nat) == j);
        (out, Ok(()))
    }

    /// Consumes `n` bytes and returns them, or fails (consuming nothing)
    /// when fewer than `n` remain.
    pub fn bytes(&mut self, n: usize) -> (r: Result<&'a [u8], EmulationError>)
        requires
            old(self).wf(),
        ensures
            final(self).wf(),
            n <= old(self).rest().len() ==> {
                &&& r is Ok
                &&& r->Ok_0@ == old(self).rest().subrange(0, n as int)
                &&& old(self).advanced(&*final(self), n as int)
            },
            n > old(self).rest().len() ==> r == Err::<&'a [u8], EmulationError>(truncated()) && *final(self) == *old(self),
    {
        if n > self.data.len() - self.pos {
            return Err(EmulationError::InvalidSaveState("truncated save state"));
        }
        let (_, tail) = self.data.split_at(self.pos);
        let (slice, _) = tail.split_at(n);
        self.pos = self.pos + n;
        assert(slice@ =~= old(self).rest().subrange(0, n as int));
        Ok(slice)
    }

    /// Reads an `n`-byte little-endian number.
    fn le(&mut self, n: usize) -> (r: Result<u64, EmulationError>)
        requires
            old(self).wf(),
            1 <= n <= 8,
        ensures
            final(self).wf(),
            n <= old(self).rest().len() ==> {
                &&& r == Ok::<u64, EmulationError>(le_value(old(self).rest().subrange(0, n as int)) as u64)
                &&& le_value(old(self).rest().subrange(0, n as int)) < byte_range(n as nat)
                &&& old(self).advanced(&*final(self), n as int)
            },
            n > old(self).rest().len() ==> r == Err::<u64, EmulationError>(truncated()) && *final(self) == *old(self),
    {
        let s = self.bytes(n)?;
        let ghost sv = s@;
        proof { lemma_le_value_range(sv); }
        let mut acc: u64 = 0;
        let mut j: usize = n;
        assert(sv.subrange(n as int, n as int) =~= Seq::<u8>::empty());
        while j > 0
            invariant
                j <= n,
                n <= 8,
                sv == s@,
                sv.len() == n,
                acc as int == le_value(sv.subrange(j as int, n as int)),
                le_value(sv.subrange(j as int, n as int)) < byte_range((n - j) as nat),
            decreases j,
        {
            proof {
                lemma_le_value_step(sv, j - 1);
                assert(sv.subrange(j - 1, n as int).subrange(0, 0) =~= Seq::<u8>::empty());
                lemma_le_value_range(sv.subrange(j - 1, n as int));
                assert(sv.subrange(j - 1, n as int).len() == n - j + 1);
                lemma_byte_range_8((n - j + 1) as nat);
            }
            acc = acc * 256 + s[j - 1] as u64;
            j = j - 1;
        }
        assert(sv.subrange(0, n as int) =~= sv);
        Ok(acc)
    }

    pub fn u8(&mut self) -> (r: Result<u8, EmulationError>)
        requires
            old(self).wf(),
        ensures
            final(self).wf(),
            1 <= old(self).rest().len() ==> r == Ok::<u8, EmulationError>(old(self).rest()[0]) && old(self).advanced(&*final(self), 1),
            1 > old(self).rest().len() ==> r == Err::<u8, EmulationError>(truncated()) && *final(self) == *old(self),
    {
        let v = self.le(1)?;
        proof {
            let s = old(self).rest().subrange(0, 1);
            assert(s.subrange(1, 1) =~= Seq::<u8>::empty());
            assert(le_value(s) == s[0] + 256 * le_value(s.subrange(1, 1)));
        }
        Ok(v as u8)
    }

    pub fn bool(&mut self) -> (r: Result<bool, EmulationError>)
        requires
            old(self).wf(),
        ensures
            final(self).wf(),
            1 <= old(self).rest().len() ==> r == Ok::<bool, EmulationError>(old(self).rest()[0] != 0) && old(self).advanced(&*final(self), 1),
            1 > old(self).rest().len() ==> r == Err::<bool, EmulationError>(truncated()) && *final(self) == *old(self),
    {
        let v = self.u8()?;
        Ok(v != 0)
    }

    pub fn u16(&mut self) -> (r: Result<u16, EmulationError>)
        requires
            old(self).wf(),
        ensures
            final(self).wf(),
            2 <= old(self).rest().len() ==> r == Ok::<u16, EmulationError>(le_value(old(self).rest().subrange(0, 2)) as u16) && old(self).advanced(&*final(self), 2),
            2 > old(self).rest().len() ==> r == Err::<u16, EmulationError>(truncated()) && *final(self) == *old(self),
    {
        let v = self.le(2)?;
        proof {
            lemma_byte_range_8(2);
            lemma_le_value_range(old(self).rest().subrange(0, 2));
        }
        Ok(v as u16)
    }

    pub fn u32(&mut self) -> (r: Result<u32, EmulationError>)
        requires
            old(self).wf(),
        ensures
            final(self).wf(),
            4 <= old(self).rest().len() ==> r == Ok::<u32, EmulationError>(le_value(old(self).rest().subrange(0, 4)) as u32) && old(self).advanced(&*final(self), 4),
            4 > old(self).rest().len() ==> r == Err::<u32, EmulationError>(truncated()) && *final(self) == *old(self),
    {
        let v = self.le(4)?;
        proof {
            lemma_byte_range_8(4);
            lemma_le_value_range(old(self).rest().subrange(0, 4));
        }
        Ok(v as u32)
    }

    /// Reads a signed 32-bit value from its two's-complement bytes.
    pub fn i32(&mut self) -> (r: Result<i32, EmulationError>)
        requires
            old(self).wf(),
        ensures
            final(self).wf(),
            4 <= old(self).rest().len() ==> r == Ok::<i32, EmulationError>(le_value(old(self).rest().subrange(0, 4)) as u32 as i32) && old(self).advanced(&*final(self), 4),
            4 > old(self).rest().len() ==> r == Err::<i32, EmulationError>(truncated()) && *final(self) == *old(self),
    {
        let v = self.le(4)?;
        proof {
            lemma_byte_range_8(4);
            lemma_le_value_range(old(self).rest().subrange(0, 4));
        }
        Ok(v as u32 as i32)
    }

    pub fn u64(&mut self) -> (r: Result<u64, EmulationError>)
        requires
            old(self).wf(),
        ensures
            final(self).wf(),
            8 <= old(self).rest().len() ==> r == Ok::<u64, EmulationError>(le_value(old(self).rest().subrange(0, 8)) as u64) && old(self).advanced(&*final(self), 8),
            8 > old(self).rest().len() ==> r == Err::<u64, EmulationError>(truncated()) && *final(self) == *old(self),
    {
        self.le(8)
    }
}

pub proof fn lemma_offset_mono(ws: Seq<nat>, k: int)
    requires
        0 <= k <= ws.len(),
    ensures
        field_offset(ws, k) <= total_width(ws),
    decreases ws.len() - k,
{
    if k < ws.len() {
        lemma_total_width_step(ws, k);
        lemma_offset_mono(ws, k + 1);
    } else {
        assert(ws.subrange(0, k) =~= ws);
    }
}

pub proof fn lemma_byte_range_8(n: nat)
    requires
        n <= 8,
    ensures
        byte_range(n) <= 0x1_0000_0000_0000_0000,
        n == 1 ==> byte_range(n) == 0x100,
        n == 2 ==> byte_range(n) == 0x1_0000,
        n == 4 ==> byte_range(n) == 0x1_0000_0000,
        n == 8 ==> byte_range(n) == 0x1_0000_0000_0000_0000,
        n <= 7 ==> byte_range(n) <= 0x100_0000_0000_0000,
{
    reveal_with_fuel(byte_range, 9);
}

/// The fields from `j` on that fit: never fewer than `j`, never more than
/// there are, and all of them exactly when the whole encoding fits.
pub proof fn lemma_fitting_fields(len: int, ws: Seq<nat>, j: nat)
    requires
        j <= ws.len(),
        field_offset(ws, j as int) <= len,
    ensures
        j <= fitting_fields(len, ws, j) <= ws.len(),
        field_offset(ws, fitting_fields(len, ws, j) as int) <= len,
        (fitting_fields(len, ws, j) == ws.len()) == (total_width(ws) <= len),
    decreases ws.len() - j,
{
    if j < ws.len() {
        lemma_total_width_step(ws, j as int);
        lemma_offset_mono(ws, j as int + 1);
        if field_offset(ws, (j + 1) as int) <= len {
            lemma_fitting_fields(len, ws, j + 1);
        }
    } else {
        assert(ws.subrange(0, j as int) =~= ws);
    }
}

} // verus!
