//! The arithmetic, logic, compare, bit-test and shift cores shared by every
//! addressing-mode variant of those instructions, with the register-width
//! and flag bookkeeping they go through.
use vstd::prelude::*;
use super::{Cpu, CpuFlags, FLAG_C, FLAG_D, FLAG_I, FLAG_M, FLAG_N, FLAG_V, FLAG_X, FLAG_Z};
use super::spec::{flag_on, set_flag, nz16, nz8, nz_w, merge_a, enforce_widths_spec, lemma_mask_bounds};

verus! {

// ==================== Specifications ====================

/// Binary ADC: A + operand + C at the given width, setting C, V, N, Z.
/// When 8-bit only the low byte of A takes part and the high byte is kept.
pub open spec fn adc_bin_spec(c: Cpu, v: u16, wide: bool) -> Cpu {
    let cin: u32 = if flag_on(c.p, FLAG_C) { 1 } else { 0 };
    if wide {
        let sum = (c.a as u32 + v as u32 + cin) as u32;
        let r = (sum & 0xFFFF) as u16;
        let ov = (!(c.a ^ v) & (c.a ^ r) & 0x8000) != 0;
        Cpu { a: r, p: nz16(set_flag(set_flag(c.p, FLAG_C, sum > 0xFFFF), FLAG_V, ov), r), ..c }
    } else {
        let a8 = (c.a & 0xFF) as u16;
        let v8 = (v & 0xFF) as u16;
        let sum = (a8 + v8 + cin) as u16;
        let na = ((c.a & 0xFF00) | (sum & 0xFF)) as u16;
        let ov = (!(a8 ^ v8) & (a8 ^ (na & 0xFF)) & 0x80) != 0;
        Cpu { a: na, p: nz8(set_flag(set_flag(c.p, FLAG_C, sum > 0xFF), FLAG_V, ov), (na & 0xFF) as u8), ..c }
    }
}

/// Packed-BCD addition of 16-bit values from digit `k` upward: a digit sum
/// above 9 is corrected by +6 and carries into the next digit. Returns the
/// result and the final carry.
pub open spec fn bcd_add_from(a: u16, b: u16, k: nat, acc: u32, carry: u32) -> (u32, u32)
    decreases 4 - k,
{
    if k >= 4 {
        (acc, carry)
    } else {
        let shift = (k * 4) as u32;
        let an = ((a as u32) >> shift) & 0xF;
        let bn = ((b as u32) >> shift) & 0xF;
        let s = (an + bn + carry) as u32;
        let s2 = if s > 9 { (s + 6) as u32 } else { s };
        let c2: u32 = if s > 9 { 1 } else { 0 };
        bcd_add_from(a, b, k + 1, acc | ((s2 & 0xF) << shift), c2)
    }
}

/// Decimal-mode ADC: digit-wise BCD addition with carry. C is the final
/// digit carry; V uses the binary sign formula on the corrected result.
pub open spec fn adc_dec_spec(c: Cpu, v: u16, wide: bool) -> Cpu {
    let cin: u32 = if flag_on(c.p, FLAG_C) { 1 } else { 0 };
    if wide {
        let (res, cout) = bcd_add_from(c.a, v, 0, 0, cin);
        let r = res as u16;
        let ov = (!(c.a ^ v) & (c.a ^ r) & 0x8000) != 0;
        Cpu { a: r, p: nz16(set_flag(set_flag(c.p, FLAG_C, cout != 0), FLAG_V, ov), r), ..c }
    } else {
        let a = (c.a & 0xFF) as u32;
        let o = (v & 0xFF) as u32;
        let (r, cout) = bcd_add_byte(a, o, cin);
        let ov = (!((a as u8) ^ (o as u8)) & ((a as u8) ^ r) & 0x80) != 0;
        Cpu { a: (c.a & 0xFF00) | (r as u16), p: nz8(set_flag(set_flag(c.p, FLAG_C, cout), FLAG_V, ov), r), ..c }
    }
}

/// Packed-BCD subtraction of 16-bit values from digit `k` upward: a
/// negative digit difference is corrected by +10 and borrows from the next
/// digit. Returns the result and the final borrow.
pub open spec fn bcd_sub_from(a: u16, b: u16, k: nat, acc: u16, borrow: i32) -> (u16, i32)
    decreases 4 - k,
{
    if k >= 4 {
        (acc, borrow)
    } else {
        let shift = (k * 4) as u32;
        let an = ((a >> shift) & 0xF) as i32;
        let bn = ((b >> shift) & 0xF) as i32;
        let d = (an - bn - borrow) as i32;
        let d2 = if d < 0 { (d + 10) as i32 } else { d };
        let b2: i32 = if d < 0 { 1 } else { 0 };
        bcd_sub_from(a, b, k + 1, acc | (((d2 as u16) & 0xF) << shift), b2)
    }
}

/// The digit-wise decimal subtraction of two packed BCD bytes, as the
/// decimal SBC computes it: (result byte, no borrow out).
pub open spec fn bcd_sub_byte(a: i32, o: i32, bin: i32) -> (u8, bool) {
    let lo0 = ((a & 0xF) - (o & 0xF) - bin) as i32;
    let lo = if lo0 < 0 { (lo0 + 10) as i32 } else { lo0 };
    let blo: i32 = if lo0 < 0 { 1 } else { 0 };
    let hi0 = (((a >> 4) & 0xF) - ((o >> 4) & 0xF) - blo) as i32;
    let hi = if hi0 < 0 { (hi0 + 10) as i32 } else { hi0 };
    ((((hi & 0xF) << 4) | (lo & 0xF)) as u8, hi0 >= 0)
}

/// Decimal-mode SBC: digit-wise BCD subtraction with borrow; C means "no
/// borrow".
pub open spec fn sbc_dec_spec(c: Cpu, v: u16, wide: bool) -> Cpu {
    let bin: i32 = if flag_on(c.p, FLAG_C) { 0 } else { 1 };
    if wide {
        let (r, bout) = bcd_sub_from(c.a, v, 0, 0, bin);
        let ov = ((c.a ^ v) & (c.a ^ r) & 0x8000) != 0;
        Cpu { a: r, p: nz16(set_flag(set_flag(c.p, FLAG_C, bout == 0), FLAG_V, ov), r), ..c }
    } else {
        let a = (c.a & 0xFF) as i32;
        let o = (v & 0xFF) as i32;
        let (r, no_borrow) = bcd_sub_byte(a, o, bin);
        let ov = (((a as u8) ^ (o as u8)) & ((a as u8) ^ r) & 0x80) != 0;
        Cpu { a: (c.a & 0xFF00) | (r as u16), p: nz8(set_flag(set_flag(c.p, FLAG_C, no_borrow), FLAG_V, ov), r), ..c }
    }
}

/// Whether a byte is two packed BCD digits.
pub open spec fn is_bcd8(x: u8) -> bool {
    (x >> 4) <= 9 && (x & 0xF) <= 9
}

/// The value of two packed BCD digits.
pub open spec fn bcd8(x: u8) -> int {
    (x >> 4) as int * 10 + (x & 0xF) as int
}

/// Packing two BCD digits into a byte and reading them back; the low
/// nibble of a digit sum below 32.
proof fn lemma_bcd_bits(h: u32, l: u32, lo: u32, hi: u32)
    by (bit_vector)
    requires
        h <= 9,
        l <= 9,
        lo < 32,
        hi < 32,
    ensures
        (((h << 4) | l) as u8) >> 4 == h as u8,
        (((h << 4) | l) as u8) & 0xF == l as u8,
        lo & 0xF == if lo >= 16 { (lo - 16) as u32 } else { lo },
        hi & 0xF == if hi >= 16 { (hi - 16) as u32 } else { hi },
{
}

/// The nibbles of a byte widened to 32 bits.
proof fn lemma_nibbles(x: u8)
    by (bit_vector)
    ensures
        (x as u32) & 0xF == (x & 0xF) as u32,
        ((x as u32) >> 4) & 0xF == (x >> 4) as u32,
{
}

proof fn lemma_c_bits(x: u8)
    by (bit_vector)
    ensures
        (x | FLAG_C) & FLAG_C == FLAG_C,
        (x & !FLAG_C) & FLAG_C != FLAG_C,
        ((x | FLAG_V) & FLAG_C == FLAG_C) == (x & FLAG_C == FLAG_C),
        ((x & !FLAG_V) & FLAG_C == FLAG_C) == (x & FLAG_C == FLAG_C),
        ((x | FLAG_Z) & FLAG_C == FLAG_C) == (x & FLAG_C == FLAG_C),
        ((x & !FLAG_Z) & FLAG_C == FLAG_C) == (x & FLAG_C == FLAG_C),
        ((x | FLAG_N) & FLAG_C == FLAG_C) == (x & FLAG_C == FLAG_C),
        ((x & !FLAG_N) & FLAG_C == FLAG_C) == (x & FLAG_C == FLAG_C),
{
}

/// C as set by a C update survives the V, Z and N updates after it.
proof fn lemma_set_flag_c(p: CpuFlags, on: bool, v: bool, r: u8)
    ensures
        flag_on(nz8(set_flag(set_flag(p, FLAG_C, on), FLAG_V, v), r), FLAG_C) == on,
{
    let p1 = set_flag(p, FLAG_C, on);
    let p2 = set_flag(p1, FLAG_V, v);
    let p3 = set_flag(p2, FLAG_Z, r == 0);
    lemma_c_bits(p.0);
    lemma_c_bits(p1.0);
    lemma_c_bits(p2.0);
    lemma_c_bits(p3.0);
}

/// The digit-wise decimal addition of two packed BCD bytes, as the
/// decimal ADC computes it: (result byte, carry out).
pub open spec fn bcd_add_byte(a: u32, o: u32, cin: u32) -> (u8, bool) {
    let lo0 = ((a & 0xF) + (o & 0xF) + cin) as u32;
    let lo = if lo0 > 9 { (lo0 + 6) as u32 } else { lo0 };
    let clo: u32 = if lo0 > 9 { 1 } else { 0 };
    let hi0 = (((a >> 4) & 0xF) + ((o >> 4) & 0xF) + clo) as u32;
    let hi = if hi0 > 9 { (hi0 + 6) as u32 } else { hi0 };
    ((((hi & 0xF) << 4) | (lo & 0xF)) as u8, hi0 > 9)
}

proof fn lemma_bcd_add_byte(a8: u8, o8: u8, cin: u32)
    requires
        is_bcd8(a8),
        is_bcd8(o8),
        cin <= 1,
    ensures
        is_bcd8(bcd_add_byte(a8 as u32, o8 as u32, cin).0),
        bcd8(bcd_add_byte(a8 as u32, o8 as u32, cin).0) == (bcd8(a8) + bcd8(o8) + cin) % 100,
        bcd_add_byte(a8 as u32, o8 as u32, cin).1 == (bcd8(a8) + bcd8(o8) + cin >= 100),
{
    lemma_nibbles(a8);
    lemma_nibbles(o8);
    let a = a8 as u32;
    let o = o8 as u32;
    let lo0 = ((a & 0xF) + (o & 0xF) + cin) as u32;
    let lo = if lo0 > 9 { (lo0 + 6) as u32 } else { lo0 };
    let clo: u32 = if lo0 > 9 { 1 } else { 0 };
    let hi0 = (((a >> 4) & 0xF) + ((o >> 4) & 0xF) + clo) as u32;
    let hi = if hi0 > 9 { (hi0 + 6) as u32 } else { hi0 };
    lemma_bcd_bits(0, 0, lo, hi);
    lemma_bcd_bits(hi & 0xF, lo & 0xF, lo, hi);
}

/// 8-bit decimal ADC on packed BCD operands adds them as decimal numbers:
/// the result is the BCD sum (with the carry in) modulo 100, C is set when
/// it reached 100, and the high byte of A is kept.
pub proof fn lemma_adc_decimal_8(c: Cpu, v: u16)
    requires
        flag_on(c.p, FLAG_D),
        is_bcd8(c.a as u8),
        is_bcd8(v as u8),
    ensures
        ({
            let r = adc_spec(c, v, false);
            let sum = bcd8(c.a as u8) + bcd8(v as u8) + (if flag_on(c.p, FLAG_C) { 1int } else { 0int });
            &&& is_bcd8(r.a as u8)
            &&& bcd8(r.a as u8) == sum % 100
            &&& flag_on(r.p, FLAG_C) == (sum >= 100)
            &&& r.a & 0xFF00 == c.a & 0xFF00
        }),
{
    let (a16, v16) = (c.a, v);
    assert((a16 & 0xFF) as u32 == (a16 as u8) as u32 && (v16 & 0xFF) as u32 == (v16 as u8) as u32) by (bit_vector);
    let cin: u32 = if flag_on(c.p, FLAG_C) { 1 } else { 0 };
    lemma_bcd_add_byte(a16 as u8, v16 as u8, cin);
    let rb = bcd_add_byte((a16 & 0xFF) as u32, (v16 & 0xFF) as u32, cin).0;
    assert(((a16 & 0xFF00) | (rb as u16)) as u8 == rb && ((a16 & 0xFF00) | (rb as u16)) & 0xFF00 == a16 & 0xFF00) by (bit_vector);
    let a = (a16 & 0xFF) as u32;
    let o = (v16 & 0xFF) as u32;
    lemma_set_flag_c(c.p, bcd_add_byte(a, o, cin).1, (!((a as u8) ^ (o as u8)) & ((a as u8) ^ rb) & 0x80) != 0, rb);
}

/// Packing two BCD digits held in `i32`s; the nibbles of a byte widened
/// to `i32`.
proof fn lemma_bcd_bits_i32(h: i32, l: i32, x: u8)
    by (bit_vector)
    requires
        0 <= h <= 9,
        0 <= l <= 9,
    ensures
        (((h & 0xF) << 4) | (l & 0xF)) as u8 >> 4 == h as u8,
        (((h & 0xF) << 4) | (l & 0xF)) as u8 & 0xF == l as u8,
        (x as i32) & 0xF == (x & 0xF) as i32,
        ((x as i32) >> 4) & 0xF == (x >> 4) as i32,
{
}

proof fn lemma_bcd_sub_byte(a8: u8, o8: u8, bin: i32)
    requires
        is_bcd8(a8),
        is_bcd8(o8),
        0 <= bin <= 1,
    ensures
        is_bcd8(bcd_sub_byte(a8 as i32, o8 as i32, bin).0),
        bcd8(bcd_sub_byte(a8 as i32, o8 as i32, bin).0) == (bcd8(a8) - bcd8(o8) - bin) % 100,
        bcd_sub_byte(a8 as i32, o8 as i32, bin).1 == (bcd8(a8) - bcd8(o8) - bin >= 0),
{
    lemma_bcd_bits_i32(0, 0, a8);
    lemma_bcd_bits_i32(0, 0, o8);
    let a = a8 as i32;
    let o = o8 as i32;
    let lo0 = ((a & 0xF) - (o & 0xF) - bin) as i32;
    let lo = if lo0 < 0 { (lo0 + 10) as i32 } else { lo0 };
    let blo: i32 = if lo0 < 0 { 1 } else { 0 };
    let hi0 = (((a >> 4) & 0xF) - ((o >> 4) & 0xF) - blo) as i32;
    let hi = if hi0 < 0 { (hi0 + 10) as i32 } else { hi0 };
    lemma_bcd_bits_i32(hi, lo, a8);
}

/// 8-bit decimal SBC on packed BCD operands subtracts them as decimal
/// numbers: the result is the BCD difference (less the borrow in) modulo
/// 100, C is set when no borrow was needed, and the high byte of A is kept.
pub proof fn lemma_sbc_decimal_8(c: Cpu, v: u16)
    requires
        flag_on(c.p, FLAG_D),
        is_bcd8(c.a as u8),
        is_bcd8(v as u8),
    ensures
        ({
            let r = sbc_spec(c, v, false);
            let diff = bcd8(c.a as u8) - bcd8(v as u8) - (if flag_on(c.p, FLAG_C) { 0int } else { 1int });
            &&& is_bcd8(r.a as u8)
            &&& bcd8(r.a as u8) == diff % 100
            &&& flag_on(r.p, FLAG_C) == (diff >= 0)
            &&& r.a & 0xFF00 == c.a & 0xFF00
        }),
{
    let (a16, v16) = (c.a, v);
    assert((a16 & 0xFF) as i32 == (a16 as u8) as i32 && (v16 & 0xFF) as i32 == (v16 as u8) as i32) by (bit_vector);
    let bin: i32 = if flag_on(c.p, FLAG_C) { 0 } else { 1 };
    lemma_bcd_sub_byte(a16 as u8, v16 as u8, bin);
    let a = (a16 & 0xFF) as i32;
    let o = (v16 & 0xFF) as i32;
    let rb = bcd_sub_byte(a, o, bin).0;
    assert(((a16 & 0xFF00) | (rb as u16)) as u8 == rb && ((a16 & 0xFF00) | (rb as u16)) & 0xFF00 == a16 & 0xFF00) by (bit_vector);
    lemma_set_flag_c(c.p, bcd_sub_byte(a, o, bin).1, (((a as u8) ^ (o as u8)) & ((a as u8) ^ rb) & 0x80) != 0, rb);
}

/// Digit `k` (0-3, least significant first) of a packed BCD word.
pub open spec fn bcd_digit(x: u16, k: nat) -> u32 {
    ((x as u32) >> ((k * 4) as u32)) & 0xF
}

/// Whether a word is four packed BCD digits.
pub open spec fn is_bcd16(x: u16) -> bool {
    &&& bcd_digit(x, 0) <= 9
    &&& bcd_digit(x, 1) <= 9
    &&& bcd_digit(x, 2) <= 9
    &&& bcd_digit(x, 3) <= 9
}

/// The value of four packed BCD digits.
pub open spec fn bcd16(x: u16) -> int {
    bcd_digit(x, 0) + bcd_digit(x, 1) * 10 + bcd_digit(x, 2) * 100 + bcd_digit(x, 3) * 1000
}

/// Four nibbles packed into a word and read back; a corrected digit sum.
proof fn lemma_pack_digits(d0: u32, d1: u32, d2: u32, d3: u32, s: u32)
    by (bit_vector)
    requires
        d0 <= 15,
        d1 <= 15,
        d2 <= 15,
        d3 <= 15,
        s < 32,
    ensures
        (((((0u32 | (d0 << 0u32)) | (d1 << 4u32)) | (d2 << 8u32)) | (d3 << 12u32)) as u16 as u32 >> 0u32) & 0xF == d0,
        (((((0u32 | (d0 << 0u32)) | (d1 << 4u32)) | (d2 << 8u32)) | (d3 << 12u32)) as u16 as u32 >> 4u32) & 0xF == d1,
        (((((0u32 | (d0 << 0u32)) | (d1 << 4u32)) | (d2 << 8u32)) | (d3 << 12u32)) as u16 as u32 >> 8u32) & 0xF == d2,
        (((((0u32 | (d0 << 0u32)) | (d1 << 4u32)) | (d2 << 8u32)) | (d3 << 12u32)) as u16 as u32 >> 12u32) & 0xF == d3,
        s & 0xF == if s >= 16 { (s - 16) as u32 } else { s },
{
}


/// C as set by a C update survives the V, Z and N updates after it, at 16
/// bits.
proof fn lemma_set_flag_c16(p: CpuFlags, on: bool, v: bool, r: u16)
    ensures
        flag_on(nz16(set_flag(set_flag(p, FLAG_C, on), FLAG_V, v), r), FLAG_C) == on,
{
    let p1 = set_flag(p, FLAG_C, on);
    let p2 = set_flag(p1, FLAG_V, v);
    let p3 = set_flag(p2, FLAG_Z, r == 0);
    lemma_c_bits(p.0);
    lemma_c_bits(p1.0);
    lemma_c_bits(p2.0);
    lemma_c_bits(p3.0);
}

/// One decimal digit position of the addition: the corrected digit and the
/// carry out.
pub open spec fn dec_digit_add(a: int, b: int, cin: int) -> (int, int) {
    if a + b + cin > 9 {
        (a + b + cin - 10, 1)
    } else {
        (a + b + cin, 0)
    }
}

/// The digit-by-digit sum of four decimal digits equals the sum of the
/// values.
proof fn lemma_dec4_add(a: Seq<int>, b: Seq<int>, cin: int)
    requires
        a.len() == 4,
        b.len() == 4,
        forall|i: int| 0 <= i < 4 ==> 0 <= #[trigger] a[i] <= 9 && 0 <= b[i] <= 9,
        0 <= cin <= 1,
    ensures
        ({
            let r0 = dec_digit_add(a[0], b[0], cin);
            let r1 = dec_digit_add(a[1], b[1], r0.1);
            let r2 = dec_digit_add(a[2], b[2], r1.1);
            let r3 = dec_digit_add(a[3], b[3], r2.1);
            &&& 0 <= r0.0 <= 9 && 0 <= r1.0 <= 9 && 0 <= r2.0 <= 9 && 0 <= r3.0 <= 9
            &&& r0.0 + r1.0 * 10 + r2.0 * 100 + r3.0 * 1000 + r3.1 * 10000 == a[0] + a[1] * 10 + a[2] * 100 + a[3]
                * 1000 + b[0] + b[1] * 10 + b[2] * 100 + b[3] * 1000 + cin
            &&& 0 <= r3.1 <= 1
        }),
{
    assert(0 <= a[0] <= 9 && 0 <= a[1] <= 9 && 0 <= a[2] <= 9 && 0 <= a[3] <= 9);
}

/// The corrected digit sum of one position of the decimal addition, before
/// its low nibble is kept, and the carry out.
pub open spec fn bcd_pos(a: u16, b: u16, k: nat, carry: u32) -> (u32, u32) {
    let s = (bcd_digit(a, k) + bcd_digit(b, k) + carry) as u32;
    (if s > 9 { (s + 6) as u32 } else { s }, if s > 9 { 1u32 } else { 0u32 })
}

/// The four positions of the decimal addition, unrolled.
proof fn lemma_bcd_add_unrolled(a: u16, b: u16, cin: u32)
    ensures
        ({
            let p0 = bcd_pos(a, b, 0, cin);
            let p1 = bcd_pos(a, b, 1, p0.1);
            let p2 = bcd_pos(a, b, 2, p1.1);
            let p3 = bcd_pos(a, b, 3, p2.1);
            bcd_add_from(a, b, 0, 0, cin) == (
                (((0u32 | ((p0.0 & 0xF) << 0u32)) | ((p1.0 & 0xF) << 4u32)) | ((p2.0 & 0xF) << 8u32)) | ((p3.0 & 0xF)
                    << 12u32),
                p3.1,
            )
        }),
{
    reveal_with_fuel(bcd_add_from, 5);
}

/// One position: on digits the corrected nibble is the decimal digit and
/// the carry is the decimal carry.
proof fn lemma_bcd_pos(a: u16, b: u16, k: nat, carry: u32)
    requires
        bcd_digit(a, k) <= 9,
        bcd_digit(b, k) <= 9,
        carry <= 1,
    ensures
        (bcd_pos(a, b, k, carry).0 & 0xF) as int == dec_digit_add(bcd_digit(a, k) as int, bcd_digit(b, k) as int, carry as int).0,
        bcd_pos(a, b, k, carry).1 as int == dec_digit_add(bcd_digit(a, k) as int, bcd_digit(b, k) as int, carry as int).1,
        bcd_pos(a, b, k, carry).1 <= 1,
{
    lemma_pack_digits(0, 0, 0, 0, bcd_pos(a, b, k, carry).0);
}

/// 16-bit decimal ADC on packed BCD operands adds them as four-digit
/// decimal numbers: the result is the BCD sum (with the carry in) modulo
/// 10000, and C is set when it reached 10000.
pub proof fn lemma_adc_decimal_16(c: Cpu, v: u16)
    requires
        flag_on(c.p, FLAG_D),
        is_bcd16(c.a),
        is_bcd16(v),
    ensures
        ({
            let r = adc_spec(c, v, true);
            let sum = bcd16(c.a) + bcd16(v) + (if flag_on(c.p, FLAG_C) { 1int } else { 0int });
            &&& is_bcd16(r.a)
            &&& bcd16(r.a) == sum % 10000
            &&& flag_on(r.p, FLAG_C) == (sum >= 10000)
        }),
{
    let a = c.a;
    let cin: u32 = if flag_on(c.p, FLAG_C) { 1 } else { 0 };
    let p0 = bcd_pos(a, v, 0, cin);
    let p1 = bcd_pos(a, v, 1, p0.1);
    let p2 = bcd_pos(a, v, 2, p1.1);
    let p3 = bcd_pos(a, v, 3, p2.1);
    lemma_bcd_add_unrolled(a, v, cin);
    lemma_bcd_pos(a, v, 0, cin);
    lemma_bcd_pos(a, v, 1, p0.1);
    lemma_bcd_pos(a, v, 2, p1.1);
    lemma_bcd_pos(a, v, 3, p2.1);
    let da = seq![bcd_digit(a, 0) as int, bcd_digit(a, 1) as int, bcd_digit(a, 2) as int, bcd_digit(a, 3) as int];
    let dv = seq![bcd_digit(v, 0) as int, bcd_digit(v, 1) as int, bcd_digit(v, 2) as int, bcd_digit(v, 3) as int];
    lemma_dec4_add(da, dv, cin as int);
    lemma_pack_digits(p0.0 & 0xF, p1.0 & 0xF, p2.0 & 0xF, p3.0 & 0xF, 0);
    let res = bcd_add_from(a, v, 0, 0, cin);
    let r = res.0 as u16;
    assert(bcd_digit(r, 0) == p0.0 & 0xF && bcd_digit(r, 1) == p1.0 & 0xF && bcd_digit(r, 2) == p2.0 & 0xF && bcd_digit(r, 3)
        == p3.0 & 0xF);
    let ov = (!(a ^ v) & (a ^ r) & 0x8000) != 0;
    lemma_set_flag_c16(c.p, res.1 != 0, ov, r);
}

/// One decimal digit position of the subtraction: the corrected digit and
/// the borrow out.
pub open spec fn dec_digit_sub(a: int, b: int, bin: int) -> (int, int) {
    if a - b - bin < 0 {
        (a - b - bin + 10, 1)
    } else {
        (a - b - bin, 0)
    }
}

/// The digit-by-digit difference of four decimal digits equals the
/// difference of the values, plus 10000 on a final borrow.
proof fn lemma_dec4_sub(a: Seq<int>, b: Seq<int>, bin: int)
    requires
        a.len() == 4,
        b.len() == 4,
        forall|i: int| 0 <= i < 4 ==> 0 <= #[trigger] a[i] <= 9 && 0 <= b[i] <= 9,
        0 <= bin <= 1,
    ensures
        ({
            let r0 = dec_digit_sub(a[0], b[0], bin);
            let r1 = dec_digit_sub(a[1], b[1], r0.1);
            let r2 = dec_digit_sub(a[2], b[2], r1.1);
            let r3 = dec_digit_sub(a[3], b[3], r2.1);
            &&& 0 <= r0.0 <= 9 && 0 <= r1.0 <= 9 && 0 <= r2.0 <= 9 && 0 <= r3.0 <= 9
            &&& r0.0 + r1.0 * 10 + r2.0 * 100 + r3.0 * 1000 - r3.1 * 10000 == a[0] + a[1] * 10 + a[2] * 100 + a[3]
                * 1000 - (b[0] + b[1] * 10 + b[2] * 100 + b[3] * 1000) - bin
            &&& 0 <= r3.1 <= 1
        }),
{
    assert(0 <= a[0] <= 9 && 0 <= a[1] <= 9 && 0 <= a[2] <= 9 && 0 <= a[3] <= 9);
}

/// The corrected digit difference of one position of the decimal
/// subtraction, and the borrow out.
pub open spec fn bcd_sub_pos(a: u16, b: u16, k: nat, borrow: i32) -> (i32, i32) {
    let shift = (k * 4) as u32;
    let d = (((a >> shift) & 0xF) as i32 - ((b >> shift) & 0xF) as i32 - borrow) as i32;
    (if d < 0 { (d + 10) as i32 } else { d }, if d < 0 { 1i32 } else { 0i32 })
}

/// The four positions of the decimal subtraction, unrolled.
proof fn lemma_bcd_sub_unrolled(a: u16, b: u16, bin: i32)
    ensures
        ({
            let p0 = bcd_sub_pos(a, b, 0, bin);
            let p1 = bcd_sub_pos(a, b, 1, p0.1);
            let p2 = bcd_sub_pos(a, b, 2, p1.1);
            let p3 = bcd_sub_pos(a, b, 3, p2.1);
            bcd_sub_from(a, b, 0, 0, bin) == (
                (((0u16 | (((p0.0 as u16) & 0xF) << 0u32)) | (((p1.0 as u16) & 0xF) << 4u32)) | (((p2.0 as u16) & 0xF) << 8u32))
                    | (((p3.0 as u16) & 0xF) << 12u32),
                p3.1,
            )
        }),
{
    reveal_with_fuel(bcd_sub_from, 5);
}

/// Nibbles of a word read at 16 and at 32 bits agree; four digits packed
/// into a word read back.
proof fn lemma_word_nibbles(x: u16, d0: u16, d1: u16, d2: u16, d3: u16)
    by (bit_vector)
    requires
        d0 <= 9,
        d1 <= 9,
        d2 <= 9,
        d3 <= 9,
    ensures
        ((x >> 0u32) & 0xF) as u32 == ((x as u32) >> 0u32) & 0xF,
        ((x >> 4u32) & 0xF) as u32 == ((x as u32) >> 4u32) & 0xF,
        ((x >> 8u32) & 0xF) as u32 == ((x as u32) >> 8u32) & 0xF,
        ((x >> 12u32) & 0xF) as u32 == ((x as u32) >> 12u32) & 0xF,
        ((((((0u16 | ((d0 & 0xF) << 0u32)) | ((d1 & 0xF) << 4u32)) | ((d2 & 0xF) << 8u32)) | ((d3 & 0xF) << 12u32)) as u32) >> 0u32) & 0xF == d0 as u32,
        ((((((0u16 | ((d0 & 0xF) << 0u32)) | ((d1 & 0xF) << 4u32)) | ((d2 & 0xF) << 8u32)) | ((d3 & 0xF) << 12u32)) as u32) >> 4u32) & 0xF == d1 as u32,
        ((((((0u16 | ((d0 & 0xF) << 0u32)) | ((d1 & 0xF) << 4u32)) | ((d2 & 0xF) << 8u32)) | ((d3 & 0xF) << 12u32)) as u32) >> 8u32) & 0xF == d2 as u32,
        ((((((0u16 | ((d0 & 0xF) << 0u32)) | ((d1 & 0xF) << 4u32)) | ((d2 & 0xF) << 8u32)) | ((d3 & 0xF) << 12u32)) as u32) >> 12u32) & 0xF == d3 as u32,
{
}

/// One position of the subtraction on digits.
proof fn lemma_bcd_sub_pos(a: u16, b: u16, k: nat, borrow: i32)
    requires
        k < 4,
        bcd_digit(a, k) <= 9,
        bcd_digit(b, k) <= 9,
        0 <= borrow <= 1,
    ensures
        bcd_sub_pos(a, b, k, borrow).0 as int == dec_digit_sub(bcd_digit(a, k) as int, bcd_digit(b, k) as int, borrow as int).0,
        bcd_sub_pos(a, b, k, borrow).1 as int == dec_digit_sub(bcd_digit(a, k) as int, bcd_digit(b, k) as int, borrow as int).1,
        0 <= bcd_sub_pos(a, b, k, borrow).1 <= 1,
        0 <= bcd_sub_pos(a, b, k, borrow).0 <= 9,
{
    lemma_word_nibbles(a, 0, 0, 0, 0);
    lemma_word_nibbles(b, 0, 0, 0, 0);
}

/// 16-bit decimal SBC on packed BCD operands subtracts them as four-digit
/// decimal numbers: the result is the BCD difference (less the borrow in)
/// modulo 10000, and C is set when no borrow was needed.
#[verifier::spinoff_prover]
pub proof fn lemma_sbc_decimal_16(c: Cpu, v: u16)
    requires
        flag_on(c.p, FLAG_D),
        is_bcd16(c.a),
        is_bcd16(v),
    ensures
        ({
            let r = sbc_spec(c, v, true);
            let diff = bcd16(c.a) - bcd16(v) - (if flag_on(c.p, FLAG_C) { 0int } else { 1int });
            &&& is_bcd16(r.a)
            &&& bcd16(r.a) == diff % 10000
            &&& flag_on(r.p, FLAG_C) == (diff >= 0)
        }),
{
    let a = c.a;
    let bin: i32 = if flag_on(c.p, FLAG_C) { 0 } else { 1 };
    let p0 = bcd_sub_pos(a, v, 0, bin);
    let p1 = bcd_sub_pos(a, v, 1, p0.1);
    let p2 = bcd_sub_pos(a, v, 2, p1.1);
    let p3 = bcd_sub_pos(a, v, 3, p2.1);
    lemma_bcd_sub_unrolled(a, v, bin);
    lemma_bcd_sub_pos(a, v, 0, bin);
    lemma_bcd_sub_pos(a, v, 1, p0.1);
    lemma_bcd_sub_pos(a, v, 2, p1.1);
    lemma_bcd_sub_pos(a, v, 3, p2.1);
    let da = seq![bcd_digit(a, 0) as int, bcd_digit(a, 1) as int, bcd_digit(a, 2) as int, bcd_digit(a, 3) as int];
    let dv = seq![bcd_digit(v, 0) as int, bcd_digit(v, 1) as int, bcd_digit(v, 2) as int, bcd_digit(v, 3) as int];
    lemma_dec4_sub(da, dv, bin as int);
    lemma_word_nibbles(0, p0.0 as u16, p1.0 as u16, p2.0 as u16, p3.0 as u16);
    let res = bcd_sub_from(a, v, 0, 0, bin);
    let r = res.0;
    assert(bcd_digit(r, 0) == p0.0 && bcd_digit(r, 1) == p1.0 && bcd_digit(r, 2) == p2.0 && bcd_digit(r, 3) == p3.0);
    let ov = ((a ^ v) & (a ^ r) & 0x8000) != 0;
    lemma_set_flag_c16(c.p, res.1 == 0, ov, r);
}

/// ADC in binary or decimal mode, as D selects.
pub open spec fn adc_spec(c: Cpu, v: u16, wide: bool) -> Cpu {
    if flag_on(c.p, FLAG_D) {
        adc_dec_spec(c, v, wide)
    } else {
        adc_bin_spec(c, v, wide)
    }
}

/// SBC in either mode; in binary mode, ADC of the complemented operand.
pub open spec fn sbc_spec(c: Cpu, v: u16, wide: bool) -> Cpu {
    if flag_on(c.p, FLAG_D) {
        sbc_dec_spec(c, v, wide)
    } else if wide {
        adc_bin_spec(c, !v, true)
    } else {
        adc_bin_spec(c, (!v) & 0xFF, false)
    }
}

/// CMP/CPX/CPY: N and Z from `reg - operand` at the given width, C when
/// no borrow. Only P changes.
pub open spec fn compare_spec(c: Cpu, reg: u16, v: u16, wide: bool) -> Cpu {
    if wide {
        Cpu { p: set_flag(nz16(c.p, reg.wrapping_sub(v)), FLAG_C, reg >= v), ..c }
    } else {
        let r8 = (reg & 0xFF) as u8;
        let v8 = (v & 0xFF) as u8;
        Cpu { p: set_flag(nz8(c.p, r8.wrapping_sub(v8)), FLAG_C, r8 >= v8), ..c }
    }
}

/// BIT with a memory operand: Z from A & operand, N and V from the
/// operand's top two bits at the given width.
pub open spec fn bit_spec(c: Cpu, v: u16, wide: bool) -> Cpu {
    if wide {
        Cpu { p: set_flag(set_flag(set_flag(c.p, FLAG_Z, c.a & v == 0), FLAG_N, v & 0x8000 != 0), FLAG_V, v & 0x4000 != 0), ..c }
    } else {
        Cpu {
            p: set_flag(set_flag(set_flag(c.p, FLAG_Z, (c.a as u8) & (v as u8) == 0), FLAG_N, v & 0x80 != 0), FLAG_V, v & 0x40 != 0),
            ..c
        }
    }
}

/// BIT immediate: only Z, from A & operand.
pub open spec fn bit_imm_spec(c: Cpu, v: u16, wide: bool) -> Cpu {
    let t = if wide { c.a & v } else { (c.a & 0xFF) & (v & 0xFF) };
    Cpu { p: set_flag(c.p, FLAG_Z, t == 0), ..c }
}

/// The bitwise operations on the accumulator.
#[derive(Debug, Clone, Copy, PartialEq, Eq, Structural)]
pub enum Logic {
    Ora,
    And,
    Eor,
}

pub open spec fn logic16(op: Logic, x: u16, y: u16) -> u16 {
    match op {
        Logic::Ora => x | y,
        Logic::And => x & y,
        Logic::Eor => x ^ y,
    }
}

pub open spec fn logic8(op: Logic, x: u8, y: u8) -> u8 {
    match op {
        Logic::Ora => x | y,
        Logic::And => x & y,
        Logic::Eor => x ^ y,
    }
}

/// ORA/AND/EOR into A at the given width (the high byte kept when 8-bit).
pub open spec fn logic_spec(c: Cpu, op: Logic, v: u16, wide: bool) -> Cpu {
    if wide {
        let r = logic16(op, c.a, v);
        Cpu { a: r, p: nz16(c.p, r), ..c }
    } else {
        let na = (c.a & 0xFF00) | (logic8(op, c.a as u8, v as u8) as u16);
        Cpu { a: na, p: nz8(c.p, na as u8), ..c }
    }
}

/// The shifts and rotates.
#[derive(Debug, Clone, Copy, PartialEq, Eq, Structural)]
pub enum Shift {
    Asl,
    Lsr,
    Rol,
    Ror,
}

/// An 8-bit rotate left through carry: (result, bit shifted out).
pub open spec fn rol8_spec(v: u8, carry: bool) -> (u8, bool) {
    ((v << 1) | (if carry { 1u8 } else { 0u8 }), (v & 0x80) != 0)
}

/// An 8-bit rotate right through carry: (result, bit shifted out).
pub open spec fn ror8_spec(v: u8, carry: bool) -> (u8, bool) {
    ((v >> 1) | (if carry { 0x80u8 } else { 0u8 }), (v & 0x01) != 0)
}

/// A shift or rotate of `v` at the given width with carry in `cin`:
/// (result, carry out). When 8-bit only the low byte takes part.
pub open spec fn shift_spec(k: Shift, v: u16, wide: bool, cin: bool) -> (u16, bool) {
    match k {
        Shift::Asl => if wide {
            (v << 1, (v & 0x8000) != 0)
        } else {
            (((v as u8) << 1) as u16, ((v as u8) & 0x80) != 0)
        },
        Shift::Lsr => if wide {
            (v >> 1, (v & 0x0001) != 0)
        } else {
            (((v as u8) >> 1) as u16, ((v as u8) & 0x01) != 0)
        },
        Shift::Rol => if wide {
            ((v << 1) | (if cin { 1u16 } else { 0u16 }), (v & 0x8000) != 0)
        } else {
            (rol8_spec(v as u8, cin).0 as u16, rol8_spec(v as u8, cin).1)
        },
        Shift::Ror => if wide {
            ((v >> 1) | (if cin { 0x8000u16 } else { 0u16 }), (v & 0x0001) != 0)
        } else {
            (ror8_spec(v as u8, cin).0 as u16, ror8_spec(v as u8, cin).1)
        },
    }
}

/// A shift or rotate of the accumulator: C from the bit shifted out, N and
/// Z from the result; when 8-bit the high byte of A is kept.
pub open spec fn shift_acc_spec(c: Cpu, k: Shift) -> Cpu {
    let wide = !flag_on(c.p, FLAG_M);
    let (r, cout) = shift_spec(k, c.a, wide, flag_on(c.p, FLAG_C));
    let p1 = set_flag(c.p, FLAG_C, cout);
    if wide {
        Cpu { a: r, p: nz16(p1, r), ..c }
    } else {
        Cpu { a: (c.a & 0xFF00) | r, p: nz8(p1, r as u8), ..c }
    }
}

// ==================== Binary arithmetic laws ====================

/// A byte read as a two's complement number.
pub open spec fn signed8(x: int) -> int {
    if x >= 0x80 { x - 0x100 } else { x }
}

/// A 16-bit word read as a two's complement number.
pub open spec fn signed16(x: int) -> int {
    if x >= 0x8000 { x - 0x10000 } else { x }
}

/// Whether P bits D, I, X and M are those of `p`.
pub open spec fn keeps_mode_flags(p: CpuFlags, q: CpuFlags) -> bool {
    &&& flag_on(q, FLAG_D) == flag_on(p, FLAG_D)
    &&& flag_on(q, FLAG_I) == flag_on(p, FLAG_I)
    &&& flag_on(q, FLAG_X) == flag_on(p, FLAG_X)
    &&& flag_on(q, FLAG_M) == flag_on(p, FLAG_M)
}

/// Setting or clearing one flag bit leaves the other bits as they were.
proof fn lemma_flag_bit(x: u8, m: u8, k: u8)
    by (bit_vector)
    requires
        m == 1 || m == 2 || m == 4 || m == 8 || m == 16 || m == 32 || m == 64 || m == 128,
        k == 1 || k == 2 || k == 4 || k == 8 || k == 16 || k == 32 || k == 64 || k == 128,
    ensures
        ((x | m) & k == k) == (m == k || x & k == k),
        ((x & !m) & k == k) == (m != k && x & k == k),
{
}

/// The flags after C, V, Z and N are set in turn: those four as given, the
/// rest as before.
proof fn lemma_arith_flags(p: CpuFlags, carry: bool, ov: bool, z: bool, n: bool)
    ensures
        ({
            let q = set_flag(set_flag(set_flag(set_flag(p, FLAG_C, carry), FLAG_V, ov), FLAG_Z, z), FLAG_N, n);
            &&& flag_on(q, FLAG_C) == carry
            &&& flag_on(q, FLAG_V) == ov
            &&& flag_on(q, FLAG_Z) == z
            &&& flag_on(q, FLAG_N) == n
            &&& keeps_mode_flags(p, q)
        }),
{
    let p1 = set_flag(p, FLAG_C, carry);
    let p2 = set_flag(p1, FLAG_V, ov);
    let p3 = set_flag(p2, FLAG_Z, z);
    let bits: Seq<u8> = seq![FLAG_C, FLAG_V, FLAG_Z, FLAG_N, FLAG_D, FLAG_I, FLAG_X, FLAG_M];
    assert forall|i: int| 0 <= i < 8 implies {
        let k = #[trigger] bits[i];
        let q = set_flag(p3, FLAG_N, n);
        flag_on(q, k) == (if k == FLAG_C { carry } else if k == FLAG_V { ov } else if k == FLAG_Z { z } else if k
            == FLAG_N { n } else { flag_on(p, k) })
    } by {
        let k = bits[i];
        lemma_flag_bit(p.0, FLAG_C, k);
        lemma_flag_bit(p1.0, FLAG_V, k);
        lemma_flag_bit(p2.0, FLAG_Z, k);
        lemma_flag_bit(p3.0, FLAG_N, k);
    }
    assert(bits[0] == FLAG_C && bits[1] == FLAG_V && bits[2] == FLAG_Z && bits[3] == FLAG_N);
    assert(bits[4] == FLAG_D && bits[5] == FLAG_I && bits[6] == FLAG_X && bits[7] == FLAG_M);
}

/// The bit facts of the 8-bit binary adder.
proof fn lemma_add8_bits(a: u16, v: u16, cin: u16, s: u16)
    by (bit_vector)
    requires
        cin <= 1,
        s == (a & 0xFF) + (v & 0xFF) + cin,
    ensures
        a & 0xFF == a % 256,
        v & 0xFF == v % 256,
        ((a & 0xFF00) | (s & 0xFF)) & 0xFF == s % 256,
        ((a & 0xFF00) | (s & 0xFF)) % 256 == s % 256,
        ((a & 0xFF00) | (s & 0xFF)) / 256 == a / 256,
        ((!((a & 0xFF) ^ (v & 0xFF)) & ((a & 0xFF) ^ (((a & 0xFF00) | (s & 0xFF)) & 0xFF)) & 0x80) != 0) == (((a
            & 0xFF) < 128 && (v & 0xFF) < 128 && s % 256 >= 128) || ((a & 0xFF) >= 128 && (v & 0xFF) >= 128 && s
            % 256 < 128)),
        ((((((a & 0xFF00) | (s & 0xFF)) & 0xFF) as u8) & 0x80) != 0) == (s % 256 >= 128),
        (((((a & 0xFF00) | (s & 0xFF)) & 0xFF) as u8) == 0) == (s % 256 == 0),
        (!v) & 0xFF == 255 - v % 256,
{
}

/// The bit facts of the 16-bit binary adder.
proof fn lemma_add16_bits(a: u16, v: u16, cin: u32, s: u32)
    by (bit_vector)
    requires
        cin <= 1,
        s == a as u32 + v as u32 + cin,
    ensures
        ((s & 0xFFFF) as u16) == s % 65536,
        ((!(a ^ v) & (a ^ ((s & 0xFFFF) as u16)) & 0x8000) != 0) == ((a < 0x8000 && v < 0x8000 && s % 65536
            >= 0x8000) || (a >= 0x8000 && v >= 0x8000 && s % 65536 < 0x8000)),
        ((((s & 0xFFFF) as u16) & 0x8000) != 0) == (s % 65536 >= 0x8000),
        !v == 65535 - v,
{
}

/// The binary adder with an 8-bit accumulator, stated arithmetically.
#[verifier::spinoff_prover]
proof fn lemma_adc_bin_8(c: Cpu, v: u16)
    ensures
        ({
            let r = adc_bin_spec(c, v, false);
            let a8 = c.a as int % 256;
            let v8 = v as int % 256;
            let cin = if flag_on(c.p, FLAG_C) { 1int } else { 0int };
            &&& r.a % 256 == (a8 + v8 + cin) % 256
            &&& r.a / 256 == c.a / 256
            &&& flag_on(r.p, FLAG_C) == (a8 + v8 + cin >= 256)
            &&& flag_on(r.p, FLAG_V) == !(-128 <= signed8(a8) + signed8(v8) + cin <= 127)
            &&& flag_on(r.p, FLAG_N) == (r.a % 256 >= 128)
            &&& flag_on(r.p, FLAG_Z) == (r.a % 256 == 0)
            &&& keeps_mode_flags(c.p, r.p)
            &&& r == (Cpu { a: r.a, p: r.p, ..c })
        }),
{
    let cin: u32 = if flag_on(c.p, FLAG_C) { 1 } else { 0 };
    let a8 = (c.a & 0xFF) as u16;
    let v8 = (v & 0xFF) as u16;
    lemma_mask_bounds();
    let sum = (a8 + v8 + cin) as u16;
    lemma_add8_bits(c.a, v, cin as u16, sum);
    let na = ((c.a & 0xFF00) | (sum & 0xFF)) as u16;
    let ov = (!(a8 ^ v8) & (a8 ^ (na & 0xFF)) & 0x80) != 0;
    let r8 = (na & 0xFF) as u8;
    lemma_arith_flags(c.p, sum > 0xFF, ov, r8 == 0, r8 & 0x80 != 0);
}

/// The binary adder with a 16-bit accumulator, stated arithmetically.
#[verifier::spinoff_prover]
proof fn lemma_adc_bin_16(c: Cpu, v: u16)
    ensures
        ({
            let r = adc_bin_spec(c, v, true);
            let cin = if flag_on(c.p, FLAG_C) { 1int } else { 0int };
            &&& r.a == (c.a + v + cin) % 65536
            &&& flag_on(r.p, FLAG_C) == (c.a + v + cin >= 65536)
            &&& flag_on(r.p, FLAG_V) == !(-32768 <= signed16(c.a as int) + signed16(v as int) + cin <= 32767)
            &&& flag_on(r.p, FLAG_N) == (r.a >= 0x8000)
            &&& flag_on(r.p, FLAG_Z) == (r.a == 0)
            &&& keeps_mode_flags(c.p, r.p)
            &&& r == (Cpu { a: r.a, p: r.p, ..c })
        }),
{
    let cin: u32 = if flag_on(c.p, FLAG_C) { 1 } else { 0 };
    let sum = (c.a as u32 + v as u32 + cin) as u32;
    lemma_add16_bits(c.a, v, cin, sum);
    let r = (sum & 0xFFFF) as u16;
    let ov = (!(c.a ^ v) & (c.a ^ r) & 0x8000) != 0;
    lemma_arith_flags(c.p, sum > 0xFFFF, ov, r == 0, r & 0x8000 != 0);
}

/// Binary ADC with an 8-bit accumulator: the low byte of A becomes
/// A + operand + C modulo 256 and the high byte stays; C is the carry out of
/// bit 7; V is set exactly when the signed sum leaves -128..127; N and Z
/// follow the result; D, I, X, M and the other registers stay.
pub proof fn lemma_adc_binary_8(c: Cpu, v: u16)
    requires
        !flag_on(c.p, FLAG_D),
    ensures
        ({
            let r = adc_spec(c, v, false);
            let a8 = c.a as int % 256;
            let v8 = v as int % 256;
            let cin = if flag_on(c.p, FLAG_C) { 1int } else { 0int };
            &&& r.a % 256 == (a8 + v8 + cin) % 256
            &&& r.a / 256 == c.a / 256
            &&& flag_on(r.p, FLAG_C) == (a8 + v8 + cin >= 256)
            &&& flag_on(r.p, FLAG_V) == !(-128 <= signed8(a8) + signed8(v8) + cin <= 127)
            &&& flag_on(r.p, FLAG_N) == (r.a % 256 >= 128)
            &&& flag_on(r.p, FLAG_Z) == (r.a % 256 == 0)
            &&& keeps_mode_flags(c.p, r.p)
            &&& r == (Cpu { a: r.a, p: r.p, ..c })
        }),
{
    lemma_adc_bin_8(c, v);
}

/// Binary ADC with a 16-bit accumulator: A becomes A + operand + C modulo
/// 65536; C is the carry out of bit 15; V is set exactly when the signed sum
/// leaves -32768..32767; N and Z follow the result; the rest stays.
pub proof fn lemma_adc_binary_16(c: Cpu, v: u16)
    requires
        !flag_on(c.p, FLAG_D),
    ensures
        ({
            let r = adc_spec(c, v, true);
            let cin = if flag_on(c.p, FLAG_C) { 1int } else { 0int };
            &&& r.a == (c.a + v + cin) % 65536
            &&& flag_on(r.p, FLAG_C) == (c.a + v + cin >= 65536)
            &&& flag_on(r.p, FLAG_V) == !(-32768 <= signed16(c.a as int) + signed16(v as int) + cin <= 32767)
            &&& flag_on(r.p, FLAG_N) == (r.a >= 0x8000)
            &&& flag_on(r.p, FLAG_Z) == (r.a == 0)
            &&& keeps_mode_flags(c.p, r.p)
            &&& r == (Cpu { a: r.a, p: r.p, ..c })
        }),
{
    lemma_adc_bin_16(c, v);
}

/// Binary SBC with an 8-bit accumulator subtracts the operand and the
/// borrow (C clear) from the low byte of A modulo 256, keeping the high
/// byte; C is set exactly when no borrow out occurs; V exactly when the
/// signed difference leaves -128..127; N and Z follow the result.
#[verifier::spinoff_prover]
#[verifier::rlimit(40)]
pub proof fn lemma_sbc_binary_8(c: Cpu, v: u16)
    requires
        !flag_on(c.p, FLAG_D),
    ensures
        ({
            let r = sbc_spec(c, v, false);
            let a8 = c.a as int % 256;
            let v8 = v as int % 256;
            let cin = if flag_on(c.p, FLAG_C) { 1int } else { 0int };
            &&& r.a % 256 == (a8 - v8 - 1 + cin) % 256
            &&& r.a / 256 == c.a / 256
            &&& flag_on(r.p, FLAG_C) == (a8 - v8 - 1 + cin >= 0)
            &&& flag_on(r.p, FLAG_V) == !(-128 <= signed8(a8) - signed8(v8) - 1 + cin <= 127)
            &&& flag_on(r.p, FLAG_N) == (r.a % 256 >= 128)
            &&& flag_on(r.p, FLAG_Z) == (r.a % 256 == 0)
            &&& keeps_mode_flags(c.p, r.p)
            &&& r == (Cpu { a: r.a, p: r.p, ..c })
        }),
{
    let w = (!v) & 0xFF;
    lemma_mask_bounds();
    lemma_add8_bits(c.a, v, 0, ((c.a & 0xFF) + (v & 0xFF)) as u16);
    assert(w % 256 == 255 - v % 256);
    lemma_adc_bin_8(c, w);
    assert(signed8(w as int % 256) == -signed8(v as int % 256) - 1);
}

/// Binary SBC with a 16-bit accumulator: A becomes A - operand - borrow
/// modulo 65536; C is set exactly when no borrow out occurs; V exactly when
/// the signed difference leaves -32768..32767; N and Z follow the result.
#[verifier::spinoff_prover]
#[verifier::rlimit(40)]
pub proof fn lemma_sbc_binary_16(c: Cpu, v: u16)
    requires
        !flag_on(c.p, FLAG_D),
    ensures
        ({
            let r = sbc_spec(c, v, true);
            let cin = if flag_on(c.p, FLAG_C) { 1int } else { 0int };
            &&& r.a == (c.a - v - 1 + cin) % 65536
            &&& flag_on(r.p, FLAG_C) == (c.a - v - 1 + cin >= 0)
            &&& flag_on(r.p, FLAG_V) == !(-32768 <= signed16(c.a as int) - signed16(v as int) - 1 + cin <= 32767)
            &&& flag_on(r.p, FLAG_N) == (r.a >= 0x8000)
            &&& flag_on(r.p, FLAG_Z) == (r.a == 0)
            &&& keeps_mode_flags(c.p, r.p)
            &&& r == (Cpu { a: r.a, p: r.p, ..c })
        }),
{
    lemma_add16_bits(c.a, v, 0, (c.a as u32 + v as u32) as u32);
    lemma_adc_bin_16(c, !v);
}

impl Cpu {
    /// Sets N and Z from a 16-bit value.
    pub fn update_nz_flags_16(&mut self, value: u16)
        ensures
            *final(self) == (Cpu { p: nz16(old(self).p, value), ..*old(self) }),
    {
        if value == 0 {
            self.p.insert(FLAG_Z);
        } else {
            self.p.remove(FLAG_Z);
        }
        if (value & 0x8000) != 0 {
            self.p.insert(FLAG_N);
        } else {
            self.p.remove(FLAG_N);
        }
    }

    /// Sets N and Z from an 8-bit value.
    pub fn update_nz_flags_8(&mut self, value: u8)
        ensures
            *final(self) == (Cpu { p: nz8(old(self).p, value), ..*old(self) }),
    {
        if value == 0 {
            self.p.insert(FLAG_Z);
        } else {
            self.p.remove(FLAG_Z);
        }
        if (value & 0x80) != 0 {
            self.p.insert(FLAG_N);
        } else {
            self.p.remove(FLAG_N);
        }
    }

    /// Sets N and Z from a value of the given width.
    pub fn update_nz_flags_mem(&mut self, value: u16, is_16bit: bool)
        ensures
            *final(self) == (Cpu { p: nz_w(old(self).p, value, is_16bit), ..*old(self) }),
    {
        if is_16bit {
            self.update_nz_flags_16(value);
        } else {
            self.update_nz_flags_8(value as u8);
        }
    }

    /// Sets or clears the bits of `mask` in P.
    fn set_flag_to(&mut self, mask: u8, on: bool)
        ensures
            *final(self) == (Cpu { p: set_flag(old(self).p, mask, on), ..*old(self) }),
    {
        if on {
            self.p.insert(mask);
        } else {
            self.p.remove(mask);
        }
    }

    /// Loads the accumulator: all of A when 16-bit; only the low byte when
    /// 8-bit, keeping the hidden high byte that XBA exposes.
    pub fn set_a(&mut self, value: u16, is_16bit: bool)
        ensures
            *final(self) == (Cpu { a: merge_a(old(self).a, value, is_16bit), ..*old(self) }),
    {
        if is_16bit {
            self.a = value;
        } else {
            self.a = (self.a & 0xFF00) | (value & 0xFF);
        }
    }

    /// In emulation mode M and X are forced on and the index registers lose
    /// their high bytes; applied after anything that can rewrite P.
    pub fn enforce_emulation_mode_register_widths(&mut self)
        ensures
            *final(self) == enforce_widths_spec(*old(self)),
    {
        if self.e {
            self.p.insert(FLAG_M);
            self.p.insert(FLAG_X);
            self.x = self.x & 0x00FF;
            self.y = self.y & 0x00FF;
        }
    }

    /// Binary-mode ADC (dispatching to the decimal core when D is set).
    pub fn adc_binary(&mut self, operand: u16, is_16bit: bool)
        ensures
            *final(self) == adc_spec(*old(self), operand, is_16bit),
    {
        if self.p.contains(FLAG_D) {
            self.adc_decimal(operand, is_16bit);
            return;
        }
        self.adc_plain(operand, is_16bit);
    }

    /// ADC of `operand` with carry in binary, whatever D says.
    fn adc_plain(&mut self, operand: u16, is_16bit: bool)
        ensures
            *final(self) == adc_bin_spec(*old(self), operand, is_16bit),
    {
        proof {
            lemma_mask_bounds();
        }
        let a = self.a;
        let c: u32 = if self.p.contains(FLAG_C) { 1 } else { 0 };
        if is_16bit {
            let result = (a as u32) + (operand as u32) + c;
            self.a = (result & 0xFFFF) as u16;
            self.set_flag_to(FLAG_C, result > 0xFFFF);
            let overflow = (!(a ^ operand) & (a ^ self.a) & 0x8000) != 0;
            self.set_flag_to(FLAG_V, overflow);
            self.update_nz_flags_16(self.a);
        } else {
            let a_8 = (a & 0xFF) as u16;
            let op_8 = (operand & 0xFF) as u16;
            let result = a_8 + op_8 + (c as u16);
            self.a = (self.a & 0xFF00) | (result & 0xFF);
            self.set_flag_to(FLAG_C, result > 0xFF);
            let overflow = (!(a_8 ^ op_8) & (a_8 ^ (self.a & 0xFF)) & 0x80) != 0;
            self.set_flag_to(FLAG_V, overflow);
            self.update_nz_flags_8((self.a & 0xFF) as u8);
        }
    }

    /// SBC: in binary mode, ADC of the complemented operand; in decimal mode
    /// the BCD core.
    pub fn sbc_binary(&mut self, operand: u16, is_16bit: bool)
        ensures
            *final(self) == sbc_spec(*old(self), operand, is_16bit),
    {
        if self.p.contains(FLAG_D) {
            self.sbc_decimal(operand, is_16bit);
            return;
        }
        if is_16bit {
            self.adc_plain(!operand, true);
        } else {
            self.adc_plain((!operand) & 0xFF, false);
        }
    }

    /// Decimal-mode ADC: packed BCD digits added with carry propagation.
    pub fn adc_decimal(&mut self, operand: u16, is_16bit: bool)
        ensures
            *final(self) == adc_dec_spec(*old(self), operand, is_16bit),
    {
        proof {
            lemma_mask_bounds();
        }
        let carry_in: u32 = if self.p.contains(FLAG_C) { 1 } else { 0 };
        if is_16bit {
            let a = self.a;
            let op = operand;
            let mut result: u32 = 0;
            let mut carry = carry_in;
            let mut nibble: u32 = 0;
            while nibble < 4
                invariant
                    nibble <= 4,
                    carry <= 1,
                    bcd_add_from(a, op, nibble as nat, result, carry) == bcd_add_from(a, op, 0, 0, carry_in),
                decreases 4 - nibble,
            {
                proof {
                    lemma_mask_bounds();
                }
                let shift = nibble * 4;
                let an = ((a as u32) >> shift) & 0xF;
                let bn = ((op as u32) >> shift) & 0xF;
                let mut sum = an + bn + carry;
                if sum > 9 {
                    sum = sum + 6;
                    carry = 1;
                } else {
                    carry = 0;
                }
                result = result | ((sum & 0xF) << shift);
                nibble = nibble + 1;
            }
            let result = result as u16;
            self.set_flag_to(FLAG_C, carry != 0);
            let overflow = (!(a ^ op) & (a ^ result) & 0x8000) != 0;
            self.set_flag_to(FLAG_V, overflow);
            self.a = result;
            self.update_nz_flags_16(self.a);
        } else {
            let a = (self.a & 0xFF) as u32;
            let op = (operand & 0xFF) as u32;
            let mut lo = (a & 0xF) + (op & 0xF) + carry_in;
            let carry_lo: u32 = if lo > 9 {
                lo = lo + 6;
                1
            } else {
                0
            };
            let mut hi = ((a >> 4) & 0xF) + ((op >> 4) & 0xF) + carry_lo;
            let hi0 = hi;
            if hi > 9 {
                hi = hi + 6;
            }
            let result = (((hi & 0xF) << 4) | (lo & 0xF)) as u8;
            self.set_flag_to(FLAG_C, hi0 > 9);
            let overflow = (!((a as u8) ^ (op as u8)) & ((a as u8) ^ result) & 0x80) != 0;
            self.set_flag_to(FLAG_V, overflow);
            self.a = (self.a & 0xFF00) | (result as u16);
            self.update_nz_flags_8(result);
        }
    }

    /// Decimal-mode SBC: packed BCD digits subtracted with borrow
    /// propagation; C set when no final borrow.
    pub fn sbc_decimal(&mut self, operand: u16, is_16bit: bool)
        ensures
            *final(self) == sbc_dec_spec(*old(self), operand, is_16bit),
    {
        proof {
            lemma_mask_bounds();
        }
        let borrow_in: i32 = if self.p.contains(FLAG_C) { 0 } else { 1 };
        if is_16bit {
            let a = self.a;
            let op = operand;
            let mut result: u16 = 0;
            let mut borrow = borrow_in;
            let mut nibble: u32 = 0;
            while nibble < 4
                invariant
                    nibble <= 4,
                    0 <= borrow <= 1,
                    bcd_sub_from(a, op, nibble as nat, result, borrow) == bcd_sub_from(a, op, 0, 0, borrow_in),
                decreases 4 - nibble,
            {
                proof {
                    lemma_mask_bounds();
                }
                let shift = nibble * 4;
                let an = ((a >> shift) & 0xF) as i32;
                let bn = ((op >> shift) & 0xF) as i32;
                let mut diff = an - bn - borrow;
                if diff < 0 {
                    diff = diff + 10;
                    borrow = 1;
                } else {
                    borrow = 0;
                }
                result = result | (((diff as u16) & 0xF) << shift);
                nibble = nibble + 1;
            }
            self.set_flag_to(FLAG_C, borrow == 0);
            let overflow = ((a ^ op) & (a ^ result) & 0x8000) != 0;
            self.set_flag_to(FLAG_V, overflow);
            self.a = result;
            self.update_nz_flags_16(self.a);
        } else {
            let a = (self.a & 0xFF) as i32;
            let op = (operand & 0xFF) as i32;
            let mut lo = (a & 0xF) - (op & 0xF) - borrow_in;
            let borrow_lo: i32 = if lo < 0 {
                lo = lo + 10;
                1
            } else {
                0
            };
            let mut hi = ((a >> 4) & 0xF) - ((op >> 4) & 0xF) - borrow_lo;
            let hi0 = hi;
            if hi < 0 {
                hi = hi + 10;
            }
            let result = (((hi & 0xF) << 4) | (lo & 0xF)) as u8;
            self.set_flag_to(FLAG_C, hi0 >= 0);
            let overflow = (((a as u8) ^ (op as u8)) & ((a as u8) ^ result) & 0x80) != 0;
            self.set_flag_to(FLAG_V, overflow);
            self.a = (self.a & 0xFF00) | (result as u16);
            self.update_nz_flags_8(result);
        }
    }

    /// CMP/CPX/CPY core: flags of `reg - operand` without storing it.
    pub fn compare(&mut self, reg: u16, operand: u16, is_16bit: bool)
        ensures
            *final(self) == compare_spec(*old(self), reg, operand, is_16bit),
    {
        if is_16bit {
            let result = reg.wrapping_sub(operand);
            self.update_nz_flags_16(result);
            self.set_flag_to(FLAG_C, reg >= operand);
        } else {
            let reg_8 = (reg & 0xFF) as u8;
            let op_8 = (operand & 0xFF) as u8;
            let result_8 = reg_8.wrapping_sub(op_8);
            self.update_nz_flags_8(result_8);
            self.set_flag_to(FLAG_C, reg_8 >= op_8);
        }
    }

    /// BIT with a memory operand.
    pub fn bit_test(&mut self, operand: u16, is_16bit: bool)
        ensures
            *final(self) == bit_spec(*old(self), operand, is_16bit),
    {
        if is_16bit {
            self.set_flag_to(FLAG_Z, self.a & operand == 0);
            self.set_flag_to(FLAG_N, operand & 0x8000 != 0);
            self.set_flag_to(FLAG_V, operand & 0x4000 != 0);
        } else {
            self.set_flag_to(FLAG_Z, (self.a as u8) & (operand as u8) == 0);
            self.set_flag_to(FLAG_N, operand & 0x80 != 0);
            self.set_flag_to(FLAG_V, operand & 0x40 != 0);
        }
    }

    /// BIT immediate: Z only.
    pub fn bit_test_immediate(&mut self, operand: u16, is_16bit: bool)
        ensures
            *final(self) == bit_imm_spec(*old(self), operand, is_16bit),
    {
        let test = if is_16bit { self.a & operand } else { (self.a & 0xFF) & (operand & 0xFF) };
        self.set_flag_to(FLAG_Z, test == 0);
    }

    fn logic_into_a(&mut self, op: Logic, operand: u16, is_16bit: bool)
        ensures
            *final(self) == logic_spec(*old(self), op, operand, is_16bit),
    {
        if is_16bit {
            self.a = match op {
                Logic::Ora => self.a | operand,
                Logic::And => self.a & operand,
                Logic::Eor => self.a ^ operand,
            };
            self.update_nz_flags_16(self.a);
        } else {
            let x = self.a as u8;
            let y = operand as u8;
            let r = match op {
                Logic::Ora => x | y,
                Logic::And => x & y,
                Logic::Eor => x ^ y,
            };
            self.a = (self.a & 0xFF00) | (r as u16);
            self.update_nz_flags_8(self.a as u8);
        }
    }

    /// ORA into A.
    pub fn ora_into_a(&mut self, operand: u16, is_16bit: bool)
        ensures
            *final(self) == logic_spec(*old(self), Logic::Ora, operand, is_16bit),
    {
        self.logic_into_a(Logic::Ora, operand, is_16bit);
    }

    /// AND into A.
    pub fn and_into_a(&mut self, operand: u16, is_16bit: bool)
        ensures
            *final(self) == logic_spec(*old(self), Logic::And, operand, is_16bit),
    {
        self.logic_into_a(Logic::And, operand, is_16bit);
    }

    /// EOR into A.
    pub fn eor_into_a(&mut self, operand: u16, is_16bit: bool)
        ensures
            *final(self) == logic_spec(*old(self), Logic::Eor, operand, is_16bit),
    {
        self.logic_into_a(Logic::Eor, operand, is_16bit);
    }

    /// 8-bit rotate left through carry.
    pub fn rol_8(value: u8, carry: bool) -> (r: (u8, bool))
        ensures
            r == rol8_spec(value, carry),
    {
        let old_bit7 = (value & 0x80) != 0;
        let result = (value << 1) | (if carry { 1u8 } else { 0u8 });
        (result, old_bit7)
    }

    /// 8-bit rotate right through carry.
    pub fn ror_8(value: u8, carry: bool) -> (r: (u8, bool))
        ensures
            r == ror8_spec(value, carry),
    {
        let old_bit0 = (value & 0x01) != 0;
        let result = (value >> 1) | (if carry { 0x80u8 } else { 0u8 });
        (result, old_bit0)
    }

    /// ASL of a value at the given width: (result, carry out).
    pub fn asl_compute(value: u16, is_16bit: bool) -> (r: (u16, bool))
        ensures
            r == shift_spec(Shift::Asl, value, is_16bit, false),
    {
        if is_16bit {
            (value << 1, (value & 0x8000) != 0)
        } else {
            let v = value as u8;
            (((v << 1) as u16), (v & 0x80) != 0)
        }
    }

    /// LSR of a value at the given width: (result, carry out).
    pub fn lsr_compute(value: u16, is_16bit: bool) -> (r: (u16, bool))
        ensures
            r == shift_spec(Shift::Lsr, value, is_16bit, false),
    {
        if is_16bit {
            (value >> 1, (value & 0x0001) != 0)
        } else {
            let v = value as u8;
            ((v >> 1) as u16, (v & 0x01) != 0)
        }
    }

    /// ROL of a value at the given width: (result, carry out).
    pub fn rol_compute(value: u16, is_16bit: bool, carry_in: bool) -> (r: (u16, bool))
        ensures
            r == shift_spec(Shift::Rol, value, is_16bit, carry_in),
    {
        if is_16bit {
            let carry_out = (value & 0x8000) != 0;
            ((value << 1) | (if carry_in { 1u16 } else { 0u16 }), carry_out)
        } else {
            let (result, carry_out) = Self::rol_8(value as u8, carry_in);
            (result as u16, carry_out)
        }
    }

    /// ROR of a value at the given width: (result, carry out).
    pub fn ror_compute(value: u16, is_16bit: bool, carry_in: bool) -> (r: (u16, bool))
        ensures
            r == shift_spec(Shift::Ror, value, is_16bit, carry_in),
    {
        if is_16bit {
            let carry_out = (value & 0x0001) != 0;
            ((value >> 1) | (if carry_in { 0x8000u16 } else { 0u16 }), carry_out)
        } else {
            let (result, carry_out) = Self::ror_8(value as u8, carry_in);
            (result as u16, carry_out)
        }
    }

    /// Any shift or rotate of `value` with the current carry.
    pub fn shift_compute(&self, k: Shift, value: u16, is_16bit: bool) -> (r: (u16, bool))
        ensures
            r == shift_spec(k, value, is_16bit, flag_on(self.p, FLAG_C)),
    {
        match k {
            Shift::Asl => Self::asl_compute(value, is_16bit),
            Shift::Lsr => Self::lsr_compute(value, is_16bit),
            Shift::Rol => Self::rol_compute(value, is_16bit, self.p.contains(FLAG_C)),
            Shift::Ror => Self::ror_compute(value, is_16bit, self.p.contains(FLAG_C)),
        }
    }

    /// ASL/LSR/ROL/ROR A.
    pub fn shift_accumulator(&mut self, k: Shift)
        ensures
            *final(self) == shift_acc_spec(*old(self), k),
    {
        let is_16bit = !self.p.contains(FLAG_M);
        let (result, carry) = self.shift_compute(k, self.a, is_16bit);
        self.set_flag_to(FLAG_C, carry);
        if is_16bit {
            self.a = result;
            self.update_nz_flags_16(result);
        } else {
            self.a = (self.a & 0xFF00) | result;
            self.update_nz_flags_8(result as u8);
        }
    }
}

} // verus!
