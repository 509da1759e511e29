//! Video RAM: 64KB of tile data and tilemaps, addressed by byte here.
use vstd::prelude::*;

verus! {

/// Size of VRAM in bytes.
pub const VRAM_SIZE: usize = 0x10000;

/// Video RAM (VRAM) for the PPU: 64KB, word-organized on hardware but
/// byte-addressed here (address range $0000-$FFFF).
pub struct Vram {
    data: Box<[u8; 0x10000]>,
}

/// Little-endian word formed from two bytes.
pub open spec fn word_of(lo: u8, hi: u8) -> u16 {
    (lo as u16 | ((hi as u16) << 8)) as u16
}

impl Vram {
    /// The 64KB contents.
    pub closed spec fn bytes(&self) -> Seq<u8> {
        self.data@
    }

    pub proof fn lemma_len(&self)
        ensures
            self.bytes().len() == VRAM_SIZE,
    {
    }

    pub fn new() -> (v: Self)
        ensures
            v.bytes().len() == VRAM_SIZE,
            forall|i: int| 0 <= i < VRAM_SIZE ==> v.bytes()[i] == 0,
    {
        Vram { data: Box::new([0u8; 0x10000]) }
    }

    /// Reads the byte at `addr`.
    pub fn read(&self, addr: u16) -> (r: u8)
        ensures
            r == self.bytes()[addr as int],
    {
        self.data[addr as usize]
    }

    /// Reads the little-endian word at `addr` rounded down to an even address.
    pub fn read_word(&self, addr: u16) -> (r: u16)
        ensures
            r == word_of(self.bytes()[(addr & 0xFFFE) as int], self.bytes()[(addr & 0xFFFE) + 1]),
    {
        let a = addr & 0xFFFE;
        assert(a <= 0xFFFE) by (bit_vector)
            requires a == addr & 0xFFFE;
        let low = self.data[a as usize] as u16;
        let high = self.data[(a + 1) as usize] as u16;
        low | (high << 8)
    }

    /// Writes one byte.
    pub fn write(&mut self, addr: u16, value: u8)
        ensures
            final(self).bytes() == old(self).bytes().update(addr as int, value),
    {
        self.data[addr as usize] = value;
    }

    /// Writes a little-endian word at `addr` rounded down to an even address.
    pub fn write_word(&mut self, addr: u16, value: u16)
        ensures
            final(self).bytes() == old(self).bytes().update((addr & 0xFFFE) as int, (value & 0xFF) as u8).update(
                (addr & 0xFFFE) + 1,
                ((value >> 8) & 0xFF) as u8,
            ),
    {
        let a = addr & 0xFFFE;
        assert(a <= 0xFFFE) by (bit_vector)
            requires a == addr & 0xFFFE;
        self.data[a as usize] = (value & 0xFF) as u8;
        self.data[(a + 1) as usize] = ((value >> 8) & 0xFF) as u8;
    }

    /// Mutable access to the whole of VRAM, for bulk transfers.
    pub fn as_mut_slice(&mut self) -> (r: &mut [u8])
        ensures
            r@ == old(self).bytes(),
            final(r)@ == final(self).bytes(),
    {
        let arr: &mut [u8; 0x10000] = &mut *self.data;
        vstd::array::ref_mut_array_unsizing_coercion(arr)
    }

    /// The whole of VRAM, for bulk reads.
    pub fn as_slice(&self) -> (r: &[u8])
        ensures
            r@ == self.bytes(),
    {
        self.data.as_slice()
    }

    /// Clears VRAM to all zeros.
    pub fn clear(&mut self)
        ensures
            final(self).bytes().len() == VRAM_SIZE,
            forall|i: int| 0 <= i < VRAM_SIZE ==> final(self).bytes()[i] == 0,
    {
        *self.data = [0u8; 0x10000];
    }
}

/// A word read at an even address gives back the last word written there,
/// and leaves bytes outside that word as they were.
pub proof fn lemma_vram_word_roundtrip(before: Seq<u8>, addr: u16, value: u16, raddr: u16, other: int)
    requires
        before.len() == VRAM_SIZE,
        (raddr & 0xFFFE) == (addr & 0xFFFE),
        0 <= other < VRAM_SIZE,
        other != (addr & 0xFFFE) as int,
        other != (addr & 0xFFFE) + 1,
    ensures
        ({
            let after = before.update((addr & 0xFFFE) as int, (value & 0xFF) as u8).update(
                (addr & 0xFFFE) + 1,
                ((value >> 8) & 0xFF) as u8,
            );
            &&& word_of(after[(raddr & 0xFFFE) as int], after[(raddr & 0xFFFE) + 1]) == value
            &&& after[other] == before[other]
        }),
{
    assert(word_of((value & 0xFF) as u8, ((value >> 8) & 0xFF) as u8) == value) by (bit_vector);
    assert((addr & 0xFFFE) <= 0xFFFE) by (bit_vector);
}

impl Default for Vram {
    fn default() -> (v: Self)
        ensures
            v.bytes().len() == VRAM_SIZE,
            forall|i: int| 0 <= i < VRAM_SIZE ==> v.bytes()[i] == 0,
    {
        Self::new()
    }
}

} // verus!
