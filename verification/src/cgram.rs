//! Color Graphics RAM: 256 BGR555 palette entries (512 bytes).
use vstd::prelude::*;

verus! {

/// Size of CGRAM in bytes.
pub const CGRAM_SIZE: usize = 512;

/// Color Graphics RAM: 256 colors of 15-bit BGR555 (bits 0-4 red,
/// 5-9 green, 10-14 blue), stored little-endian, two bytes per color.
#[derive(Clone)]
pub struct Cgram {
    data: [u8; 512],
}

/// The red channel (bits 0-4) of a BGR555 color.
pub open spec fn red_of(color: u16) -> u8 {
    (color & 0x1F) as u8
}

/// The green channel (bits 5-9) of a BGR555 color.
pub open spec fn green_of(color: u16) -> u8 {
    ((color >> 5) & 0x1F) as u8
}

/// The blue channel (bits 10-14) of a BGR555 color.
pub open spec fn blue_of(color: u16) -> u8 {
    ((color >> 10) & 0x1F) as u8
}

/// The BGR555 color with the given 5-bit channels.
pub open spec fn color_of(r: u8, g: u8, b: u8) -> u16 {
    ((r & 0x1F) as u16 | (((g & 0x1F) as u16) << 5) | (((b & 0x1F) as u16) << 10)) as u16
}

impl Cgram {
    /// The 512 bytes.
    pub closed spec fn bytes(&self) -> Seq<u8> {
        self.data@
    }

    pub proof fn lemma_len(&self)
        ensures
            self.bytes().len() == CGRAM_SIZE,
    {
    }

    /// Two CGRAMs holding the same bytes are the same value.
    pub proof fn lemma_same_bytes(&self, other: &Cgram)
        requires
            self.bytes() == other.bytes(),
        ensures
            *self == *other,
    {
        assert(self.data =~= other.data);
    }

    /// Whether two CGRAMs hold the same bytes.
    pub fn same_contents(&self, other: &Cgram) -> (r: bool)
        ensures
            r == (self.bytes() == other.bytes()),
    {
        let mut i: usize = 0;
        while i < CGRAM_SIZE
            invariant
                i <= CGRAM_SIZE,
                forall|j: int| 0 <= j < i ==> self.data[j] == other.data[j],
            decreases CGRAM_SIZE - i,
        {
            if self.data[i] != other.data[i] {
                assert(self.bytes()[i as int] != other.bytes()[i as int]);
                return false;
            }
            i = i + 1;
        }
        assert(self.bytes() =~= other.bytes());
        true
    }

    /// The color at palette index `index`: bytes 2*index (low) and 2*index+1 (high).
    pub open spec fn color(&self, index: u8) -> u16 {
        (self.bytes()[2 * index as int] as u16 | ((self.bytes()[2 * index as int + 1] as u16) << 8)) as u16
    }

    pub fn new() -> (c: Self)
        ensures
            c.bytes().len() == CGRAM_SIZE,
            forall|i: int| 0 <= i < CGRAM_SIZE ==> c.bytes()[i] == 0,
    {
        Cgram { data: [0u8; 512] }
    }

    /// Reads the byte at `addr`, which wraps at 512.
    pub fn read(&self, addr: u16) -> (r: u8)
        ensures
            r == self.bytes()[addr as int % 512],
    {
        self.data[(addr % 512) as usize]
    }

    /// Writes the byte at `addr`, which wraps at 512.
    pub fn write(&mut self, addr: u16, value: u8)
        ensures
            final(self).bytes() == old(self).bytes().update(addr as int % 512, value),
    {
        self.data[(addr % 512) as usize] = value;
    }

    /// Reads the 16-bit color at palette index `index`.
    pub fn read_color(&self, index: u8) -> (r: u16)
        ensures
            r == self.color(index),
    {
        let i = (index as usize) * 2;
        (self.data[i] as u16) | ((self.data[i + 1] as u16) << 8)
    }

    /// Writes the 16-bit color at palette index `index`, low byte first.
    pub fn write_color(&mut self, index: u8, color: u16)
        ensures
            final(self).bytes() == old(self).bytes().update(2 * index as int, (color & 0xFF) as u8).update(
                2 * index as int + 1,
                (color >> 8) as u8,
            ),
            final(self).color(index) == color,
    {
        let i = (index as usize) * 2;
        let lo = (color & 0xFF) as u8;
        let hi = (color >> 8) as u8;
        self.data[i] = lo;
        self.data[i + 1] = hi;
        assert((lo as u16 | ((hi as u16) << 8)) as u16 == color) by (bit_vector)
            requires
                lo == (color & 0xFF) as u8,
                hi == (color >> 8) as u8;
    }

    /// The red channel of a BGR555 color.
    pub fn extract_red(color: u16) -> (r: u8)
        ensures
            r == red_of(color),
    {
        (color & 0x1F) as u8
    }

    /// The green channel of a BGR555 color.
    pub fn extract_green(color: u16) -> (r: u8)
        ensures
            r == green_of(color),
    {
        ((color >> 5) & 0x1F) as u8
    }

    /// The blue channel of a BGR555 color.
    pub fn extract_blue(color: u16) -> (r: u8)
        ensures
            r == blue_of(color),
    {
        ((color >> 10) & 0x1F) as u8
    }

    /// Assembles a BGR555 color from 5-bit channels (higher bits ignored).
    pub fn make_color(r: u8, g: u8, b: u8) -> (c: u16)
        ensures
            c == color_of(r, g, b),
    {
        ((r & 0x1F) as u16) | (((g & 0x1F) as u16) << 5) | (((b & 0x1F) as u16) << 10)
    }

    /// The 512 bytes, for bulk reads.
    pub fn as_slice(&self) -> (r: &[u8])
        ensures
            r@ == self.bytes(),
    {
        self.data.as_slice()
    }

    /// Mutable access to the 512 bytes, for bulk transfers.
    pub fn as_mut_slice(&mut self) -> (r: &mut [u8])
        ensures
            r@ == old(self).bytes(),
            final(r)@ == final(self).bytes(),
    {
        vstd::array::ref_mut_array_unsizing_coercion(&mut self.data)
    }

    /// Clears CGRAM to all zeros.
    pub fn clear(&mut self)
        ensures
            final(self).bytes().len() == CGRAM_SIZE,
            forall|i: int| 0 <= i < CGRAM_SIZE ==> final(self).bytes()[i] == 0,
    {
        self.data = [0u8; 512];
    }
}

} // verus!
