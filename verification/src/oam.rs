//! Object Attribute Memory: 128 four-byte sprite entries (512 bytes) plus a
//! 32-byte high table holding each sprite's X bit 8 and size bit.
use vstd::prelude::*;

verus! {

/// Size of OAM in bytes (512 primary + 32 secondary).
pub const OAM_SIZE: usize = 544;

/// Object Attribute Memory (OAM).
///
/// Each primary entry is 4 bytes: X (low 8 bits), Y, tile number (low 8
/// bits), and the attribute byte `vhoopppN` (vertical flip, horizontal
/// flip, 2 priority bits, 3 palette bits, tile bit 8). The 32-byte
/// secondary table packs 2 bits per sprite, 4 sprites per byte: the low
/// bit is X bit 8, the high bit selects the large size.
pub struct Oam {
    data: [u8; 544],
}

/// Byte offset of field `field` (0 = X, 1 = Y, 2 = tile, 3 = attributes)
/// of sprite `sprite_idx` (taken modulo 128).
pub open spec fn entry_offset(sprite_idx: u8, field: int) -> int {
    (sprite_idx % 128) * 4 + field
}

impl Oam {
    /// The 544 bytes.
    pub closed spec fn bytes(&self) -> Seq<u8> {
        self.data@
    }

    pub proof fn lemma_len(&self)
        ensures
            self.bytes().len() == OAM_SIZE,
    {
    }

    pub fn new() -> (o: Self)
        ensures
            o.bytes().len() == OAM_SIZE,
            forall|i: int| 0 <= i < OAM_SIZE ==> o.bytes()[i] == 0,
    {
        Oam { data: [0u8; 544] }
    }

    /// Reads the byte at `addr`, which wraps at 544 bytes.
    pub fn read(&self, addr: u16) -> (r: u8)
        ensures
            r == self.bytes()[addr as int % 544],
    {
        self.data[(addr as usize) % 544]
    }

    /// Writes the byte at `addr`, which wraps at 544 bytes.
    pub fn write(&mut self, addr: u16, value: u8)
        ensures
            final(self).bytes() == old(self).bytes().update(addr as int % 544, value),
    {
        self.data[(addr as usize) % 544] = value;
    }

    fn field(&self, sprite_idx: u8, field: usize) -> (r: u8)
        requires
            field < 4,
        ensures
            r == self.bytes()[entry_offset(sprite_idx, field as int)],
    {
        let idx = (sprite_idx as usize) & 0x7F;
        assert(idx == sprite_idx % 128) by (bit_vector)
            requires idx == (sprite_idx as usize) & 0x7F;
        self.data[idx * 4 + field]
    }

    fn set_field(&mut self, sprite_idx: u8, field: usize, value: u8)
        requires
            field < 4,
        ensures
            final(self).bytes() == old(self).bytes().update(entry_offset(sprite_idx, field as int), value),
    {
        let idx = (sprite_idx as usize) & 0x7F;
        assert(idx == sprite_idx % 128) by (bit_vector)
            requires idx == (sprite_idx as usize) & 0x7F;
        self.data[idx * 4 + field] = value;
    }

    /// Y position of a sprite (byte 1 of its entry).
    pub fn get_y(&self, sprite_idx: u8) -> (r: u8)
        ensures
            r == self.bytes()[entry_offset(sprite_idx, 1)],
    {
        self.field(sprite_idx, 1)
    }

    pub fn set_y(&mut self, sprite_idx: u8, y: u8)
        ensures
            final(self).bytes() == old(self).bytes().update(entry_offset(sprite_idx, 1), y),
    {
        self.set_field(sprite_idx, 1, y)
    }

    /// X position (low 8 bits) of a sprite (byte 0 of its entry).
    pub fn get_x(&self, sprite_idx: u8) -> (r: u8)
        ensures
            r == self.bytes()[entry_offset(sprite_idx, 0)],
    {
        self.field(sprite_idx, 0)
    }

    pub fn set_x(&mut self, sprite_idx: u8, x: u8)
        ensures
            final(self).bytes() == old(self).bytes().update(entry_offset(sprite_idx, 0), x),
    {
        self.set_field(sprite_idx, 0, x)
    }

    /// Tile number (low 8 bits) of a sprite (byte 2 of its entry).
    pub fn get_tile(&self, sprite_idx: u8) -> (r: u8)
        ensures
            r == self.bytes()[entry_offset(sprite_idx, 2)],
    {
        self.field(sprite_idx, 2)
    }

    pub fn set_tile(&mut self, sprite_idx: u8, tile: u8)
        ensures
            final(self).bytes() == old(self).bytes().update(entry_offset(sprite_idx, 2), tile),
    {
        self.set_field(sprite_idx, 2, tile)
    }

    /// Attribute byte of a sprite (byte 3 of its entry).
    pub fn get_attributes(&self, sprite_idx: u8) -> (r: u8)
        ensures
            r == self.bytes()[entry_offset(sprite_idx, 3)],
    {
        self.field(sprite_idx, 3)
    }

    pub fn set_attributes(&mut self, sprite_idx: u8, attrs: u8)
        ensures
            final(self).bytes() == old(self).bytes().update(entry_offset(sprite_idx, 3), attrs),
    {
        self.set_field(sprite_idx, 3, attrs)
    }

    /// Palette number: attribute bits 3-1.
    pub fn get_palette(attrs: u8) -> (r: u8)
        ensures
            r == (attrs >> 1) & 0x07,
            r < 8,
    {
        let r = (attrs >> 1) & 0x07;
        assert(r < 8) by (bit_vector)
            requires r == (attrs >> 1) & 0x07;
        r
    }

    /// Priority: attribute bits 5-4.
    pub fn get_priority(attrs: u8) -> (r: u8)
        ensures
            r == (attrs >> 4) & 0x03,
            r < 4,
    {
        let r = (attrs >> 4) & 0x03;
        assert(r < 4) by (bit_vector)
            requires r == (attrs >> 4) & 0x03;
        r
    }

    /// Horizontal flip: attribute bit 6.
    pub fn get_flip_h(attrs: u8) -> (r: bool)
        ensures
            r == (attrs & 0x40 != 0),
    {
        (attrs & 0x40) != 0
    }

    /// Vertical flip: attribute bit 7.
    pub fn get_flip_v(attrs: u8) -> (r: bool)
        ensures
            r == (attrs & 0x80 != 0),
    {
        (attrs & 0x80) != 0
    }

    /// Size bit of sprite `sprite_idx` within its secondary-table byte:
    /// bit 2*(sprite_idx % 4) + 1.
    pub fn get_size(high_table_byte: u8, sprite_idx: u8) -> (r: u8)
        ensures
            r == (high_table_byte >> ((sprite_idx % 4) * 2 + 1) as u8) & 0x01,
            r <= 1,
    {
        let shift = (sprite_idx % 4) * 2;
        let r = (high_table_byte >> (shift + 1)) & 0x01;
        assert(r <= 1) by (bit_vector)
            requires r == (high_table_byte >> (shift + 1)) & 0x01;
        r
    }

    /// Mutable access to all 544 bytes, for bulk transfers.
    pub fn as_mut_slice(&mut self) -> (r: &mut [u8])
        ensures
            r@ == old(self).bytes(),
            final(r)@ == final(self).bytes(),
    {
        vstd::array::ref_mut_array_unsizing_coercion(&mut self.data)
    }

    /// All 544 bytes, for bulk reads.
    pub fn as_slice(&self) -> (r: &[u8])
        ensures
            r@ == self.bytes(),
    {
        self.data.as_slice()
    }

    /// The 512-byte primary table.
    pub fn primary(&self) -> (r: &[u8])
        ensures
            r@ == self.bytes().subrange(0, 512),
    {
        let (p, _) = self.data.as_slice().split_at(512);
        p
    }

    /// Mutable access to the 512-byte primary table.
    pub fn primary_mut(&mut self) -> (r: &mut [u8])
        ensures
            r@ == old(self).bytes().subrange(0, 512),
            final(self).bytes() == final(r)@ + old(self).bytes().subrange(512, 544),
    {
        let all = vstd::array::ref_mut_array_unsizing_coercion(&mut self.data);
        let (p, _) = all.split_at_mut(512);
        p
    }

    /// The 32-byte secondary table.
    pub fn secondary(&self) -> (r: &[u8])
        ensures
            r@ == self.bytes().subrange(512, 544),
    {
        let (_, s) = self.data.as_slice().split_at(512);
        s
    }

    /// Mutable access to the 32-byte secondary table.
    pub fn secondary_mut(&mut self) -> (r: &mut [u8])
        ensures
            r@ == old(self).bytes().subrange(512, 544),
            final(self).bytes() == old(self).bytes().subrange(0, 512) + final(r)@,
    {
        let all = vstd::array::ref_mut_array_unsizing_coercion(&mut self.data);
        let (_, s) = all.split_at_mut(512);
        s
    }

    /// Clears all of OAM to zeros.
    pub fn clear(&mut self)
        ensures
            final(self).bytes().len() == OAM_SIZE,
            forall|i: int| 0 <= i < OAM_SIZE ==> final(self).bytes()[i] == 0,
    {
        self.data = [0u8; 544];
    }

    /// Clears only the primary table.
    pub fn clear_primary(&mut self)
        ensures
            final(self).bytes().len() == OAM_SIZE,
            forall|i: int| 0 <= i < 512 ==> final(self).bytes()[i] == 0,
            forall|i: int| 512 <= i < OAM_SIZE ==> final(self).bytes()[i] == old(self).bytes()[i],
    {
        self.clear_range(0, 512);
    }

    /// Clears only the secondary table.
    pub fn clear_secondary(&mut self)
        ensures
            final(self).bytes().len() == OAM_SIZE,
            forall|i: int| 512 <= i < OAM_SIZE ==> final(self).bytes()[i] == 0,
            forall|i: int| 0 <= i < 512 ==> final(self).bytes()[i] == old(self).bytes()[i],
    {
        self.clear_range(512, 544);
    }

    fn clear_range(&mut self, start: usize, end: usize)
        requires
            start <= end <= OAM_SIZE,
        ensures
            final(self).bytes().len() == OAM_SIZE,
            forall|i: int| start <= i < end ==> final(self).bytes()[i] == 0,
            forall|i: int| 0 <= i < OAM_SIZE && !(start <= i < end) ==> final(self).bytes()[i] == old(self).bytes()[i],
    {
        let mut i = start;
        while i < end
            invariant
                start <= i <= end <= OAM_SIZE,
                self.bytes().len() == OAM_SIZE,
                forall|j: int| start <= j < i ==> self.bytes()[j] == 0,
                forall|j: int| 0 <= j < OAM_SIZE && !(start <= j < i) ==> self.bytes()[j] == old(self).bytes()[j],
            decreases end - i,
        {
            self.data[i] = 0;
            i = i + 1;
        }
    }

    /// Number of sprite entries.
    pub fn num_sprites(&self) -> (r: usize)
        ensures
            r == 128,
    {
        128
    }

    /// Size of OAM in bytes.
    pub fn size(&self) -> (r: usize)
        ensures
            r == OAM_SIZE,
    {
        544
    }
}

/// The four fields of the 128 sprite entries are distinct bytes: writing
/// one field of one sprite is read back by the same field and changes no
/// other sprite's fields.
pub proof fn lemma_oam_field_roundtrip(before: Seq<u8>, idx: u8, field: int, value: u8, other_idx: u8, other_field: int)
    requires
        before.len() == OAM_SIZE,
        0 <= field < 4,
        0 <= other_field < 4,
        idx % 128 != other_idx % 128 || field != other_field,
    ensures
        before.update(entry_offset(idx, field), value)[entry_offset(idx, field)] == value,
        before.update(entry_offset(idx, field), value)[entry_offset(other_idx, other_field)]
            == before[entry_offset(other_idx, other_field)],
{
    assert(entry_offset(idx, field) != entry_offset(other_idx, other_field));
}

impl Default for Oam {
    fn default() -> (o: Self)
        ensures
            o.bytes().len() == OAM_SIZE,
            forall|i: int| 0 <= i < OAM_SIZE ==> o.bytes()[i] == 0,
    {
        Self::new()
    }
}

} // verus!
