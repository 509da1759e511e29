use vstd::prelude::*;
use crate::bus::{BusResult, MemoryBus};
use crate::error::EmulationError;

verus! {

/// Size of work RAM in bytes (128KB, mapped at $7E0000-$7FFFFF).
pub const WRAM_SIZE: usize = 0x20000;

/// Work RAM: 128KB mapped at $7E0000-$7FFFFF, with bank 0's low 8KB
/// ($0000-$1FFF, the Direct Page range) mirroring its first 8KB.
#[derive(Clone)]
pub struct Wram {
    data: Box<[u8; 0x20000]>,
}

/// The offset into work RAM that a bus address maps to, if any.
pub open spec fn wram_offset(addr: u32) -> Option<int> {
    if 0x7E0000 <= addr < 0x800000 {
        Some(addr - 0x7E0000)
    } else if addr < 0x2000 {
        Some(addr as int)
    } else {
        None
    }
}

impl Wram {
    /// The 128KB contents.
    pub closed spec fn bytes(&self) -> Seq<u8> {
        self.data@
    }

    pub proof fn lemma_len(&self)
        ensures
            self.bytes().len() == WRAM_SIZE,
    {
    }

    pub fn new() -> (w: Self)
        ensures
            w.bytes().len() == WRAM_SIZE,
            forall|i: int| 0 <= i < WRAM_SIZE ==> w.bytes()[i] == 0,
    {
        Wram { data: Box::new([0u8; 0x20000]) }
    }

    /// The full 128KB backing store, for save states.
    pub fn as_slice(&self) -> (r: &[u8])
        ensures
            r@ == self.bytes(),
    {
        self.data.as_slice()
    }

    /// Mutable access to the full 128KB backing store, for save states.
    pub fn as_mut_slice(&mut self) -> (r: &mut [u8])
        ensures
            r@ == old(self).bytes(),
            final(r)@ == final(self).bytes(),
    {
        let arr: &mut [u8; 0x20000] = &mut *self.data;
        vstd::array::ref_mut_array_unsizing_coercion(arr)
    }
}

impl Default for Wram {
    fn default() -> (w: Self)
        ensures
            w.bytes().len() == WRAM_SIZE,
            forall|i: int| 0 <= i < WRAM_SIZE ==> w.bytes()[i] == 0,
    {
        Self::new()
    }
}

impl MemoryBus for Wram {
    closed spec fn read_spec(&self, addr: u32) -> (Self, BusResult<u8>) {
        match wram_offset(addr) {
            Some(o) => (*self, Ok(self.data@[o])),
            None => (*self, Err(EmulationError::InvalidAddress(addr))),
        }
    }

    closed spec fn write_spec(&self, addr: u32, value: u8) -> (Self, BusResult<()>) {
        match wram_offset(addr) {
            Some(o) => (Wram { data: Box::new(vstd::array::spec_array_update(*self.data, o, value)) }, Ok(())),
            None => (*self, Err(EmulationError::InvalidAddress(addr))),
        }
    }

    fn read_u8(&mut self, addr: u32) -> (r: BusResult<u8>) {
        if 0x7E0000 <= addr && addr < 0x800000 {
            Ok(self.data[(addr - 0x7E0000) as usize])
        } else if addr < 0x2000 {
            Ok(self.data[addr as usize])
        } else {
            Err(EmulationError::InvalidAddress(addr))
        }
    }

    fn write_u8(&mut self, addr: u32, value: u8) -> (r: BusResult<()>) {
        if 0x7E0000 <= addr && addr < 0x800000 {
            self.data[(addr - 0x7E0000) as usize] = value;
            assert(*self.data =~= vstd::array::spec_array_update(*old(self).data, (addr - 0x7E0000) as int, value));
            Ok(())
        } else if addr < 0x2000 {
            self.data[addr as usize] = value;
            assert(*self.data =~= vstd::array::spec_array_update(*old(self).data, addr as int, value));
            Ok(())
        } else {
            Err(EmulationError::InvalidAddress(addr))
        }
    }
}

/// Bank 0's $0000-$1FFF and bank $7E's first 8KB are the same cells.
pub proof fn lemma_wram_mirror(addr: u32)
    requires
        addr < 0x2000,
    ensures
        wram_offset(addr) == wram_offset((addr + 0x7E0000) as u32),
{
}

/// Reads leave work RAM unchanged; a write succeeds exactly on mapped
/// addresses, after which a read of the same cell (through either of its
/// addresses) gives back the written byte and every other read is as
/// before.
pub proof fn lemma_wram_read_after_write(w: Wram, addr: u32, value: u8, raddr: u32)
    ensures
        w.read_spec(raddr).0 == w,
        w.read_spec(raddr).1 is Ok <==> wram_offset(raddr) is Some,
        w.write_spec(addr, value).1 is Ok <==> wram_offset(addr) is Some,
        wram_offset(addr) is Some ==> w.write_spec(addr, value).0.read_spec(raddr).1 == (if wram_offset(raddr)
            == wram_offset(addr) {
            Ok::<u8, EmulationError>(value)
        } else {
            w.read_spec(raddr).1
        }),
{
}

} // verus!
