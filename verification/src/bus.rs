use vstd::prelude::*;
use crate::error::EmulationError;

verus! {

/// Result of a bus access.
pub type BusResult<T> = Result<T, EmulationError>;

/// A byte-addressed 24-bit memory bus seen by the CPU.
///
/// Each implementor describes its accesses as a deterministic state machine:
/// `read_spec` gives the state after a read and the value (or error) the read
/// yields, `write_spec` the state after a write and its outcome.
pub trait MemoryBus: Sized {
    spec fn read_spec(&self, addr: u32) -> (Self, BusResult<u8>);

    spec fn write_spec(&self, addr: u32, value: u8) -> (Self, BusResult<()>);

    fn read_u8(&mut self, addr: u32) -> (r: BusResult<u8>)
        ensures
            (*final(self), r) == old(self).read_spec(addr),
    ;

    fn write_u8(&mut self, addr: u32, value: u8) -> (r: BusResult<()>)
        ensures
            (*final(self), r) == old(self).write_spec(addr, value),
    ;
}

} // verus!
