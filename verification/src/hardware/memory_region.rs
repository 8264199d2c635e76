//! What a part of the address space has in common with every other.

use vstd::prelude::*;

verus! {

/// A part of the address space that serves reads and writes of single bytes.
pub trait MemoryRegion {
    type Error;

    /// The invariant of the region.
    spec fn wf(&self) -> bool;

    /// What a read at `address` gives.
    spec fn read_result(&self, address: u16) -> Result<u8, Self::Error>;

    /// Whether a write of `data` at `address` may leave the region as `after`
    /// and give `result`.
    spec fn write_result(
        &self,
        after: &Self,
        address: u16,
        data: u8,
        result: Result<(), Self::Error>,
    ) -> bool;

    fn map_read(&self, address: u16) -> (r: Result<u8, Self::Error>)
        requires
            self.wf(),
        ensures
            r == self.read_result(address),
    ;

    fn map_write(&mut self, address: u16, data: u8) -> (r: Result<(), Self::Error>)
        requires
            old(self).wf(),
        ensures
            final(self).wf(),
            old(self).write_result(final(self), address, data, r),
    ;
}

} // verus!
