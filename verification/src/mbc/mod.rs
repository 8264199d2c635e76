//! The cartridge's memory bank controllers.

use crate::hardware::memory_region::MemoryRegion;
use vstd::prelude::*;


pub mod mbc1;
pub mod rom;

verus! {

/// A read or a write at an address that the cartridge cannot serve.
#[derive(Debug, Clone, Copy, PartialEq, Eq, Structural)]
pub enum MbcError {
    Read(u16),
    Write(u16, u8),
}

/// A cartridge's memory bank controller: a memory region that fails with an
/// `MbcError`.
pub trait Mbc: MemoryRegion<Error = MbcError> {

}

} // verus!
