//! The cartridge without a bank controller.

use crate::hardware::memory_region::MemoryRegion;
use crate::mbc::{Mbc, MbcError};
use vstd::prelude::*;
use vstd::slice::slice_to_vec;

verus! {

/// The size of the external RAM of a cartridge without a bank controller.
pub const ROM_ONLY_RAM_SIZE: usize = 0x2000;

/// A cartridge without a bank controller: its ROM, and 8 KiB of external RAM.
pub struct Rom {
    rom: Vec<u8>,
    ram: Vec<u8>,
}

/// What a plain cartridge holds.
pub struct RomView {
    pub rom: Seq<u8>,
    pub ram: Seq<u8>,
}

impl RomView {
    /// The external RAM has its 8 KiB.
    pub open spec fn wf(self) -> bool {
        self.ram.len() == ROM_ONLY_RAM_SIZE
    }

    /// ROM addresses give the ROM's byte where the image reaches that far;
    /// external RAM addresses give the RAM's byte; any other address fails.
    pub open spec fn read(self, address: u16) -> Result<u8, MbcError> {
        if address <= 0x7FFF {
            if address < self.rom.len() {
                Ok(self.rom[address as int])
            } else {
                Err(MbcError::Read(address))
            }
        } else if 0xA000 <= address <= 0xBFFF {
            Ok(self.ram[address - 0xA000])
        } else {
            Err(MbcError::Read(address))
        }
    }

    /// Writes to ROM change nothing; writes to external RAM are stored; any
    /// other address fails.
    pub open spec fn write(self, address: u16, data: u8) -> (RomView, Result<(), MbcError>) {
        if address <= 0x7FFF {
            (self, Ok(()))
        } else if 0xA000 <= address <= 0xBFFF {
            (RomView { ram: self.ram.update(address - 0xA000, data), ..self }, Ok(()))
        } else {
            (self, Err(MbcError::Write(address, data)))
        }
    }
}

impl View for Rom {
    type V = RomView;

    closed spec fn view(&self) -> RomView {
        RomView { rom: self.rom@, ram: self.ram@ }
    }
}

impl Rom {
    /// A cartridge with a copy of the ROM image and zeroed RAM.
    pub fn new(data: &[u8]) -> (r: Self)
        ensures
            r@.rom == data@,
            r@.ram == Seq::new(ROM_ONLY_RAM_SIZE as nat, |i: int| 0u8),
            r@.wf(),
    {
        Self { rom: slice_to_vec(data), ram: vec![0; ROM_ONLY_RAM_SIZE] }
    }
}

impl Default for Rom {
    fn default() -> (r: Self)
        ensures
            r@.rom.len() == 0,
            r@.ram == Seq::new(ROM_ONLY_RAM_SIZE as nat, |i: int| 0u8),
            r@.wf(),
    {
        Self { rom: Vec::new(), ram: vec![0; ROM_ONLY_RAM_SIZE] }
    }
}

impl MemoryRegion for Rom {
    type Error = MbcError;

    open spec fn wf(&self) -> bool {
        self@.wf()
    }

    open spec fn read_result(&self, address: u16) -> Result<u8, MbcError> {
        self@.read(address)
    }

    open spec fn write_result(
        &self,
        after: &Self,
        address: u16,
        data: u8,
        result: Result<(), MbcError>,
    ) -> bool {
        (after@, result) == self@.write(address, data)
    }

    fn map_read(&self, address: u16) -> (r: Result<u8, MbcError>) {
        match address {
            0x0000..=0x7FFF => {
                if (address as usize) < self.rom.len() {
                    Ok(self.rom[address as usize])
                } else {
                    Err(MbcError::Read(address))
                }
            },
            0xA000..=0xBFFF => Ok(self.ram[(address - 0xA000) as usize]),
            _ => Err(MbcError::Read(address)),
        }
    }

    fn map_write(&mut self, address: u16, value: u8) -> (r: Result<(), MbcError>) {
        match address {
            0x0000..=0x7FFF => Ok(()),
            0xA000..=0xBFFF => {
                self.ram[(address - 0xA000) as usize] = value;
                Ok(())
            },
            _ => Err(MbcError::Write(address, value)),
        }
    }
}

impl Mbc for Rom {

}

} // verus!
