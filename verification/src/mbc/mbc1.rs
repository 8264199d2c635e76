//! The MBC1 bank controller: writes into the ROM area set its registers,
//! which pick the ROM bank and the RAM bank that reads and writes reach.

use crate::hardware::memory_region::MemoryRegion;
use crate::mbc::{Mbc, MbcError};
use vstd::prelude::*;
use vstd::slice::slice_to_vec;

verus! {

/// The size of one switchable ROM bank.
pub const ROM_BANK_SIZE: usize = 0x4000;

/// The size of one external RAM bank.
pub const RAM_BANK_SIZE: usize = 0x2000;

/// The size of the external RAM: four banks.
pub const MBC1_RAM_SIZE: usize = 0x8000;

/// What a read of external RAM gives while the RAM is disabled.
pub const OPEN_BUS: u8 = 0xFF;

/// An MBC1 cartridge: its ROM, four banks of external RAM, and the four
/// registers that writes into the ROM area set.
pub struct Mbc1 {
    rom: Vec<u8>,
    ram: Vec<u8>,
    ram_enable: bool,
    rom_bank: u8,
    ram_bank: u8,
    bank_mode: bool,
}

/// What an MBC1 cartridge holds.
pub struct Mbc1View {
    pub rom: Seq<u8>,
    pub ram: Seq<u8>,
    pub ram_enable: bool,
    /// The ROM bank mapped at `0x4000..=0x7FFF`: seven bits.
    pub rom_bank: u8,
    /// The RAM bank that the RAM-banking mode maps at `0xA000..=0xBFFF`.
    pub ram_bank: u8,
    /// `true` in RAM-banking mode, `false` in ROM-banking mode.
    pub bank_mode: bool,
}

/// The low five bits of a ROM bank number as a write at `0x2000..=0x3FFF` gives
/// them: the low five bits of the data, with 1 in place of 0.
pub open spec fn low_bank_bits(data: u8) -> u8 {
    if data & 0x1F == 0 {
        1
    } else {
        data & 0x1F
    }
}

impl Mbc1View {
    /// The RAM has its four banks, the bank numbers are in range, and the low
    /// five bits of the ROM bank are never zero.
    pub open spec fn wf(self) -> bool {
        &&& self.ram.len() == MBC1_RAM_SIZE
        &&& self.rom_bank < 0x80
        &&& self.rom_bank & 0x1F != 0
        &&& self.ram_bank < 4
    }

    /// Where in the ROM image an address of the switchable area lies.
    pub open spec fn rom_index(self, address: u16) -> int {
        self.rom_bank as int * ROM_BANK_SIZE as int + (address - 0x4000)
    }

    /// The RAM bank in use: bank 0 in ROM-banking mode.
    pub open spec fn active_ram_bank(self) -> u8 {
        if self.bank_mode {
            self.ram_bank
        } else {
            0
        }
    }

    /// Where in the external RAM an address of the RAM area lies.
    pub open spec fn ram_index(self, address: u16) -> int {
        self.active_ram_bank() as int * RAM_BANK_SIZE as int + (address - 0xA000)
    }

    /// `0x0000..=0x3FFF` reads bank 0 and `0x4000..=0x7FFF` the current ROM
    /// bank, both failing past the end of the image; `0xA000..=0xBFFF` reads
    /// the banked RAM while it is enabled and the open bus value while it is
    /// not; any other address fails.
    pub open spec fn read(self, address: u16) -> Result<u8, MbcError> {
        if address <= 0x3FFF {
            if address < self.rom.len() {
                Ok(self.rom[address as int])
            } else {
                Err(MbcError::Read(address))
            }
        } else if address <= 0x7FFF {
            if self.rom_index(address) < self.rom.len() {
                Ok(self.rom[self.rom_index(address)])
            } else {
                Err(MbcError::Read(address))
            }
        } else if 0xA000 <= address <= 0xBFFF {
            if self.ram_enable {
                Ok(self.ram[self.ram_index(address)])
            } else {
                Ok(OPEN_BUS)
            }
        } else {
            Err(MbcError::Read(address))
        }
    }

    /// Writes into the ROM area set the control registers; writes into the RAM
    /// area are stored while the RAM is enabled and dropped while it is not;
    /// any other address fails.
    pub open spec fn write(self, address: u16, data: u8) -> (Mbc1View, Result<(), MbcError>) {
        if address <= 0x1FFF {
            (Mbc1View { ram_enable: data & 0x0F == 0x0A, ..self }, Ok(()))
        } else if address <= 0x3FFF {
            (Mbc1View { rom_bank: (self.rom_bank & 0x60) | low_bank_bits(data), ..self }, Ok(()))
        } else if address <= 0x5FFF {
            if self.bank_mode {
                (Mbc1View { ram_bank: data & 0x3, ..self }, Ok(()))
            } else {
                (
                    Mbc1View { rom_bank: (self.rom_bank & 0x1F) | ((data & 0x3) << 5), ..self },
                    Ok(()),
                )
            }
        } else if address <= 0x7FFF {
            (Mbc1View { bank_mode: data & 1 == 1, ..self }, Ok(()))
        } else if 0xA000 <= address <= 0xBFFF {
            if self.ram_enable {
                (Mbc1View { ram: self.ram.update(self.ram_index(address), data), ..self }, Ok(()))
            } else {
                (self, Ok(()))
            }
        } else {
            (self, Err(MbcError::Write(address, data)))
        }
    }
}

/// The bank registers stay in range under every control write, and the low five
/// bits of the ROM bank stay away from zero.
pub proof fn lemma_bank_bits(rom_bank: u8, data: u8)
    by (bit_vector)
    ensures
        data & 0x3 < 4,
        ((rom_bank & 0x60) | (if data & 0x1F == 0 { 1u8 } else { data & 0x1F })) < 0x80,
        ((rom_bank & 0x60) | (if data & 0x1F == 0 { 1u8 } else { data & 0x1F })) & 0x1F != 0,
        ((rom_bank & 0x60) | (if data & 0x1F == 0 { 1u8 } else { data & 0x1F })) & 0x1F == (if data
            & 0x1F == 0 { 1u8 } else { data & 0x1F }),
        ((rom_bank & 0x60) | (if data & 0x1F == 0 { 1u8 } else { data & 0x1F })) & 0x60 == rom_bank
            & 0x60,
        rom_bank < 0x80 ==> ((rom_bank & 0x1F) | ((data & 0x3) << 5)) < 0x80,
        ((rom_bank & 0x1F) | ((data & 0x3) << 5)) & 0x1F == rom_bank & 0x1F,
        rom_bank & 0x60 == 0 ==> (rom_bank & 0x60) | 1 == 1,
        0u8 & 0x1F == 0,
        1u8 & 0x1F != 0,
{
}

/// A control write leaves a well-formed cartridge well-formed.
pub proof fn lemma_write_keeps_wf(v: Mbc1View, address: u16, data: u8)
    requires
        v.wf(),
    ensures
        v.write(address, data).0.wf(),
{
    lemma_bank_bits(v.rom_bank, data);
}

/// Writing `0x00` to the ROM bank register selects a bank whose low five bits
/// are 1, never 0. Reads of `0x4000..=0x7FFF` then come from that bank; where
/// the upper two bank bits are clear this is bank 1, so that the byte read at
/// an address is the byte of the image at that same offset.
pub proof fn lemma_bank_zero_reads_bank_one(v: Mbc1View, address: u16)
    requires
        v.wf(),
        0x4000 <= address <= 0x7FFF,
    ensures
        ({
            let after = v.write(0x2000, 0x00).0;
            &&& after.rom_bank & 0x1F == 1
            &&& after.rom_bank != 0
            &&& after.rom_index(address) >= ROM_BANK_SIZE
            &&& v.rom_bank & 0x60 == 0 ==> after.rom_bank == 1 && after.read(address) == (if address
                < v.rom.len() {
                Ok::<u8, MbcError>(v.rom[address as int])
            } else {
                Err::<u8, MbcError>(MbcError::Read(address))
            })
        }),
{
    lemma_bank_bits(v.rom_bank, 0);
}

impl View for Mbc1 {
    type V = Mbc1View;

    closed spec fn view(&self) -> Mbc1View {
        Mbc1View {
            rom: self.rom@,
            ram: self.ram@,
            ram_enable: self.ram_enable,
            rom_bank: self.rom_bank,
            ram_bank: self.ram_bank,
            bank_mode: self.bank_mode,
        }
    }
}

impl Mbc1 {
    /// A cartridge with a copy of the ROM image, zeroed and disabled RAM, ROM
    /// bank 1 mapped into the switchable area, and ROM-banking mode.
    pub fn new(data: &[u8]) -> (r: Self)
        ensures
            r@.rom == data@,
            r@.ram == Seq::new(MBC1_RAM_SIZE as nat, |i: int| 0u8),
            !r@.ram_enable,
            r@.rom_bank == 1,
            r@.ram_bank == 0,
            !r@.bank_mode,
            r@.wf(),
    {
        proof {
            lemma_bank_bits(1, 0);
        }
        Self {
            rom: slice_to_vec(data),
            ram: vec![0; MBC1_RAM_SIZE],
            ram_enable: false,
            rom_bank: 1,
            ram_bank: 0,
            bank_mode: false,
        }
    }
}

impl Default for Mbc1 {
    fn default() -> (r: Self)
        ensures
            r@.rom.len() == 0,
            r@.wf(),
    {
        proof {
            lemma_bank_bits(1, 0);
        }
        Self {
            rom: Vec::new(),
            ram: vec![0; MBC1_RAM_SIZE],
            ram_enable: false,
            rom_bank: 1,
            ram_bank: 0,
            bank_mode: false,
        }
    }
}

impl MemoryRegion for Mbc1 {
    type Error = MbcError;

    open spec fn wf(&self) -> bool {
        self@.wf()
    }

    open spec fn read_result(&self, address: u16) -> Result<u8, MbcError> {
        self@.read(address)
    }

    open spec fn write_result(
        &self,
        after: &Self,
        address: u16,
        data: u8,
        result: Result<(), MbcError>,
    ) -> bool {
        (after@, result) == self@.write(address, data)
    }

    fn map_read(&self, address: u16) -> (r: Result<u8, MbcError>) {
        match address {
            0..=0x3FFF => {
                if (address as usize) < self.rom.len() {
                    Ok(self.rom[address as usize])
                } else {
                    Err(MbcError::Read(address))
                }
            },
            0x4000..=0x7FFF => {
                let index = (self.rom_bank as usize) * ROM_BANK_SIZE + (address as usize - 0x4000);
                if index < self.rom.len() {
                    Ok(self.rom[index])
                } else {
                    Err(MbcError::Read(address))
                }
            },
            0xA000..=0xBFFF => {
                if self.ram_enable {
                    let bank: usize = if self.bank_mode {
                        self.ram_bank as usize
                    } else {
                        0
                    };
                    Ok(self.ram[bank * RAM_BANK_SIZE + (address as usize - 0xA000)])
                } else {
                    Ok(OPEN_BUS)
                }
            },
            _ => Err(MbcError::Read(address)),
        }
    }

    fn map_write(&mut self, address: u16, data: u8) -> (r: Result<(), MbcError>) {
        proof {
            lemma_bank_bits(self.rom_bank, data);
        }
        match address {
            0..=0x1FFF => {
                self.ram_enable = (data & 0xF) == 0xA;
                Ok(())
            },
            0x2000..=0x3FFF => {
                let low: u8 = if data & 0x1f == 0 {
                    1
                } else {
                    data & 0x1f
                };
                self.rom_bank = (self.rom_bank & 0x60) | low;
                Ok(())
            },
            0x4000..=0x5FFF => {
                if self.bank_mode {
                    self.ram_bank = data & 0b11;
                } else {
                    self.rom_bank = (self.rom_bank & 0x1f) | ((data & 0x3) << 5);
                }
                Ok(())
            },
            0x6000..=0x7FFF => {
                self.bank_mode = (data & 1) == 1;
                Ok(())
            },
            0xA000..=0xBFFF => {
                if self.ram_enable {
                    let bank: usize = if self.bank_mode {
                        self.ram_bank as usize
                    } else {
                        0
                    };
                    self.ram[bank * RAM_BANK_SIZE + (address as usize - 0xA000)] = data;
                }
                Ok(())
            },
            _ => Err(MbcError::Write(address, data)),
        }
    }
}

impl Mbc for Mbc1 {

}

} // verus!
