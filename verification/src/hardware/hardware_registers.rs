//! The memory-mapped hardware registers and the five interrupt sources.

use crate::hardware::memory_region::MemoryRegion;
use vstd::prelude::*;

verus! {

/// The first address of the hardware register block.
pub const HW_BASE: u16 = 0xFF00;

/// The number of hardware registers: one for each address of
/// `0xFF00..=0xFF7F`.
pub const HW_SIZE: usize = 0x80;

/// The divider register.
pub const DIV_ADDR: u16 = 0xFF04;

/// The LCD line counter.
pub const LY_ADDR: u16 = 0xFF44;

/// What every read of the LCD line counter gives.
pub const LY_VALUE: u8 = 0x90;

/// The memory-mapped hardware registers, and a mark that a write has reset the
/// divider since the clock last looked.
pub struct HardwareRegister {
    registers: [u8; 0x80],
    divider_reset: bool,
}

/// What the hardware register block holds.
pub struct HardwareView {
    pub registers: Seq<u8>,
    pub divider_reset: bool,
}

/// An address outside the hardware register block.
#[derive(Debug, Clone, Copy, PartialEq, Eq, Structural)]
pub enum HardwareRegisterError {
    Unmapped(u16),
}

/// The five interrupt sources, from the highest priority down.
#[derive(Debug, Clone, Copy, PartialEq, Eq, Structural)]
pub enum Interrupt {
    VBlank,
    LCDStat,
    Timer,
    Serial,
    Joypad,
}

/// The interrupt of the highest priority whose bit is set in `bits`: bit 0 is
/// VBlank and comes first, bit 4 is Joypad and comes last.
pub open spec fn highest_priority(bits: u8) -> Option<Interrupt> {
    if bits % 2 == 1 {
        Some(Interrupt::VBlank)
    } else if (bits / 2) % 2 == 1 {
        Some(Interrupt::LCDStat)
    } else if (bits / 4) % 2 == 1 {
        Some(Interrupt::Timer)
    } else if (bits / 8) % 2 == 1 {
        Some(Interrupt::Serial)
    } else if (bits / 16) % 2 == 1 {
        Some(Interrupt::Joypad)
    } else {
        None
    }
}

/// How the five interrupt bits of a byte are tested by mask.
pub proof fn lemma_interrupt_bits(b: u8)
    by (bit_vector)
    ensures
        ((b & 0b1) >= 1) == (b % 2 == 1),
        ((b & 0b10) >= 1) == ((b / 2) % 2 == 1),
        ((b & 0b100) >= 1) == ((b / 4) % 2 == 1),
        ((b & 0b1000) >= 1) == ((b / 8) % 2 == 1),
        ((b & 0b10000) >= 1) == ((b / 16) % 2 == 1),
        (b & 0x1F != 0) == (b % 32 != 0),
{
}

impl TryFrom<u8> for Interrupt {
    type Error = ();

    /// The interrupt of the highest priority among the bits of `value`.
    fn try_from(value: u8) -> (r: Result<Self, ()>) {
        proof {
            lemma_interrupt_bits(value);
        }
        if (value & 0b1) >= 1 {
            Ok(Interrupt::VBlank)
        } else if (value & 0b10) >= 1 {
            Ok(Interrupt::LCDStat)
        } else if (value & 0b100) >= 1 {
            Ok(Interrupt::Timer)
        } else if (value & 0b1000) >= 1 {
            Ok(Interrupt::Serial)
        } else if (value & 0b10000) >= 1 {
            Ok(Interrupt::Joypad)
        } else {
            Err(())
        }
    }
}

impl vstd::std_specs::convert::TryFromSpecImpl<u8> for Interrupt {
    open spec fn obeys_try_from_spec() -> bool {
        true
    }

    open spec fn try_from_spec(value: u8) -> Result<Self, ()> {
        match highest_priority(value) {
            Some(interrupt) => Ok(interrupt),
            None => Err(()),
        }
    }
}

impl Interrupt {
    /// The address of the interrupt's service routine.
    pub open spec fn spec_isr_location(&self) -> u16 {
        match *self {
            Interrupt::VBlank => 0x40,
            Interrupt::LCDStat => 0x48,
            Interrupt::Timer => 0x50,
            Interrupt::Serial => 0x58,
            Interrupt::Joypad => 0x60,
        }
    }

    /// The interrupt's bit in the enable and flag registers.
    pub open spec fn spec_position(&self) -> u8 {
        match *self {
            Interrupt::VBlank => 0b1,
            Interrupt::LCDStat => 0b10,
            Interrupt::Timer => 0b100,
            Interrupt::Serial => 0b1000,
            Interrupt::Joypad => 0b10000,
        }
    }

    /// The address of the interrupt's service routine.
    pub fn get_isr_location(&self) -> (r: u16)
        ensures
            r == self.spec_isr_location(),
    {
        match *self {
            Interrupt::VBlank => 0x40,
            Interrupt::LCDStat => 0x48,
            Interrupt::Timer => 0x50,
            Interrupt::Serial => 0x58,
            Interrupt::Joypad => 0x60,
        }
    }

    /// The interrupt's bit in the enable and flag registers.
    pub fn get_position(&self) -> (r: u8)
        ensures
            r == self.spec_position(),
    {
        match *self {
            Interrupt::VBlank => 0b1,
            Interrupt::LCDStat => 0b10,
            Interrupt::Timer => 0b100,
            Interrupt::Serial => 0b1000,
            Interrupt::Joypad => 0b10000,
        }
    }
}

impl HardwareView {
    /// The block has a byte for each of its addresses.
    pub open spec fn wf(self) -> bool {
        self.registers.len() == HW_SIZE
    }

    /// The addresses of the block.
    pub open spec fn maps(address: u16) -> bool {
        HW_BASE <= address < HW_BASE + HW_SIZE
    }

    /// The byte behind an address of the block: a fixed value for the line
    /// counter, the stored byte for every other register.
    pub open spec fn peek(self, address: u16) -> u8
        recommends
            Self::maps(address),
    {
        if address == LY_ADDR {
            LY_VALUE
        } else {
            self.registers[address - HW_BASE]
        }
    }

    /// The block after a store at one of its addresses: a write to the divider
    /// zeroes it, whatever the value, and leaves the mark for the clock; every
    /// other register takes the byte.
    pub open spec fn poke(self, address: u16, value: u8) -> HardwareView
        recommends
            Self::maps(address),
    {
        if address == DIV_ADDR {
            HardwareView {
                registers: self.registers.update(address - HW_BASE, 0),
                divider_reset: true,
            }
        } else {
            HardwareView { registers: self.registers.update(address - HW_BASE, value), ..self }
        }
    }

    /// A read: the byte behind an address of the block, an error for any other
    /// address.
    pub open spec fn read(self, address: u16) -> Result<u8, HardwareRegisterError> {
        if Self::maps(address) {
            Ok(self.peek(address))
        } else {
            Err(HardwareRegisterError::Unmapped(address))
        }
    }

    /// A write: the store at an address of the block, an error and no change
    /// for any other address.
    pub open spec fn write(self, address: u16, value: u8) -> (
        HardwareView,
        Result<(), HardwareRegisterError>,
    ) {
        if Self::maps(address) {
            (self.poke(address, value), Ok(()))
        } else {
            (self, Err(HardwareRegisterError::Unmapped(address)))
        }
    }
}

impl View for HardwareRegister {
    type V = HardwareView;

    closed spec fn view(&self) -> HardwareView {
        HardwareView { registers: self.registers@, divider_reset: self.divider_reset }
    }
}

impl Default for HardwareRegister {
    fn default() -> (r: Self)
        ensures
            r@.registers == Seq::new(HW_SIZE as nat, |i: int| 0u8),
            !r@.divider_reset,
            r@.wf(),
    {
        HardwareRegister { registers: [0;0x80], divider_reset: false }
    }
}

impl HardwareRegister {
    /// Stores a new divider value as the clock counts it up: no reset, no
    /// mark.
    pub fn set_divider(&mut self, value: u8)
        requires
            old(self)@.wf(),
        ensures
            final(self)@ == (HardwareView {
                registers: old(self)@.registers.update(DIV_ADDR - HW_BASE, value),
                ..old(self)@
            }),
            final(self)@.wf(),
    {
        self.registers[(DIV_ADDR - HW_BASE) as usize] = value;
    }

    /// Says whether a write has reset the divider since the last call, and
    /// takes the mark away.
    pub fn take_divider_reset(&mut self) -> (r: bool)
        ensures
            r == old(self)@.divider_reset,
            final(self)@ == (HardwareView { divider_reset: false, ..old(self)@ }),
    {
        let reset = self.divider_reset;
        self.divider_reset = false;
        reset
    }
}

impl MemoryRegion for HardwareRegister {
    type Error = HardwareRegisterError;

    open spec fn wf(&self) -> bool {
        self@.wf()
    }

    open spec fn read_result(&self, address: u16) -> Result<u8, HardwareRegisterError> {
        self@.read(address)
    }

    open spec fn write_result(
        &self,
        after: &Self,
        address: u16,
        data: u8,
        result: Result<(), HardwareRegisterError>,
    ) -> bool {
        (after@, result) == self@.write(address, data)
    }

    fn map_read(&self, address: u16) -> (r: Result<u8, HardwareRegisterError>) {
        if address < HW_BASE || address - HW_BASE >= HW_SIZE as u16 {
            return Err(HardwareRegisterError::Unmapped(address));
        }
        if address == LY_ADDR {
            return Ok(LY_VALUE);
        }
        Ok(self.registers[(address - HW_BASE) as usize])
    }

    fn map_write(&mut self, address: u16, value: u8) -> (r: Result<(), HardwareRegisterError>) {
        if address < HW_BASE || address - HW_BASE >= HW_SIZE as u16 {
            return Err(HardwareRegisterError::Unmapped(address));
        }
        let offset = (address - HW_BASE) as usize;
        match address {
            0xFF04 => {
                self.registers[offset] = 0;
                self.divider_reset = true;
                Ok(())
            },
            _ => {
                self.registers[offset] = value;
                Ok(())
            },
        }
    }
}

} // verus!
