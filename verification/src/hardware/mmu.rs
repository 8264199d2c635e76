//! The memory unit: it routes every address to the region that owns it, and
//! holds the interrupt registers. Its model is `MmuView`; reads are functions
//! of the model, and a write gives the model after it.

use crate::hardware::cartridge_header::CartridgeType;
use crate::hardware::hardware_registers::{
    highest_priority, HardwareRegister, HardwareRegisterError, HardwareView, Interrupt, DIV_ADDR,
};
use crate::hardware::memory_region::MemoryRegion;
use crate::mbc::mbc1::{Mbc1, Mbc1View};
use crate::mbc::rom::{Rom, RomView};
use crate::mbc::MbcError;
use crate::util::byte_ops::{
    high_byte, lemma_word_fields, lemma_word_join, low_byte, word_of,
};
use vstd::prelude::*;

verus! {

/// The size of the work RAM.
pub const WORK_RAM_SIZE: usize = 0x2000;

/// The size of the high RAM.
pub const HIGH_RAM_SIZE: usize = 0x7F;

/// The interrupt flag register.
pub const IF_ADDR: u16 = 0xFF0F;

/// The interrupt enable register.
pub const IE_ADDR: u16 = 0xFFFF;

/// Why the memory unit could not be built or could not serve an access.
#[derive(Debug, Clone, Copy, PartialEq, Eq, Structural)]
pub enum Error {
    CreateError,
    ReadError,
    WriteError,
    MBCError(MbcError),
    HWError(HardwareRegisterError),
    UnusableWriteRegion,
    InvalidInterruptFlagState,
}

impl From<MbcError> for Error {
    fn from(e: MbcError) -> (r: Self) {
        Error::MBCError(e)
    }
}

impl vstd::std_specs::convert::FromSpecImpl<MbcError> for Error {
    open spec fn obeys_from_spec() -> bool {
        true
    }

    open spec fn from_spec(e: MbcError) -> Self {
        Error::MBCError(e)
    }
}

impl From<HardwareRegisterError> for Error {
    fn from(e: HardwareRegisterError) -> (r: Self) {
        Error::HWError(e)
    }
}

impl vstd::std_specs::convert::FromSpecImpl<HardwareRegisterError> for Error {
    open spec fn obeys_from_spec() -> bool {
        true
    }

    open spec fn from_spec(e: HardwareRegisterError) -> Self {
        Error::HWError(e)
    }
}

/// The families of bank controllers.
#[derive(Debug, Clone, Copy, PartialEq, Eq, Structural)]
pub enum MbcType {
    Rom,
    Mbc1,
    Mbc2,
    Mbc3,
    Mbc4,
    Mbc5,
    Mbc5Rumble,
    Mmm,
}

/// The controller family that a cartridge kind belongs to.
pub open spec fn mbc_type_of(cart_type: CartridgeType) -> MbcType {
    match cart_type {
        CartridgeType::ROM | CartridgeType::ROM_RAM | CartridgeType::ROM_RAM_BAT => MbcType::Rom,
        CartridgeType::MBC1 | CartridgeType::MBC1_RAM | CartridgeType::MBC1_RAM_BAT => MbcType::Mbc1,
        CartridgeType::MBC2 | CartridgeType::MBC2_BAT => MbcType::Mbc2,
        CartridgeType::MMM_01 | CartridgeType::MMM_01_RAM | CartridgeType::MMM_01_RAM_BAT => {
            MbcType::Mmm
        },
        CartridgeType::MBC3
        | CartridgeType::MBC3_TIMER_BAT
        | CartridgeType::MBC3_RAM_TIMER_BAT
        | CartridgeType::MBC3_RAM
        | CartridgeType::MBC3_RAM_BAT => MbcType::Mbc3,
        CartridgeType::MBC4 | CartridgeType::MBC4_RAM | CartridgeType::MBC4_RAM_BAT => MbcType::Mbc4,
        CartridgeType::MBC5 | CartridgeType::MBC5_RAM | CartridgeType::MBC5_RAM_BAT => MbcType::Mbc5,
    }
}

impl From<&CartridgeType> for MbcType {
    fn from(cart_type: &CartridgeType) -> (r: Self) {
        match cart_type {
            CartridgeType::ROM | CartridgeType::ROM_RAM | CartridgeType::ROM_RAM_BAT => {
                MbcType::Rom
            },
            CartridgeType::MBC1 | CartridgeType::MBC1_RAM | CartridgeType::MBC1_RAM_BAT => {
                MbcType::Mbc1
            },
            CartridgeType::MBC2 | CartridgeType::MBC2_BAT => MbcType::Mbc2,
            CartridgeType::MMM_01 | CartridgeType::MMM_01_RAM | CartridgeType::MMM_01_RAM_BAT => {
                MbcType::Mmm
            },
            CartridgeType::MBC3
            | CartridgeType::MBC3_TIMER_BAT
            | CartridgeType::MBC3_RAM_TIMER_BAT
            | CartridgeType::MBC3_RAM
            | CartridgeType::MBC3_RAM_BAT => MbcType::Mbc3,
            CartridgeType::MBC4 | CartridgeType::MBC4_RAM | CartridgeType::MBC4_RAM_BAT => {
                MbcType::Mbc4
            },
            CartridgeType::MBC5 | CartridgeType::MBC5_RAM | CartridgeType::MBC5_RAM_BAT => {
                MbcType::Mbc5
            },
        }
    }
}

impl vstd::std_specs::convert::FromSpecImpl<&CartridgeType> for MbcType {
    open spec fn obeys_from_spec() -> bool {
        true
    }

    open spec fn from_spec(cart_type: &CartridgeType) -> Self {
        mbc_type_of(*cart_type)
    }
}

/// The bank controllers that the memory unit can drive.
pub enum Controller {
    Rom(Rom),
    Mbc1(Mbc1),
}

/// What a cartridge holds, by controller.
pub enum ControllerView {
    Rom(RomView),
    Mbc1(Mbc1View),
}

impl ControllerView {
    /// The invariant of the cartridge behind the controller.
    pub open spec fn wf(self) -> bool {
        match self {
            ControllerView::Rom(v) => v.wf(),
            ControllerView::Mbc1(v) => v.wf(),
        }
    }

    /// What a read of the cartridge gives.
    pub open spec fn read(self, address: u16) -> Result<u8, MbcError> {
        match self {
            ControllerView::Rom(v) => v.read(address),
            ControllerView::Mbc1(v) => v.read(address),
        }
    }

    /// The cartridge after a write, and what the write returns.
    pub open spec fn write(self, address: u16, data: u8) -> (ControllerView, Result<(), MbcError>) {
        match self {
            ControllerView::Rom(v) => (ControllerView::Rom(v.write(address, data).0), v.write(
                address,
                data,
            ).1),
            ControllerView::Mbc1(v) => (ControllerView::Mbc1(v.write(address, data).0), v.write(
                address,
                data,
            ).1),
        }
    }
}

impl View for Controller {
    type V = ControllerView;

    open spec fn view(&self) -> ControllerView {
        match self {
            Controller::Rom(rom) => ControllerView::Rom(rom@),
            Controller::Mbc1(mbc1) => ControllerView::Mbc1(mbc1@),
        }
    }
}

/// The memory unit: the cartridge behind its bank controller, the work RAM and
/// its mirror, the hardware registers, the high RAM, the interrupt enable
/// register and the master interrupt enable.
pub struct MMU {
    mbc: Controller,
    pub enable_interrupts: bool,
    interrupt_enable: u8,
    pub internal_ram: Vec<u8>,
    hi_ram: Vec<u8>,
    hw_registers: HardwareRegister,
}

/// What the memory unit holds.
pub struct MmuView {
    pub cartridge: ControllerView,
    /// The master interrupt enable.
    pub ime: bool,
    /// The interrupt enable register at `0xFFFF`.
    pub interrupt_enable: u8,
    pub work_ram: Seq<u8>,
    pub high_ram: Seq<u8>,
    pub hardware: HardwareView,
}

/// The regions of the address space.
pub enum Region {
    /// `0x0000..=0x7FFF` and `0xA000..=0xBFFF`: the cartridge.
    Cartridge,
    /// `0x8000..=0x9FFF` video RAM and `0xFE00..=0xFE9F` object memory: reads
    /// give 0, writes are dropped.
    Stub,
    /// `0xC000..=0xDFFF`, and its mirror `0xE000..=0xFDFF`: the payload is the
    /// offset into the work RAM.
    WorkRam(int),
    /// `0xFEA0..=0xFEFF`: reads give 0, writes are dropped.
    Prohibited,
    /// `0xFF00..=0xFF7F`.
    Hardware,
    /// `0xFF80..=0xFFFE`: the payload is the offset into the high RAM.
    HighRam(int),
    /// `0xFFFF`.
    InterruptEnable,
}

/// The region that an address belongs to.
pub open spec fn region_of(address: u16) -> Region {
    if address <= 0x7FFF {
        Region::Cartridge
    } else if address <= 0x9FFF {
        Region::Stub
    } else if address <= 0xBFFF {
        Region::Cartridge
    } else if address <= 0xDFFF {
        Region::WorkRam(address - 0xC000)
    } else if address <= 0xFDFF {
        Region::WorkRam(address - 0xE000)
    } else if address <= 0xFE9F {
        Region::Stub
    } else if address <= 0xFEFF {
        Region::Prohibited
    } else if address <= 0xFF7F {
        Region::Hardware
    } else if address <= 0xFFFE {
        Region::HighRam(address - 0xFF80)
    } else {
        Region::InterruptEnable
    }
}

/// Whether an address lies in the work RAM, its mirror or the high RAM,
/// where a byte stays as it was written.
pub open spec fn holds_bytes(address: u16) -> bool {
    region_of(address) is WorkRam || region_of(address) is HighRam
}

impl MmuView {
    /// The cartridge is well formed and each memory has its size.
    pub open spec fn wf(self) -> bool {
        &&& self.cartridge.wf()
        &&& self.work_ram.len() == WORK_RAM_SIZE
        &&& self.high_ram.len() == HIGH_RAM_SIZE
        &&& self.hardware.wf()
    }

    /// Whether the memory is as it is built for a cartridge image of a
    /// kind: the image behind a controller of the kind's family, with its
    /// external RAM zeroed and disabled and ROM bank 1 switched in; zeroed
    /// work RAM, high RAM and hardware registers; interrupts disabled.
    pub open spec fn fresh(self, game_data: Seq<u8>, cart_type: CartridgeType) -> bool {
        &&& match mbc_type_of(cart_type) {
            MbcType::Rom => self.cartridge matches ControllerView::Rom(v) && v.rom == game_data
                && v.ram == Seq::new(crate::mbc::rom::ROM_ONLY_RAM_SIZE as nat, |i: int| 0u8),
            MbcType::Mbc1 => self.cartridge matches ControllerView::Mbc1(v) && v.rom == game_data
                && v.ram == Seq::new(crate::mbc::mbc1::MBC1_RAM_SIZE as nat, |i: int| 0u8)
                && !v.ram_enable && v.rom_bank == 1 && v.ram_bank == 0 && !v.bank_mode,
            _ => false,
        }
        &&& !self.ime
        &&& self.interrupt_enable == 0
        &&& self.work_ram == Seq::new(WORK_RAM_SIZE as nat, |i: int| 0u8)
        &&& self.high_ram == Seq::new(HIGH_RAM_SIZE as nat, |i: int| 0u8)
        &&& self.hardware.registers == Seq::new(
            crate::hardware::hardware_registers::HW_SIZE as nat,
            |i: int| 0u8,
        )
        &&& !self.hardware.divider_reset
    }

    /// What a read of one byte gives: the byte of the region that owns the
    /// address, or the cartridge's error.
    pub open spec fn read_byte(self, address: u16) -> Result<u8, Error> {
        match region_of(address) {
            Region::Cartridge => match self.cartridge.read(address) {
                Ok(byte) => Ok(byte),
                Err(e) => Err(Error::MBCError(e)),
            },
            Region::Stub => Ok(0),
            Region::WorkRam(offset) => Ok(self.work_ram[offset]),
            Region::Prohibited => Ok(0),
            Region::Hardware => Ok(self.hardware.peek(address)),
            Region::HighRam(offset) => Ok(self.high_ram[offset]),
            Region::InterruptEnable => Ok(self.interrupt_enable),
        }
    }

    /// The memory after a write of one byte.
    pub open spec fn after_write_byte(self, address: u16, value: u8) -> MmuView {
        match region_of(address) {
            Region::Cartridge => MmuView {
                cartridge: self.cartridge.write(address, value).0,
                ..self
            },
            Region::Stub => self,
            Region::WorkRam(offset) => MmuView {
                work_ram: self.work_ram.update(offset, value),
                ..self
            },
            Region::Prohibited => self,
            Region::Hardware => MmuView { hardware: self.hardware.poke(address, value), ..self },
            Region::HighRam(offset) => MmuView {
                high_ram: self.high_ram.update(offset, value),
                ..self
            },
            Region::InterruptEnable => MmuView { interrupt_enable: value, ..self },
        }
    }

    /// What a write of one byte returns: only the cartridge can refuse.
    pub open spec fn write_byte_result(self, address: u16, value: u8) -> Result<(), Error> {
        match region_of(address) {
            Region::Cartridge => match self.cartridge.write(address, value).1 {
                Ok(()) => Ok(()),
                Err(e) => Err(Error::MBCError(e)),
            },
            _ => Ok(()),
        }
    }

    /// What a read of a little-endian word gives: the byte at `address` is the
    /// low byte, the byte above it the high byte. There is no word at
    /// `0xFFFF`.
    pub open spec fn read_word(self, address: u16) -> Result<u16, Error> {
        if address == 0xFFFF {
            Err(Error::ReadError)
        } else {
            match self.read_byte(address) {
                Err(e) => Err(e),
                Ok(low) => match self.read_byte((address + 1) as u16) {
                    Err(e) => Err(e),
                    Ok(high) => Ok(word_of(high, low)),
                },
            }
        }
    }

    /// The memory after a write of a little-endian word: the low byte goes to
    /// `address` first, then the high byte above it. Where the first write
    /// fails the second is not made; at `0xFFFF` none is made.
    pub open spec fn after_write_word(self, address: u16, value: u16) -> MmuView {
        if address == 0xFFFF {
            self
        } else if self.write_byte_result(address, low_byte(value)).is_err() {
            self.after_write_byte(address, low_byte(value))
        } else {
            self.after_write_byte(address, low_byte(value)).after_write_byte(
                (address + 1) as u16,
                high_byte(value),
            )
        }
    }

    /// What a write of a word returns.
    pub open spec fn write_word_result(self, address: u16, value: u16) -> Result<(), Error> {
        if address == 0xFFFF {
            Err(Error::WriteError)
        } else if self.write_byte_result(address, low_byte(value)).is_err() {
            self.write_byte_result(address, low_byte(value))
        } else {
            self.after_write_byte(address, low_byte(value)).write_byte_result(
                (address + 1) as u16,
                high_byte(value),
            )
        }
    }

    /// A well-formed memory never refuses a write of a byte.
    pub proof fn lemma_write_byte_never_fails(self, address: u16, value: u8)
        requires
            self.wf(),
        ensures
            self.write_byte_result(address, value) == Ok::<(), Error>(()),
            self.after_write_byte(address, value).wf(),
    {
        match self.cartridge {
            ControllerView::Rom(v) => {},
            ControllerView::Mbc1(v) => {
                crate::mbc::mbc1::lemma_write_keeps_wf(v, address, value);
            },
        }
    }

    /// A well-formed memory refuses a write of a word only at `0xFFFF`.
    pub proof fn lemma_write_word_never_fails(self, address: u16, value: u16)
        requires
            self.wf(),
        ensures
            self.write_word_result(address, value) == (if address == 0xFFFF {
                Err::<(), Error>(Error::WriteError)
            } else {
                Ok::<(), Error>(())
            }),
            address != 0xFFFF ==> self.after_write_word(address, value) == self.after_write_byte(
                address,
                low_byte(value),
            ).after_write_byte((address + 1) as u16, high_byte(value)),
            self.after_write_word(address, value).wf(),
    {
        if address != 0xFFFF {
            self.lemma_write_byte_never_fails(address, low_byte(value));
            self.after_write_byte(address, low_byte(value)).lemma_write_byte_never_fails(
                (address + 1) as u16,
                high_byte(value),
            );
        }
    }

    /// A write to the divider register reads back as zero, whatever was
    /// written.
    pub proof fn lemma_divider_write_reads_zero(self, value: u8)
        requires
            self.wf(),
        ensures
            self.after_write_byte(DIV_ADDR, value).read_byte(DIV_ADDR) == Ok::<u8, Error>(0),
    {
    }

    /// The prohibited area `0xFEA0..=0xFEFF` reads as zero and drops what is
    /// written to it.
    pub proof fn lemma_prohibited_area(self, address: u16, value: u8)
        requires
            self.wf(),
            0xFEA0 <= address <= 0xFEFF,
        ensures
            self.read_byte(address) == Ok::<u8, Error>(0),
            self.after_write_byte(address, value) == self,
            self.write_byte_result(address, value) == Ok::<(), Error>(()),
    {
    }

    /// The area `0xE000..=0xFDFF` mirrors the work RAM at `0xC000..=0xDDFF`:
    /// a byte written through either address is read back through both.
    pub proof fn lemma_work_ram_mirror(self, address: u16, value: u8)
        requires
            self.wf(),
            0xC000 <= address <= 0xDDFF,
        ensures
            self.after_write_byte(address, value).read_byte((address + 0x2000) as u16) == Ok::<
                u8,
                Error,
            >(value),
            self.after_write_byte((address + 0x2000) as u16, value).read_byte(address) == Ok::<
                u8,
                Error,
            >(value),
            self.read_byte((address + 0x2000) as u16) == self.read_byte(address),
            self.after_write_byte((address + 0x2000) as u16, value) == self.after_write_byte(
                address,
                value,
            ),
    {
    }

    /// A byte written to the work RAM, its mirror or the high RAM is read
    /// back as it was written.
    pub proof fn lemma_ram_round_trip(self, address: u16, value: u8)
        requires
            self.wf(),
            holds_bytes(address),
        ensures
            self.after_write_byte(address, value).read_byte(address) == Ok::<u8, Error>(value),
            self.after_write_byte(address, value).wf(),
    {
    }

    /// A write of a byte changes what is read at no other address, but for
    /// the other address of a mirrored work RAM byte, and for the addresses of
    /// the cartridge, whose bank registers a write can set.
    pub proof fn lemma_write_elsewhere(self, address: u16, value: u8, other: u16)
        requires
            self.wf(),
            !(region_of(address) is Cartridge),
            address != other,
            !(region_of(address) is WorkRam && region_of(other) == region_of(address)),
        ensures
            self.after_write_byte(address, value).read_byte(other) == self.read_byte(other),
    {
    }

    /// A word written where both of its bytes lie in the work RAM, its mirror
    /// or the high RAM is read back as it was written.
    pub proof fn lemma_word_round_trip(self, address: u16, value: u16)
        requires
            self.wf(),
            address < 0xFFFF,
            holds_bytes(address),
            holds_bytes((address + 1) as u16),
        ensures
            self.write_word_result(address, value) == Ok::<(), Error>(()),
            self.after_write_word(address, value).read_word(address) == Ok::<u16, Error>(value),
    {
        self.lemma_write_word_never_fails(address, value);
        let first = self.after_write_byte(address, low_byte(value));
        self.lemma_ram_round_trip(address, low_byte(value));
        first.lemma_ram_round_trip((address + 1) as u16, high_byte(value));
        first.lemma_write_elsewhere((address + 1) as u16, high_byte(value), address);
        crate::util::byte_ops::lemma_word_round_trip(0, 0, value);
    }

    /// The interrupt flag register.
    pub open spec fn interrupt_flag(self) -> u8 {
        self.hardware.peek(IF_ADDR)
    }

    /// The interrupt of the highest priority that is both enabled and
    /// requested, whatever the master enable says.
    pub open spec fn pending(self) -> Option<Interrupt> {
        highest_priority(self.interrupt_enable & self.interrupt_flag())
    }

    /// The memory after the request bit of an interrupt is set or cleared.
    pub open spec fn after_set_interrupt_bit(self, interrupt: Interrupt, state: bool) -> MmuView {
        self.after_write_byte(
            IF_ADDR,
            if state {
                self.interrupt_flag() | interrupt.spec_position()
            } else {
                self.interrupt_flag() & !interrupt.spec_position()
            },
        )
    }
}

impl View for MMU {
    type V = MmuView;

    closed spec fn view(&self) -> MmuView {
        MmuView {
            cartridge: self.mbc@,
            ime: self.enable_interrupts,
            interrupt_enable: self.interrupt_enable,
            work_ram: self.internal_ram@,
            high_ram: self.hi_ram@,
            hardware: self.hw_registers@,
        }
    }
}

impl MMU {
    /// The invariant of the memory unit.
    pub open spec fn wf(&self) -> bool {
        self@.wf()
    }

    /// A memory unit around the cartridge image, with zeroed RAM and registers
    /// and interrupts disabled. Cartridge kinds other than plain ROM and MBC1
    /// are refused.
    pub fn new(game_data: &[u8], cart_type: &CartridgeType) -> (r: Result<MMU, Error>)
        ensures
            match r {
                Ok(mmu) => mmu.wf() && mmu@.fresh(game_data@, *cart_type),
                Err(e) => {
                    &&& e == Error::CreateError
                    &&& mbc_type_of(*cart_type) != MbcType::Rom
                    &&& mbc_type_of(*cart_type) != MbcType::Mbc1
                },
            },
    {
        let mbc = match Self::create_mbc_from_type(cart_type, game_data) {
            Some(mbc) => mbc,
            None => {
                return Err(Error::CreateError);
            },
        };
        let mmu = MMU {
            mbc,
            enable_interrupts: false,
            interrupt_enable: 0,
            internal_ram: vec![0; WORK_RAM_SIZE],
            hi_ram: vec![0; HIGH_RAM_SIZE],
            hw_registers: HardwareRegister::default(),
        };
        proof {
            assert(mmu@.work_ram =~= Seq::new(WORK_RAM_SIZE as nat, |i: int| 0u8));
            assert(mmu@.high_ram =~= Seq::new(HIGH_RAM_SIZE as nat, |i: int| 0u8));
            assert(mmu@.hardware.registers =~= Seq::new(
                crate::hardware::hardware_registers::HW_SIZE as nat,
                |i: int| 0u8,
            ));
            match mmu@.cartridge {
                ControllerView::Rom(v) => {
                    assert(v.rom =~= game_data@);
                    assert(v.ram =~= Seq::new(
                        crate::mbc::rom::ROM_ONLY_RAM_SIZE as nat,
                        |i: int| 0u8,
                    ));
                },
                ControllerView::Mbc1(v) => {
                    assert(v.rom =~= game_data@);
                    assert(v.ram =~= Seq::new(
                        crate::mbc::mbc1::MBC1_RAM_SIZE as nat,
                        |i: int| 0u8,
                    ));
                },
            }
        }
        Ok(mmu)
    }

    /// Reads the byte at an address.
    pub fn read_byte(&self, address: u16) -> (r: Result<u8, Error>)
        requires
            self.wf(),
        ensures
            r == self@.read_byte(address),
    {
        match address {
            0x8000..=0x9FFF => Ok(0),
            0xC000..=0xFDFF => {
                let mirrored_address = if address >= 0xE000 {
                    address - (0xE000 - 0xC000)
                } else {
                    address
                };
                Ok(self.internal_ram[(mirrored_address - 0xC000) as usize])
            },
            0xFE00..=0xFE9F => Ok(0),
            0xFEA0..=0xFEFF => Ok(0),
            0xFF00..=0xFF7F => match self.hw_registers.map_read(address) {
                Ok(byte) => Ok(byte),
                Err(e) => Err(Error::from(e)),
            },
            0xFF80..=0xFFFE => Ok(self.hi_ram[(address - 0xFF80) as usize]),
            0xFFFF => Ok(self.interrupt_enable),
            _ => {
                let result = match &self.mbc {
                    Controller::Rom(rom) => rom.map_read(address),
                    Controller::Mbc1(mbc1) => mbc1.map_read(address),
                };
                match result {
                    Ok(byte) => Ok(byte),
                    Err(e) => Err(Error::from(e)),
                }
            },
        }
    }

    /// Writes a byte at an address.
    pub fn write_byte(&mut self, address: u16, value: u8) -> (r: Result<(), Error>)
        requires
            old(self).wf(),
        ensures
            final(self).wf(),
            final(self)@ == old(self)@.after_write_byte(address, value),
            r == old(self)@.write_byte_result(address, value),
            r == Ok::<(), Error>(()),
    {
        proof {
            old(self)@.lemma_write_byte_never_fails(address, value);
        }
        match address {
            0x8000..=0x9FFF => Ok(()),
            0xC000..=0xFDFF => {
                let mirrored_address = if address >= 0xE000 {
                    address - (0xE000 - 0xC000)
                } else {
                    address
                };
                self.internal_ram[(mirrored_address - 0xC000) as usize] = value;
                Ok(())
            },
            0xFE00..=0xFE9F => Ok(()),
            0xFEA0..=0xFEFF => Ok(()),
            0xFF00..=0xFF7F => match self.hw_registers.map_write(address, value) {
                Ok(()) => Ok(()),
                Err(e) => Err(Error::from(e)),
            },
            0xFF80..=0xFFFE => {
                self.hi_ram[(address - 0xFF80) as usize] = value;
                Ok(())
            },
            0xFFFF => {
                self.interrupt_enable = value;
                Ok(())
            },
            _ => {
                proof {
                    match old(self)@.cartridge {
                        ControllerView::Rom(v) => {},
                        ControllerView::Mbc1(v) => {
                            crate::mbc::mbc1::lemma_write_keeps_wf(v, address, value);
                        },
                    }
                }
                let result = match &mut self.mbc {
                    Controller::Rom(rom) => rom.map_write(address, value),
                    Controller::Mbc1(mbc1) => mbc1.map_write(address, value),
                };
                match result {
                    Ok(()) => Ok(()),
                    Err(e) => Err(Error::from(e)),
                }
            },
        }
    }

    /// Reads the little-endian word at an address.
    pub fn read_word(&self, address: u16) -> (r: Result<u16, Error>)
        requires
            self.wf(),
        ensures
            r == self@.read_word(address),
    {
        if address == 0xFFFF {
            return Err(Error::ReadError);
        }
        let rhs = self.read_byte(address)? as u16;
        let lhs = self.read_byte(address + 1)? as u16;
        proof {
            lemma_word_join(lhs as u8, rhs as u8);
        }
        let value = (lhs << 8) | rhs;
        Ok(value)
    }

    /// Writes a little-endian word at an address.
    pub fn write_word(&mut self, address: u16, value: u16) -> (r: Result<(), Error>)
        requires
            old(self).wf(),
        ensures
            final(self).wf(),
            final(self)@ == old(self)@.after_write_word(address, value),
            r == old(self)@.write_word_result(address, value),
            r is Ok <==> address != 0xFFFF,
    {
        proof {
            old(self)@.lemma_write_word_never_fails(address, value);
        }
        if address == 0xFFFF {
            return Err(Error::WriteError);
        }
        proof {
            lemma_word_fields(value);
        }
        let rhs = value & 0xFF;
        let lhs = (value & 0xFF00) >> 8;
        self.write_byte(address, rhs as u8)?;
        self.write_byte(address + 1, lhs as u8)
    }

    /// Sets the master interrupt enable.
    pub fn write_interrupt_enable_reg(&mut self, value: bool)
        ensures
            final(self)@ == (MmuView { ime: value, ..old(self)@ }),
    {
        self.enable_interrupts = value;
    }

    /// The interrupt of the highest priority that is both enabled and
    /// requested, whatever the master enable says.
    pub fn pending(&self) -> (r: Option<Interrupt>)
        requires
            self.wf(),
        ensures
            r == self@.pending(),
    {
        let interrupt_enable = self.interrupt_enable;
        let interrupt_flag = match self.hw_registers.map_read(IF_ADDR) {
            Ok(byte) => byte,
            Err(_) => 0,
        };
        match Interrupt::try_from(interrupt_enable & interrupt_flag) {
            Ok(interrupt) => Some(interrupt),
            Err(_) => None,
        }
    }

    /// The pending interrupt, where the master enable is set; none where it
    /// is clear.
    pub fn interrupts_enabled(&self) -> (r: Result<Option<Interrupt>, Error>)
        requires
            self.wf(),
        ensures
            r == Ok::<Option<Interrupt>, Error>(
                if self@.ime {
                    self@.pending()
                } else {
                    None
                },
            ),
    {
        let interrupt_enable = self.read_byte(0xFFFF)?;
        let interrupt_flag = self.read_byte(0xFF0F)?;
        if self.enable_interrupts {
            return Ok(Interrupt::try_from(interrupt_enable & interrupt_flag).ok());
        }
        Ok(None)
    }

    /// Whether any interrupt is both enabled and requested, whatever the
    /// master enable says.
    pub fn interrupts_scheduled(&self) -> (r: Result<bool, Error>)
        requires
            self.wf(),
        ensures
            r == Ok::<bool, Error>(self@.pending() is Some),
    {
        let interrupt_enable = self.read_byte(0xFFFF)?;
        let interrupt_flag = self.read_byte(0xFF0F)?;
        Ok(Interrupt::try_from(interrupt_enable & interrupt_flag).is_ok())
    }

    /// Sets or clears the request bit of an interrupt.
    pub fn set_interrupt_bit(&mut self, interrupt: Interrupt, state: bool) -> (r: Result<(), Error>)
        requires
            old(self).wf(),
        ensures
            final(self).wf(),
            final(self)@ == old(self)@.after_set_interrupt_bit(interrupt, state),
            r.is_ok(),
    {
        let interrupt_flag = self.read_byte(0xFF0F)?;
        let bit = interrupt.get_position();
        let next_value = if state {
            interrupt_flag | bit
        } else {
            interrupt_flag & !bit
        };
        self.write_byte(0xFF0F, next_value)
    }

    /// The controller for a cartridge kind, where the memory unit can drive
    /// it.
    fn create_mbc_from_type(cart_type: &CartridgeType, data: &[u8]) -> (r: Option<Controller>)
        ensures
            match mbc_type_of(*cart_type) {
                MbcType::Rom => r matches Some(Controller::Rom(rom)) && rom@.rom == data@ && rom@.ram
                    == Seq::new(crate::mbc::rom::ROM_ONLY_RAM_SIZE as nat, |i: int| 0u8)
                    && rom@.wf(),
                MbcType::Mbc1 => r matches Some(Controller::Mbc1(mbc1)) && mbc1@.rom == data@
                    && mbc1@.ram == Seq::new(
                    crate::mbc::mbc1::MBC1_RAM_SIZE as nat,
                    |i: int| 0u8,
                ) && !mbc1@.ram_enable && mbc1@.rom_bank == 1 && mbc1@.ram_bank == 0
                    && !mbc1@.bank_mode && mbc1@.wf(),
                _ => r is None,
            },
    {
        match MbcType::from(cart_type) {
            MbcType::Rom => Some(Controller::Rom(Rom::new(data))),
            MbcType::Mbc1 => Some(Controller::Mbc1(Mbc1::new(data))),
            MbcType::Mbc2 => None,
            MbcType::Mbc3 => None,
            MbcType::Mbc4 => None,
            MbcType::Mbc5 => None,
            MbcType::Mbc5Rumble => None,
            MbcType::Mmm => None,
        }
    }

    /// The hardware registers, for the clock to advance the divider.
    pub fn hardware_mut(&mut self) -> (r: &mut HardwareRegister)
        ensures
            r@ == old(self)@.hardware,
            final(self)@ == (MmuView { hardware: final(r)@, ..old(self)@ }),
    {
        &mut self.hw_registers
    }
}

} // verus!
