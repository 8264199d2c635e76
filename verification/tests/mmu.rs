use wasmboi::hardware::cartridge_header::CartridgeType;
use wasmboi::hardware::clock::TimerError;
use wasmboi::hardware::cpu::Error as CpuError;
use wasmboi::hardware::gameboy::GameBoyError;
use wasmboi::hardware::register::RegisterError;
use wasmboi::hardware::hardware_registers::{HardwareRegister, HardwareRegisterError, Interrupt};
use wasmboi::hardware::memory_region::MemoryRegion;
use wasmboi::hardware::mmu::{Error, MbcType, MMU};
use wasmboi::mbc::MbcError;
use std::convert::TryFrom;

fn plain_rom() -> Vec<u8> {
    let mut rom = vec![0u8; 0x8000];
    for (index, byte) in rom.iter_mut().enumerate() {
        *byte = (index % 251) as u8;
    }
    rom
}

fn memory() -> MMU {
    MMU::new(&plain_rom(), &CartridgeType::ROM).ok().unwrap()
}

#[test]
fn divider_write_reads_back_zero() {
    let mut mmu = memory();
    for value in [0x00u8, 0x01, 0x7F, 0xFF] {
        assert_eq!(mmu.write_byte(0xFF04, value), Ok(()));
        assert_eq!(mmu.read_byte(0xFF04), Ok(0));
    }
}

#[test]
fn prohibited_area_reads_zero_and_drops_writes() {
    let mut mmu = memory();
    for address in [0xFEA0u16, 0xFEB7, 0xFEFF] {
        assert_eq!(mmu.read_byte(address), Ok(0));
        assert_eq!(mmu.write_byte(address, 0xAB), Ok(()));
        assert_eq!(mmu.read_byte(address), Ok(0));
    }
}

#[test]
fn work_ram_is_mirrored() {
    let mut mmu = memory();
    assert_eq!(mmu.write_byte(0xC000, 0x11), Ok(()));
    assert_eq!(mmu.read_byte(0xE000), Ok(0x11));
    assert_eq!(mmu.write_byte(0xDDFF, 0x22), Ok(()));
    assert_eq!(mmu.read_byte(0xFDFF), Ok(0x22));
    assert_eq!(mmu.write_byte(0xE123, 0x33), Ok(()));
    assert_eq!(mmu.read_byte(0xC123), Ok(0x33));
    assert_eq!(mmu.read_byte(0xE123), Ok(0x33));
    assert_eq!(mmu.internal_ram[0x123], 0x33);
}

#[test]
fn ram_reads_back_what_was_written() {
    let mut mmu = memory();
    for (address, value) in [(0xC000u16, 1u8), (0xDFFF, 2), (0xFF80, 3), (0xFFFE, 4), (0xFFFF, 5)]
    {
        assert_eq!(mmu.write_byte(address, value), Ok(()));
        assert_eq!(mmu.read_byte(address), Ok(value));
    }
    assert_eq!(mmu.read_byte(0xC000), Ok(1));
    assert_eq!(mmu.read_byte(0xFF80), Ok(3));
}

#[test]
fn words_are_little_endian() {
    let mut mmu = memory();
    assert_eq!(mmu.write_word(0xC100, 0xBEEF), Ok(()));
    assert_eq!(mmu.read_byte(0xC100), Ok(0xEF));
    assert_eq!(mmu.read_byte(0xC101), Ok(0xBE));
    assert_eq!(mmu.read_word(0xC100), Ok(0xBEEF));
    for value in [0x0000u16, 0x00FF, 0xFF00, 0xFFFF, 0x1234] {
        assert_eq!(mmu.write_word(0xFF90, value), Ok(()));
        assert_eq!(mmu.read_word(0xFF90), Ok(value));
        assert_eq!(mmu.write_word(0xDFFF, value), Ok(()));
        assert_eq!(mmu.read_word(0xDFFF), Ok(value));
    }
    assert_eq!(mmu.write_word(0xFFFE, 0xA55A), Ok(()));
    assert_eq!(mmu.read_word(0xFFFE), Ok(0xA55A));
}

#[test]
fn there_is_no_word_at_the_last_address() {
    let mut mmu = memory();
    assert_eq!(mmu.write_byte(0xFFFF, 0x12), Ok(()));
    assert_eq!(mmu.read_word(0xFFFF), Err(Error::ReadError));
    assert_eq!(mmu.write_word(0xFFFF, 0xABCD), Err(Error::WriteError));
    assert_eq!(mmu.read_byte(0xFFFF), Ok(0x12));
}

#[test]
fn line_counter_reads_fixed_value() {
    let mut mmu = memory();
    assert_eq!(mmu.read_byte(0xFF44), Ok(0x90));
    assert_eq!(mmu.write_byte(0xFF44, 0x00), Ok(()));
    assert_eq!(mmu.read_byte(0xFF44), Ok(0x90));
}

#[test]
fn hardware_registers_are_plain_bytes() {
    let mut mmu = memory();
    for address in [0xFF00u16, 0xFF01, 0xFF02, 0xFF05, 0xFF06, 0xFF07, 0xFF0F, 0xFF7F] {
        assert_eq!(mmu.read_byte(address), Ok(0));
        assert_eq!(mmu.write_byte(address, 0x5A), Ok(()));
        assert_eq!(mmu.read_byte(address), Ok(0x5A));
    }
}

#[test]
fn video_and_object_memory_are_stubs() {
    let mut mmu = memory();
    for address in [0x8000u16, 0x9FFF, 0xFE00, 0xFE9F] {
        assert_eq!(mmu.write_byte(address, 0x77), Ok(()));
        assert_eq!(mmu.read_byte(address), Ok(0));
    }
}

#[test]
fn cartridge_area_goes_to_the_cartridge() {
    let mut mmu = memory();
    assert_eq!(mmu.read_byte(0x0000), Ok(0));
    assert_eq!(mmu.read_byte(0x0100), Ok((0x100 % 251) as u8));
    assert_eq!(mmu.read_byte(0x7FFF), Ok((0x7FFF % 251) as u8));
    assert_eq!(mmu.write_byte(0x0100, 0xFF), Ok(()));
    assert_eq!(mmu.read_byte(0x0100), Ok((0x100 % 251) as u8));
    assert_eq!(mmu.read_byte(0xA000), Ok(0));
    assert_eq!(mmu.write_byte(0xA000, 0x42), Ok(()));
    assert_eq!(mmu.read_byte(0xA000), Ok(0x42));
    assert_eq!(mmu.write_byte(0xBFFF, 0x43), Ok(()));
    assert_eq!(mmu.read_byte(0xBFFF), Ok(0x43));
}

#[test]
fn reads_past_the_image_fail() {
    let mmu = MMU::new(&[1, 2, 3], &CartridgeType::ROM).ok().unwrap();
    assert_eq!(mmu.read_byte(2), Ok(3));
    assert_eq!(mmu.read_byte(3), Err(Error::MBCError(MbcError::Read(3))));
    assert_eq!(mmu.read_word(2), Err(Error::MBCError(MbcError::Read(3))));
    let mmu = MMU::new(&[1, 2, 3], &CartridgeType::MBC1).ok().unwrap();
    assert_eq!(mmu.read_byte(0x4000), Err(Error::MBCError(MbcError::Read(0x4000))));
}

#[test]
fn only_plain_and_mbc1_cartridges_are_built() {
    let rom = plain_rom();
    for kind in [CartridgeType::ROM, CartridgeType::ROM_RAM, CartridgeType::ROM_RAM_BAT] {
        assert!(MMU::new(&rom, &kind).is_ok());
        assert_eq!(MbcType::from(&kind), MbcType::Rom);
    }
    for kind in [CartridgeType::MBC1, CartridgeType::MBC1_RAM, CartridgeType::MBC1_RAM_BAT] {
        assert!(MMU::new(&rom, &kind).is_ok());
        assert_eq!(MbcType::from(&kind), MbcType::Mbc1);
    }
    for kind in [
        CartridgeType::MBC2,
        CartridgeType::MBC3,
        CartridgeType::MBC3_TIMER_BAT,
        CartridgeType::MBC4,
        CartridgeType::MBC5_RAM_BAT,
        CartridgeType::MMM_01,
    ] {
        assert_eq!(MMU::new(&rom, &kind).err(), Some(Error::CreateError));
    }
    assert_eq!(MbcType::from(&CartridgeType::MBC2_BAT), MbcType::Mbc2);
    assert_eq!(MbcType::from(&CartridgeType::MBC3_RAM), MbcType::Mbc3);
    assert_eq!(MbcType::from(&CartridgeType::MBC4_RAM), MbcType::Mbc4);
    assert_eq!(MbcType::from(&CartridgeType::MBC5), MbcType::Mbc5);
    assert_eq!(MbcType::from(&CartridgeType::MMM_01_RAM), MbcType::Mmm);
}

#[test]
fn pending_interrupt_is_the_one_of_highest_priority() {
    let mut mmu = memory();
    assert_eq!(mmu.pending(), None);
    assert_eq!(mmu.interrupts_scheduled(), Ok(false));
    mmu.write_byte(0xFFFF, 0x1F).ok().unwrap();
    mmu.write_byte(0xFF0F, 0x14).ok().unwrap();
    assert_eq!(mmu.pending(), Some(Interrupt::Timer));
    assert_eq!(mmu.interrupts_scheduled(), Ok(true));
    assert_eq!(mmu.interrupts_enabled(), Ok(None));
    mmu.write_interrupt_enable_reg(true);
    assert!(mmu.enable_interrupts);
    assert_eq!(mmu.interrupts_enabled(), Ok(Some(Interrupt::Timer)));
    mmu.write_byte(0xFF0F, 0x15).ok().unwrap();
    assert_eq!(mmu.interrupts_enabled(), Ok(Some(Interrupt::VBlank)));
    mmu.write_byte(0xFFFF, 0x10).ok().unwrap();
    assert_eq!(mmu.interrupts_enabled(), Ok(Some(Interrupt::Joypad)));
    mmu.write_byte(0xFFFF, 0x0A).ok().unwrap();
    assert_eq!(mmu.interrupts_enabled(), Ok(None));
    assert_eq!(mmu.interrupts_scheduled(), Ok(false));
}

#[test]
fn bits_above_the_five_sources_are_no_interrupts() {
    let mut mmu = memory();
    mmu.write_interrupt_enable_reg(true);
    mmu.write_byte(0xFFFF, 0xE0).ok().unwrap();
    mmu.write_byte(0xFF0F, 0xE0).ok().unwrap();
    assert_eq!(mmu.pending(), None);
    assert_eq!(mmu.interrupts_enabled(), Ok(None));
    assert_eq!(mmu.interrupts_scheduled(), Ok(false));
}

#[test]
fn interrupt_bits_are_set_and_cleared() {
    let mut mmu = memory();
    assert_eq!(mmu.set_interrupt_bit(Interrupt::Timer, true), Ok(()));
    assert_eq!(mmu.read_byte(0xFF0F), Ok(0x04));
    assert_eq!(mmu.set_interrupt_bit(Interrupt::VBlank, true), Ok(()));
    assert_eq!(mmu.set_interrupt_bit(Interrupt::Joypad, true), Ok(()));
    assert_eq!(mmu.read_byte(0xFF0F), Ok(0x15));
    assert_eq!(mmu.set_interrupt_bit(Interrupt::Timer, false), Ok(()));
    assert_eq!(mmu.read_byte(0xFF0F), Ok(0x11));
    assert_eq!(mmu.set_interrupt_bit(Interrupt::Timer, false), Ok(()));
    assert_eq!(mmu.read_byte(0xFF0F), Ok(0x11));
}

#[test]
fn interrupt_vectors_and_positions() {
    assert_eq!(Interrupt::VBlank.get_isr_location(), 0x40);
    assert_eq!(Interrupt::LCDStat.get_isr_location(), 0x48);
    assert_eq!(Interrupt::Timer.get_isr_location(), 0x50);
    assert_eq!(Interrupt::Serial.get_isr_location(), 0x58);
    assert_eq!(Interrupt::Joypad.get_isr_location(), 0x60);
    assert_eq!(Interrupt::VBlank.get_position(), 0x01);
    assert_eq!(Interrupt::LCDStat.get_position(), 0x02);
    assert_eq!(Interrupt::Timer.get_position(), 0x04);
    assert_eq!(Interrupt::Serial.get_position(), 0x08);
    assert_eq!(Interrupt::Joypad.get_position(), 0x10);
    assert_eq!(Interrupt::try_from(0x00), Err(()));
    assert_eq!(Interrupt::try_from(0x1F), Ok(Interrupt::VBlank));
    assert_eq!(Interrupt::try_from(0x1E), Ok(Interrupt::LCDStat));
    assert_eq!(Interrupt::try_from(0x18), Ok(Interrupt::Serial));
    assert_eq!(Interrupt::try_from(0xE0), Err(()));
}

#[test]
fn hardware_register_block_alone() {
    let mut block = HardwareRegister::default();
    assert_eq!(block.map_read(0xFF00), Ok(0));
    assert_eq!(block.map_write(0xFF7F, 9), Ok(()));
    assert_eq!(block.map_read(0xFF7F), Ok(9));
    assert_eq!(block.map_read(0xFF44), Ok(0x90));
    assert_eq!(block.map_read(0xFF80), Err(HardwareRegisterError::Unmapped(0xFF80)));
    assert_eq!(block.map_read(0xFEFF), Err(HardwareRegisterError::Unmapped(0xFEFF)));
    assert_eq!(block.map_write(0x0000, 1), Err(HardwareRegisterError::Unmapped(0x0000)));
    assert!(!block.take_divider_reset());
    block.set_divider(7);
    assert_eq!(block.map_read(0xFF04), Ok(7));
    assert!(!block.take_divider_reset());
    assert_eq!(block.map_write(0xFF04, 0x55), Ok(()));
    assert_eq!(block.map_read(0xFF04), Ok(0));
    assert!(block.take_divider_reset());
    assert!(!block.take_divider_reset());
}

#[test]
fn bank_switch_through_the_memory_unit() {
    let mut rom = vec![0u8; 128 * 1024];
    for (index, byte) in rom.iter_mut().enumerate() {
        *byte = (index / 0x4000) as u8 * 16 + (index % 13) as u8;
    }
    let mut mmu = MMU::new(&rom, &CartridgeType::MBC1).ok().unwrap();
    assert_eq!(mmu.read_byte(0x4000), Ok(rom[0x4000]));
    assert_eq!(mmu.write_byte(0x2000, 0x02), Ok(()));
    assert_eq!(mmu.read_byte(0x4000), Ok(rom[0x8000]));
    assert_eq!(mmu.read_byte(0x7FFF), Ok(rom[0xBFFF]));
    assert_eq!(mmu.read_byte(0x0000), Ok(rom[0x0000]));
    assert_eq!(mmu.write_byte(0x2000, 0x00), Ok(()));
    assert_eq!(mmu.read_byte(0x4000), Ok(rom[0x4000]));
    assert_eq!(mmu.read_word(0x4000), Ok(rom[0x4000] as u16 | (rom[0x4001] as u16) << 8));
    assert_eq!(mmu.read_byte(0xA000), Ok(0xFF));
    assert_eq!(mmu.write_byte(0x0000, 0x0A), Ok(()));
    assert_eq!(mmu.write_byte(0xA000, 0x99), Ok(()));
    assert_eq!(mmu.read_byte(0xA000), Ok(0x99));
}

#[test]
fn errors_wrap_errors() {
    assert_eq!(Error::from(MbcError::Write(1, 2)), Error::MBCError(MbcError::Write(1, 2)));
    assert_eq!(
        Error::from(HardwareRegisterError::Unmapped(3)),
        Error::HWError(HardwareRegisterError::Unmapped(3))
    );
    assert_eq!(TimerError::from(Error::ReadError), TimerError::MMUError(Error::ReadError));
    assert!(matches!(
        CpuError::from(Error::WriteError),
        CpuError::MmuError(Error::WriteError)
    ));
    assert!(matches!(
        CpuError::from(RegisterError::CheckedFailure),
        CpuError::RegisterError(RegisterError::CheckedFailure)
    ));
    assert!(matches!(
        GameBoyError::from(TimerError::MMUError(Error::ReadError)),
        GameBoyError::Timer(TimerError::MMUError(Error::ReadError))
    ));
    assert!(matches!(
        GameBoyError::from(Error::CreateError),
        GameBoyError::Mmu(Error::CreateError)
    ));
    assert!(matches!(
        GameBoyError::from(CpuError::InitializationError),
        GameBoyError::Cpu(CpuError::InitializationError)
    ));
}
