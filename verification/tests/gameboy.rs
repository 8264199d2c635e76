use wasmboi::hardware::cartridge_header::CartridgeError;
use wasmboi::hardware::cpu::Error as CpuError;
use wasmboi::hardware::gameboy::{GameBoy, GameBoyError, Peripheral};
use wasmboi::hardware::mmu::Error as MmuError;
use wasmboi::hardware::register::RegisterError;

fn image(program: &[u8]) -> Vec<u8> {
    let mut rom = vec![0u8; 0x8000];
    rom[0x100..0x100 + program.len()].copy_from_slice(program);
    rom
}

fn console(program: &[u8]) -> GameBoy {
    GameBoy::new(&image(program)).ok().unwrap()
}

fn received(gameboy: &GameBoy, port: usize) -> String {
    match &gameboy.peripherals()[port] {
        Peripheral::SerialPort(characters) => characters.iter().collect(),
    }
}

#[test]
fn serial_port_receives_the_byte() {
    // LD A,'A'; LDH (01),A; LD A,81; LDH (02),A; NOP
    let mut gameboy = console(&[0x3E, 0x41, 0xE0, 0x01, 0x3E, 0x81, 0xE0, 0x02, 0x00]);
    gameboy.attach_peripheral(Peripheral::SerialPort(vec![]));
    for _ in 0..3 {
        gameboy.cycle().ok().unwrap();
        assert_eq!(received(&gameboy, 0), "");
    }
    assert_eq!(gameboy.cycle().ok(), Some(3));
    assert_eq!(received(&gameboy, 0), "A");
    assert_eq!(gameboy.mmu().read_byte(0xFF02), Ok(0));
    assert_eq!(gameboy.mmu().read_byte(0xFF01), Ok(0x41));
    gameboy.cycle().ok().unwrap();
    assert_eq!(received(&gameboy, 0), "A");
}

#[test]
fn only_the_first_serial_port_receives() {
    let mut gameboy = console(&[0x3E, 0x42, 0xE0, 0x01, 0x3E, 0x81, 0xE0, 0x02]);
    gameboy.attach_peripheral(Peripheral::SerialPort(vec!['x']));
    gameboy.attach_peripheral(Peripheral::SerialPort(vec![]));
    assert_eq!(gameboy.start(4).ok(), Some(()));
    assert_eq!(received(&gameboy, 0), "xB");
    assert_eq!(received(&gameboy, 1), "");
    assert_eq!(gameboy.peripherals().len(), 2);
}

#[test]
fn without_a_serial_port_the_request_stays() {
    let mut gameboy = console(&[0x3E, 0x81, 0xE0, 0x02, 0x00]);
    assert_eq!(gameboy.start(3).ok(), Some(()));
    assert_eq!(gameboy.mmu().read_byte(0xFF02), Ok(0x81));
    gameboy.attach_peripheral(Peripheral::SerialPort(vec![]));
    gameboy.handle_peripherals().ok().unwrap();
    assert_eq!(received(&gameboy, 0), "\u{0}");
    assert_eq!(gameboy.mmu().read_byte(0xFF02), Ok(0));
}

#[test]
fn halt_wakes_on_a_pending_interrupt_without_entering_it() {
    // LD A,04; LDH (FF),A; LD A,FE; LDH (06),A; LDH (05),A; LD A,05; LDH (07),A; HALT; INC B
    let mut gameboy = console(&[
        0x3E, 0x04, 0xE0, 0xFF, 0x3E, 0xFE, 0xE0, 0x06, 0xE0, 0x05, 0x3E, 0x05, 0xE0, 0x07, 0x76,
        0x04,
    ]);
    assert_eq!(gameboy.start(8).ok(), Some(()));
    assert!(gameboy.cpu().halt);
    assert_eq!(gameboy.cpu().registers.pc.value, 0x010F);
    let mut idle = 0;
    while gameboy.cpu().halt {
        assert_eq!(gameboy.cycle().ok(), Some(1));
        idle += 1;
        assert!(idle < 100);
    }
    assert!(idle >= 1);
    assert!(!gameboy.mmu().enable_interrupts);
    assert_eq!(gameboy.mmu().read_byte(0xFF0F), Ok(0x04));
    assert_eq!(gameboy.cpu().registers.pc.value, 0x010F);
    assert_eq!(gameboy.cpu().registers.sp.value, 0xFFFE);
    assert_eq!(gameboy.cycle().ok(), Some(1));
    assert_eq!(gameboy.cpu().registers.b.value, 0x01);
    assert_eq!(gameboy.cpu().registers.pc.value, 0x0110);
}

#[test]
fn halt_with_interrupts_enabled_enters_the_routine() {
    // EI; NOP; HALT
    let mut gameboy = console(&[0xFB, 0x00, 0x76, 0x04]);
    gameboy.mmu_mut().write_byte(0xFFFF, 0x01).ok().unwrap();
    assert_eq!(gameboy.start(3).ok(), Some(()));
    assert!(gameboy.cpu().halt);
    assert_eq!(gameboy.cycle().ok(), Some(1));
    assert!(gameboy.cpu().halt);
    gameboy.mmu_mut().write_byte(0xFF0F, 0x01).ok().unwrap();
    assert_eq!(gameboy.cycle().ok(), Some(6));
    assert!(!gameboy.cpu().halt);
    assert_eq!(gameboy.cpu().registers.pc.value, 0x0040);
    assert_eq!(gameboy.mmu().read_word(0xFFFC), Ok(0x0103));
    assert!(!gameboy.mmu().enable_interrupts);
}

#[test]
fn enable_followed_by_disable_acknowledges_nothing() {
    let mut gameboy = console(&[0xFB, 0xF3, 0x00, 0x00]);
    gameboy.mmu_mut().write_byte(0xFFFF, 0x1F).ok().unwrap();
    gameboy.mmu_mut().write_byte(0xFF0F, 0x1F).ok().unwrap();
    for step in 0..4 {
        assert_eq!(gameboy.cycle().ok(), Some(1));
        assert_eq!(gameboy.cpu().registers.pc.value, 0x0101 + step);
        assert_eq!(gameboy.cpu().registers.sp.value, 0xFFFE);
    }
    assert_eq!(gameboy.mmu().read_byte(0xFF0F), Ok(0x1F));
}

#[test]
fn enable_is_late_by_one_instruction() {
    let mut gameboy = console(&[0xFB, 0x04, 0x04]);
    gameboy.mmu_mut().write_byte(0xFFFF, 0x01).ok().unwrap();
    gameboy.mmu_mut().write_byte(0xFF0F, 0x01).ok().unwrap();
    assert_eq!(gameboy.cycle().ok(), Some(1));
    assert_eq!(gameboy.cpu().registers.pc.value, 0x0101);
    assert_eq!(gameboy.cycle().ok(), Some(6));
    assert_eq!(gameboy.cpu().registers.b.value, 0x01);
    assert_eq!(gameboy.cpu().registers.pc.value, 0x0040);
    assert_eq!(gameboy.mmu().read_word(0xFFFC), Ok(0x0102));
}

#[test]
fn timer_runs_with_the_instructions() {
    // LD A,05; LDH (07),A; then NOPs
    let mut gameboy = console(&[0x3E, 0x05, 0xE0, 0x07, 0x00, 0x00, 0x00, 0x00, 0x00]);
    assert_eq!(gameboy.start(2).ok(), Some(()));
    assert_eq!(gameboy.mmu().read_byte(0xFF05), Ok(0));
    for _ in 0..3 {
        assert_eq!(gameboy.cycle().ok(), Some(1));
    }
    assert_eq!(gameboy.mmu().read_byte(0xFF05), Ok(1));
    let before = gameboy.mmu().read_byte(0xFF05);
    assert_eq!(gameboy.start(4).ok(), Some(()));
    assert_eq!(gameboy.mmu().read_byte(0xFF05), Ok(before.ok().unwrap() + 1));
}

#[test]
fn console_is_built_from_the_header() {
    let gameboy = console(&[]);
    assert_eq!(gameboy.cpu().registers.pc.value, 0x0100);
    assert_eq!(gameboy.cpu().registers.sp.value, 0xFFFE);
    assert_eq!(gameboy.cpu().registers.f.value & 0x0F, 0);
    assert_eq!(gameboy.peripherals().len(), 0);
    assert_eq!(gameboy.cartridge().start_address, 0);
    assert_eq!(gameboy.cartridge().rom_size, 32);

    assert!(matches!(
        GameBoy::new(&[0u8; 0x100]),
        Err(GameBoyError::Cartridge(CartridgeError::BadRomData))
    ));
    let mut rom = image(&[]);
    rom[0x147] = 0x04;
    assert!(matches!(
        GameBoy::new(&rom),
        Err(GameBoyError::Cartridge(CartridgeError::InvalidCartridgeCode))
    ));
    rom[0x147] = 0x19;
    assert!(matches!(GameBoy::new(&rom), Err(GameBoyError::Mmu(MmuError::CreateError))));
    rom[0x147] = 0x01;
    assert!(GameBoy::new(&rom).is_ok());
    assert!(matches!(GameBoyError::default(), GameBoyError::Unknown));
}

#[test]
fn run_stops_at_the_first_fault() {
    let mut gameboy = console(&[0x04, 0x04, 0xD3, 0x04]);
    assert!(matches!(gameboy.start(10), Err(GameBoyError::Cpu(CpuError::DecodeError(_)))));
    assert_eq!(gameboy.cpu().registers.b.value, 0x02);
    assert_eq!(gameboy.cpu().registers.pc.value, 0x0103);

    let mut gameboy = console(&[0x31, 0x01, 0x00, 0xC5]);
    assert!(matches!(
        gameboy.start(2),
        Err(GameBoyError::Cpu(CpuError::RegisterError(RegisterError::CheckedFailure)))
    ));
    assert_eq!(gameboy.start(0).ok(), Some(()));
}

#[test]
fn divider_counts_with_the_instructions() {
    let mut gameboy = console(&[0x18, 0xFE]);
    assert_eq!(gameboy.start(21).ok(), Some(()));
    assert_eq!(gameboy.mmu().read_byte(0xFF04), Ok(0));
    assert_eq!(gameboy.cycle().ok(), Some(3));
    assert_eq!(gameboy.mmu().read_byte(0xFF04), Ok(1));
    gameboy.cpu_mut().registers.a.value = 0x77;
    assert_eq!(gameboy.cpu().registers.a.value, 0x77);
}

#[test]
fn program_reports_over_the_serial_port() {
    // B counts down from 5 and is summed into A; the sum is compared with 15 and the verdict is
    // sent over the serial port by a routine at 0120.
    let mut rom = image(&[
        0x06, 0x05, // 0100 LD B,5
        0x3E, 0x00, // 0102 LD A,0
        0x80, // 0104 ADD A,B
        0x05, // 0105 DEC B
        0x20, 0xFC, // 0106 JR NZ,0104
        0xFE, 0x0F, // 0108 CP 15
        0x20, 0x0C, // 010A JR NZ,0118
        0x3E, 0x4F, // 010C LD A,'O'
        0xCD, 0x20, 0x01, // 010E CALL 0120
        0x3E, 0x4B, // 0111 LD A,'K'
        0xCD, 0x20, 0x01, // 0113 CALL 0120
        0x76, // 0116 HALT
        0x00, // 0117 NOP
        0x3E, 0x46, // 0118 LD A,'F'
        0xCD, 0x20, 0x01, // 011A CALL 0120
        0x76, // 011D HALT
    ]);
    rom[0x120..0x127].copy_from_slice(&[
        0xE0, 0x01, // 0120 LDH (01),A
        0x3E, 0x81, // 0122 LD A,81
        0xE0, 0x02, // 0124 LDH (02),A
        0xC9, // 0126 RET
    ]);
    let mut gameboy = GameBoy::new(&rom).ok().unwrap();
    gameboy.attach_peripheral(Peripheral::SerialPort(vec![]));
    let mut cycles = 0;
    let mut steps = 0;
    while !gameboy.cpu().halt {
        cycles += gameboy.cycle().ok().unwrap();
        steps += 1;
        assert!(steps < 1000);
        assert_eq!(gameboy.cpu().registers.f.value & 0x0F, 0);
    }
    assert_eq!(received(&gameboy, 0), "OK");
    assert_eq!(gameboy.cpu().registers.pc.value, 0x0117);
    assert_eq!(gameboy.cpu().registers.sp.value, 0xFFFE);
    assert_eq!(gameboy.cpu().registers.b.value, 0);
    assert_eq!(steps, 2 + 5 * 3 + 2 + 2 * 6 + 1);
    assert_eq!(cycles, 4 + (5 * 2 + 4 * 3 + 2) + 2 + 2 + 2 * (2 + 6 + 3 + 2 + 3 + 4) + 1);
    assert_eq!(gameboy.mmu().read_byte(0xFF04), Ok((cycles / 64) as u8));
}
