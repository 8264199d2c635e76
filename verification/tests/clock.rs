use wasmboi::hardware::cartridge_header::CartridgeType;
use wasmboi::hardware::clock::{Clock, SpeedMode, TimerControl};
use wasmboi::hardware::mmu::MMU;

fn memory() -> MMU {
    MMU::new(&vec![0u8; 0x8000], &CartridgeType::ROM).ok().unwrap()
}

fn run(clock: &mut Clock, mmu: &mut MMU, cycles: u8) -> usize {
    clock.add_cycles(cycles);
    clock.finalize_cycle(mmu).ok().unwrap()
}

#[test]
fn sixteen_clock_cycles_step_the_fastest_timer_once() {
    let mut mmu = memory();
    let mut clock = Clock::default();
    mmu.write_byte(0xFF07, 0b101).ok().unwrap();
    for _ in 0..3 {
        assert_eq!(run(&mut clock, &mut mmu, 1), 1);
        assert_eq!(mmu.read_byte(0xFF05), Ok(0));
    }
    assert_eq!(run(&mut clock, &mut mmu, 1), 1);
    assert_eq!(mmu.read_byte(0xFF05), Ok(1));
    assert_eq!(run(&mut clock, &mut mmu, 4), 4);
    assert_eq!(mmu.read_byte(0xFF05), Ok(2));
    assert_eq!(run(&mut clock, &mut mmu, 9), 9);
    assert_eq!(mmu.read_byte(0xFF05), Ok(4));
    assert_eq!(run(&mut clock, &mut mmu, 3), 3);
    assert_eq!(mmu.read_byte(0xFF05), Ok(5));
}

#[test]
fn timer_overflow_reloads_and_requests_the_interrupt() {
    let mut mmu = memory();
    let mut clock = Clock::default();
    mmu.write_byte(0xFF07, 0b101).ok().unwrap();
    mmu.write_byte(0xFF06, 0xFE).ok().unwrap();
    mmu.write_byte(0xFF05, 0xFF).ok().unwrap();
    mmu.write_byte(0xFF0F, 0x01).ok().unwrap();
    assert_eq!(run(&mut clock, &mut mmu, 3), 3);
    assert_eq!(mmu.read_byte(0xFF05), Ok(0xFF));
    assert_eq!(mmu.read_byte(0xFF0F), Ok(0x01));
    assert_eq!(run(&mut clock, &mut mmu, 1), 1);
    assert_eq!(mmu.read_byte(0xFF05), Ok(0xFE));
    assert_eq!(mmu.read_byte(0xFF0F), Ok(0x05));
    mmu.write_byte(0xFF0F, 0x00).ok().unwrap();
    assert_eq!(run(&mut clock, &mut mmu, 4), 4);
    assert_eq!(mmu.read_byte(0xFF05), Ok(0xFF));
    assert_eq!(mmu.read_byte(0xFF0F), Ok(0x00));
    assert_eq!(run(&mut clock, &mut mmu, 8), 8);
    assert_eq!(mmu.read_byte(0xFF05), Ok(0xFF));
    assert_eq!(mmu.read_byte(0xFF0F), Ok(0x04));
}

#[test]
fn timer_periods() {
    for (tac, period) in [(0b100u8, 1024usize), (0b101, 16), (0b110, 64), (0b111, 256)] {
        let mut mmu = memory();
        let mut clock = Clock::default();
        mmu.write_byte(0xFF07, tac).ok().unwrap();
        let machine_cycles = period / 4;
        for _ in 0..machine_cycles - 1 {
            run(&mut clock, &mut mmu, 1);
        }
        assert_eq!(mmu.read_byte(0xFF05), Ok(0));
        run(&mut clock, &mut mmu, 1);
        assert_eq!(mmu.read_byte(0xFF05), Ok(1));
    }
}

#[test]
fn disabled_timer_stands_still() {
    let mut mmu = memory();
    let mut clock = Clock::default();
    mmu.write_byte(0xFF07, 0b001).ok().unwrap();
    for _ in 0..100 {
        run(&mut clock, &mut mmu, 4);
    }
    assert_eq!(mmu.read_byte(0xFF05), Ok(0));
    assert_eq!(mmu.read_byte(0xFF0F), Ok(0));
}

#[test]
fn divider_steps_every_sixty_four_machine_cycles() {
    let mut mmu = memory();
    let mut clock = Clock::default();
    for _ in 0..63 {
        run(&mut clock, &mut mmu, 1);
    }
    assert_eq!(mmu.read_byte(0xFF04), Ok(0));
    run(&mut clock, &mut mmu, 1);
    assert_eq!(mmu.read_byte(0xFF04), Ok(1));
    run(&mut clock, &mut mmu, 200);
    assert_eq!(mmu.read_byte(0xFF04), Ok(4));
    run(&mut clock, &mut mmu, 56);
    assert_eq!(mmu.read_byte(0xFF04), Ok(5));
}

#[test]
fn divider_wraps_around() {
    let mut mmu = memory();
    let mut clock = Clock::default();
    for _ in 0..255 {
        run(&mut clock, &mut mmu, 64);
    }
    assert_eq!(mmu.read_byte(0xFF04), Ok(255));
    run(&mut clock, &mut mmu, 64);
    assert_eq!(mmu.read_byte(0xFF04), Ok(0));
}

#[test]
fn divider_write_resets_the_count() {
    let mut mmu = memory();
    let mut clock = Clock::default();
    run(&mut clock, &mut mmu, 63);
    run(&mut clock, &mut mmu, 64);
    assert_eq!(mmu.read_byte(0xFF04), Ok(1));
    mmu.write_byte(0xFF04, 0x99).ok().unwrap();
    run(&mut clock, &mut mmu, 1);
    assert_eq!(mmu.read_byte(0xFF04), Ok(0));
    run(&mut clock, &mut mmu, 63);
    assert_eq!(mmu.read_byte(0xFF04), Ok(0));
    run(&mut clock, &mut mmu, 1);
    assert_eq!(mmu.read_byte(0xFF04), Ok(1));
}

#[test]
fn pool_of_cycles() {
    let mut mmu = memory();
    let mut clock = Clock::default();
    assert_eq!(clock.t_cycles(), 0);
    clock.add_cycles(3);
    clock.add_cycles(2);
    assert_eq!(clock.t_cycles(), 20);
    assert_eq!(clock.finalize_cycle(&mut mmu), Ok(5));
    assert_eq!(clock.t_cycles(), 0);
    assert_eq!(clock.finalize_cycle(&mut mmu), Ok(0));
    clock.add_cycles(7);
    clock.reset();
    assert_eq!(clock.t_cycles(), 0);
}

#[test]
fn timer_control_fields() {
    assert_eq!(TimerControl::from(0b000), TimerControl { enabled: false, clock_select: 1024 });
    assert_eq!(TimerControl::from(0b001), TimerControl { enabled: false, clock_select: 16 });
    assert_eq!(TimerControl::from(0b110), TimerControl { enabled: true, clock_select: 64 });
    assert_eq!(TimerControl::from(0b111), TimerControl { enabled: true, clock_select: 256 });
    assert_eq!(TimerControl::from(0xFC), TimerControl { enabled: true, clock_select: 1024 });
    assert_eq!(SpeedMode::Single.oscillation(), 4194300);
    assert_eq!(SpeedMode::Double.oscillation(), 8388600);
    assert_eq!(SpeedMode::default(), SpeedMode::Single);
}
