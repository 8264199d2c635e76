//! The clock: it collects the machine cycles of each step and counts them
//! into the divider and the timer counter.

use crate::hardware::hardware_registers::{HardwareView, Interrupt, DIV_ADDR, HW_BASE};
use crate::hardware::mmu::{Error as MMUError, MmuView, IF_ADDR, MMU};
use crate::util::byte_ops::lemma_byte_fields;
use vstd::prelude::*;

verus! {

/// The timer counter.
pub const TIMA_ADDR: u16 = 0xFF05;

/// The timer modulo, which the counter is reloaded from when it overflows.
pub const TMA_ADDR: u16 = 0xFF06;

/// The timer control.
pub const TAC_ADDR: u16 = 0xFF07;

/// The machine cycles between two steps of the divider: 256 clock cycles.
pub const DIV_PERIOD: usize = 64;

/// The most machine cycles that the clock collects between two updates of
/// the timers.
pub const CYCLE_POOL_LIMIT: usize = 0x0FFF_FFFF;

/// Why the timers could not be updated.
#[derive(Debug, Clone, Copy, PartialEq, Eq, Structural)]
pub enum TimerError {
    MMUError(MMUError),
}

impl From<MMUError> for TimerError {
    fn from(value: MMUError) -> (r: Self) {
        TimerError::MMUError(value)
    }
}

impl vstd::std_specs::convert::FromSpecImpl<MMUError> for TimerError {
    open spec fn obeys_from_spec() -> bool {
        true
    }

    open spec fn from_spec(value: MMUError) -> Self {
        TimerError::MMUError(value)
    }
}

/// The two speeds of the system clock.
#[derive(Debug, Clone, Copy, PartialEq, Eq, Structural)]
pub enum SpeedMode {
    Single,
    Double,
}

impl Default for SpeedMode {
    fn default() -> (r: Self)
        ensures
            r == SpeedMode::Single,
    {
        SpeedMode::Single
    }
}

impl SpeedMode {
    /// The clock cycles per second.
    pub fn oscillation(&self) -> (r: usize)
        ensures
            r == match *self {
                SpeedMode::Single => 4194300usize,
                SpeedMode::Double => 8388600usize,
            },
    {
        match self {
            SpeedMode::Single => 4194300,
            SpeedMode::Double => 8388600,
        }
    }
}

/// The timer control byte, taken apart: bit 2 enables the timer, bits 1..0
/// pick the clock cycles between two steps of the counter.
#[derive(Debug, Clone, Copy, PartialEq, Eq, Structural)]
pub struct TimerControl {
    pub enabled: bool,
    pub clock_select: usize,
}

/// Whether a timer control byte enables the timer.
pub open spec fn tac_enabled(tac: u8) -> bool {
    (tac / 4) % 2 == 1
}

/// The clock cycles between two steps of the counter that a timer control
/// byte picks.
pub open spec fn tac_period(tac: u8) -> usize {
    if tac % 4 == 0 {
        1024
    } else if tac % 4 == 1 {
        16
    } else if tac % 4 == 2 {
        64
    } else {
        256
    }
}

impl From<u8> for TimerControl {
    fn from(value: u8) -> (r: Self) {
        proof {
            lemma_byte_fields(value);
        }
        let enabled = ((value & 0b100) >> 2) == 1;
        let clock_select = match value & 0b011 {
            0b00 => 1024,
            0b01 => 16,
            0b10 => 64,
            _ => 256,
        };
        Self { enabled, clock_select }
    }
}

impl vstd::std_specs::convert::FromSpecImpl<u8> for TimerControl {
    open spec fn obeys_from_spec() -> bool {
        true
    }

    open spec fn from_spec(value: u8) -> Self {
        TimerControl { enabled: tac_enabled(value), clock_select: tac_period(value) }
    }
}

/// The timer counter one step on: it reloads from the modulo after 255.
pub open spec fn tima_next(tima: u8, tma: u8) -> u8 {
    if tima == 255 {
        tma
    } else {
        (tima + 1) as u8
    }
}

/// The timer counter after a number of steps.
pub open spec fn tima_after(tima: u8, tma: u8, steps: nat) -> u8
    decreases steps,
{
    if steps == 0 {
        tima
    } else {
        tima_next(tima_after(tima, tma, (steps - 1) as nat), tma)
    }
}

/// Whether the timer counter overflows within a number of steps.
pub open spec fn tima_overflows(tima: u8, tma: u8, steps: nat) -> bool
    decreases steps,
{
    if steps == 0 {
        false
    } else {
        tima_overflows(tima, tma, (steps - 1) as nat) || tima_after(
            tima,
            tma,
            (steps - 1) as nat,
        ) == 255
    }
}

/// The hardware register at an address of the block.
pub open spec fn register_at(mem: MmuView, address: u16) -> u8 {
    mem.hardware.registers[address - HW_BASE]
}

/// The memory with other bytes in the timer counter and the interrupt flags.
pub open spec fn with_timer(mem: MmuView, tima: u8, flags: u8) -> MmuView {
    MmuView {
        hardware: HardwareView {
            registers: mem.hardware.registers.update(TIMA_ADDR - HW_BASE, tima).update(
                IF_ADDR - HW_BASE,
                flags,
            ),
            ..mem.hardware
        },
        ..mem
    }
}

/// The memory with another byte in the divider, and without the mark of a
/// reset.
pub open spec fn with_divider(mem: MmuView, div: u8) -> MmuView {
    MmuView {
        hardware: HardwareView {
            registers: mem.hardware.registers.update(DIV_ADDR - HW_BASE, div),
            divider_reset: false,
        },
        ..mem
    }
}

/// What the clock counts.
pub struct ClockView {
    /// The machine cycles collected since the timers were last updated.
    pub cycles: nat,
    /// The machine cycles towards the next step of the divider.
    pub div_cycles: nat,
    /// The clock cycles towards the next step of the timer counter.
    pub tima_cycles: nat,
}

impl ClockView {
    /// The pool is within its limit and each count is below a full period.
    pub open spec fn wf(self) -> bool {
        &&& self.cycles <= CYCLE_POOL_LIMIT
        &&& self.div_cycles < DIV_PERIOD
        &&& self.tima_cycles < 1024
    }

    /// The steps that the timer counter takes when the collected cycles are
    /// counted in.
    pub open spec fn tima_steps(self, mem: MmuView) -> nat {
        ((self.tima_cycles + self.cycles * 4) / tac_period(register_at(mem, TAC_ADDR)) as nat) as nat
    }

    /// The clock after the timer counter has been updated: with the timer
    /// enabled, the collected cycles are counted in, four clock cycles to the
    /// machine cycle, and what does not make up a step is kept.
    pub open spec fn after_tima(self, mem: MmuView) -> ClockView {
        if tac_enabled(register_at(mem, TAC_ADDR)) {
            ClockView {
                tima_cycles: (self.tima_cycles + self.cycles * 4) % tac_period(
                    register_at(mem, TAC_ADDR),
                ) as nat,
                ..self
            }
        } else {
            self
        }
    }

    /// The memory after the timer counter has been updated: with the timer
    /// enabled, the counter has taken its steps, and where it overflowed on
    /// the way the timer interrupt is requested.
    pub open spec fn mem_after_tima(self, mem: MmuView) -> MmuView {
        if tac_enabled(register_at(mem, TAC_ADDR)) {
            let tima = register_at(mem, TIMA_ADDR);
            let tma = register_at(mem, TMA_ADDR);
            let steps = self.tima_steps(mem);
            with_timer(
                mem,
                tima_after(tima, tma, steps),
                if tima_overflows(tima, tma, steps) {
                    register_at(mem, IF_ADDR) | 0b100
                } else {
                    register_at(mem, IF_ADDR)
                },
            )
        } else {
            mem
        }
    }

    /// The clock after the divider has been updated: the collected cycles are
    /// counted in and what does not make up a step is kept. A write to the
    /// divider since the last update clears the count instead.
    pub open spec fn after_div(self, mem: MmuView) -> ClockView {
        if mem.hardware.divider_reset {
            ClockView { div_cycles: 0, ..self }
        } else {
            ClockView { div_cycles: (self.div_cycles + self.cycles) % DIV_PERIOD as nat, ..self }
        }
    }

    /// The memory after the divider has been updated: it has taken one step
    /// for every 64 machine cycles, with wrap-around. After a write to the
    /// divider since the last update it stays as the write left it, and the
    /// mark of the write is taken away.
    pub open spec fn mem_after_div(self, mem: MmuView) -> MmuView {
        if mem.hardware.divider_reset {
            with_divider(mem, register_at(mem, DIV_ADDR))
        } else {
            with_divider(
                mem,
                ((register_at(mem, DIV_ADDR) + (self.div_cycles + self.cycles) / DIV_PERIOD as nat)
                    % 256) as u8,
            )
        }
    }
}

impl ClockView {
    /// The clock with more machine cycles in its pool.
    pub open spec fn with_cycles(self, cycles: nat) -> ClockView {
        ClockView { cycles: self.cycles + cycles, ..self }
    }

    /// The clock after both timers have been updated and the pool has been
    /// emptied. The timer counter comes first, the divider second.
    pub open spec fn finalized(self, mem: MmuView) -> ClockView {
        ClockView {
            cycles: 0,
            ..self.after_tima(mem).after_div(self.mem_after_tima(mem))
        }
    }

    /// The memory after both timers have been updated.
    pub open spec fn mem_finalized(self, mem: MmuView) -> MmuView {
        self.after_tima(mem).mem_after_div(self.mem_after_tima(mem))
    }
}

/// An overflow of the timer counter reloads it from the modulo and requests
/// the timer interrupt in the same update: the step after 255 gives the
/// modulo, and an update in which the counter overflows sets bit 2 of the
/// interrupt flags and leaves their other bits alone.
pub proof fn lemma_timer_overflow(clock: ClockView, mem: MmuView, tma: u8)
    requires
        mem.wf(),
        tac_enabled(register_at(mem, TAC_ADDR)),
        tima_overflows(
            register_at(mem, TIMA_ADDR),
            register_at(mem, TMA_ADDR),
            clock.tima_steps(mem),
        ),
    ensures
        tima_after(255, tma, 1) == tma,
        tima_overflows(255, tma, 1),
        register_at(clock.mem_after_tima(mem), IF_ADDR) == register_at(mem, IF_ADDR) | 0b100,
        register_at(clock.mem_after_tima(mem), TIMA_ADDR) == tima_after(
            register_at(mem, TIMA_ADDR),
            register_at(mem, TMA_ADDR),
            clock.tima_steps(mem),
        ),
{
    reveal_with_fuel(tima_after, 2);
    reveal_with_fuel(tima_overflows, 2);
}

/// With the fastest timer enabled, sixteen clock cycles from an empty count
/// are one step of the timer counter.
pub proof fn lemma_sixteen_cycles_one_step(clock: ClockView, mem: MmuView)
    requires
        mem.wf(),
        register_at(mem, TAC_ADDR) % 8 == 0b101,
        clock.tima_cycles == 0,
        clock.cycles == 4,
    ensures
        tac_enabled(register_at(mem, TAC_ADDR)),
        tac_period(register_at(mem, TAC_ADDR)) == 16,
        clock.tima_steps(mem) == 1,
        clock.after_tima(mem).tima_cycles == 0,
        register_at(clock.mem_after_tima(mem), TIMA_ADDR) == tima_next(
            register_at(mem, TIMA_ADDR),
            register_at(mem, TMA_ADDR),
        ),
{
    reveal_with_fuel(tima_after, 2);
    reveal_with_fuel(tima_overflows, 2);
}

/// Without an overflow the update of the timer counter leaves the interrupt
/// flags alone.
pub proof fn lemma_timer_without_overflow(clock: ClockView, mem: MmuView)
    requires
        mem.wf(),
        !tac_enabled(register_at(mem, TAC_ADDR)) || !tima_overflows(
            register_at(mem, TIMA_ADDR),
            register_at(mem, TMA_ADDR),
            clock.tima_steps(mem),
        ),
    ensures
        register_at(clock.mem_after_tima(mem), IF_ADDR) == register_at(mem, IF_ADDR),
{
}

/// The clock: the pool of machine cycles that the processor has spent since
/// the timers were last updated, and the counts towards the next steps of the
/// divider and of the timer counter.
pub struct Clock {
    cycles: usize,
    speed_mode: SpeedMode,
    div_cycles: usize,
    tima_cycles: usize,
}

impl View for Clock {
    type V = ClockView;

    closed spec fn view(&self) -> ClockView {
        ClockView {
            cycles: self.cycles as nat,
            div_cycles: self.div_cycles as nat,
            tima_cycles: self.tima_cycles as nat,
        }
    }
}

impl Default for Clock {
    fn default() -> (r: Self)
        ensures
            r@ == (ClockView { cycles: 0, div_cycles: 0, tima_cycles: 0 }),
            r@.wf(),
    {
        Clock { cycles: 0, speed_mode: SpeedMode::default(), div_cycles: 0, tima_cycles: 0 }
    }
}

/// If what is left of a total after `count` periods is less than a period,
/// `count` is the quotient and what is left is the remainder.
pub proof fn lemma_quotient(total: int, period: int, count: int)
    by (nonlinear_arith)
    requires
        period > 0,
        0 <= total - count * period < period,
    ensures
        count == total / period,
        total - count * period == total % period,
{
}

/// One step on from a number taken modulo 256 is the next number taken
/// modulo 256.
pub proof fn lemma_wrapping_step(n: int)
    requires
        n >= 0,
    ensures
        (if n % 256 == 255 {
            0
        } else {
            n % 256 + 1
        }) == (n + 1) % 256,
{
}

impl Clock {
    /// Empties the pool of machine cycles.
    pub fn reset(&mut self)
        ensures
            final(self)@ == (ClockView { cycles: 0, ..old(self)@ }),
    {
        self.cycles = 0;
    }

    /// Adds machine cycles to the pool.
    pub fn add_cycles(&mut self, cycles: u8)
        requires
            old(self)@.cycles + cycles <= CYCLE_POOL_LIMIT,
        ensures
            final(self)@ == old(self)@.with_cycles(cycles as nat),
    {
        self.cycles += cycles as usize;
    }

    /// The clock cycles in the pool: four to the machine cycle.
    pub fn t_cycles(&self) -> (r: usize)
        requires
            self@.cycles <= CYCLE_POOL_LIMIT,
        ensures
            r == self@.cycles * 4,
    {
        self.cycles * 4
    }

    /// Updates the timer counter and the divider with the cycles of the pool,
    /// empties the pool, and gives the machine cycles it held.
    pub fn finalize_cycle(&mut self, mmu: &mut MMU) -> (r: Result<usize, TimerError>)
        requires
            old(self)@.wf(),
            old(mmu).wf(),
        ensures
            final(self)@.wf(),
            final(mmu).wf(),
            r == Ok::<usize, TimerError>(old(self)@.cycles as usize),
            final(self)@ == old(self)@.finalized(old(mmu)@),
            final(mmu)@ == old(self)@.mem_finalized(old(mmu)@),
            final(self)@.cycles == 0,
    {
        let _current_cpu_frequency = self.speed_mode.oscillation();
        self.update_tima(mmu)?;
        self.update_div(mmu)?;
        let final_cycles = self.cycles;
        self.cycles = 0;
        Ok(final_cycles)
    }

    /// Counts the cycles of the pool into the timer counter.
    pub fn update_tima(&mut self, mmu: &mut MMU) -> (r: Result<(), TimerError>)
        requires
            old(self)@.wf(),
            old(mmu).wf(),
        ensures
            final(self)@.wf(),
            final(mmu).wf(),
            r == Ok::<(), TimerError>(()),
            final(self)@ == old(self)@.after_tima(old(mmu)@),
            final(mmu)@ == old(self)@.mem_after_tima(old(mmu)@),
    {
        let tac = Self::read_register(mmu, TAC_ADDR);
        let timer_control = TimerControl::from(tac);
        let tac_frequency = timer_control.clock_select;
        if !timer_control.enabled {
            return Ok(());
        }
        let tma = Self::read_register(mmu, TMA_ADDR);
        let ghost start = mmu@;
        let ghost tima = register_at(start, TIMA_ADDR);
        let ghost flags = register_at(start, IF_ADDR);
        let ghost total = self.tima_cycles + self.cycles * 4;
        let ghost mut steps: nat = 0;
        self.tima_cycles += self.t_cycles();
        proof {
            assert(mmu@ =~= with_timer(start, tima, flags)) by {
                assert(mmu@.hardware.registers =~= with_timer(start, tima, flags).hardware.registers);
            }
        }
        while self.tima_cycles >= tac_frequency
            invariant
                mmu.wf(),
                tac_frequency == tac_period(tac),
                self.cycles == old(self).cycles,
                self.div_cycles == old(self).div_cycles,
                self.tima_cycles == total - steps * tac_frequency,
                total <= 1024 + 4 * CYCLE_POOL_LIMIT,
                start.wf(),
                tima == register_at(start, TIMA_ADDR),
                flags == register_at(start, IF_ADDR),
                tma == register_at(start, TMA_ADDR),
                mmu@ == with_timer(
                    start,
                    tima_after(tima, tma, steps),
                    if tima_overflows(tima, tma, steps) {
                        flags | 0b100
                    } else {
                        flags
                    },
                ),
            decreases self.tima_cycles,
        {
            self.tima_cycles -= tac_frequency;
            let current = Self::read_register(mmu, TIMA_ADDR);
            let next_tima = match current.checked_add(1) {
                Some(next_tima) => next_tima,
                None => {
                    // the counter has overflowed: the interrupt is requested
                    Self::request_timer_interrupt(mmu);
                    tma
                },
            };
            Self::write_register(mmu, TIMA_ADDR, next_tima);
            proof {
                assert(steps * tac_frequency + tac_frequency == (steps + 1) * tac_frequency)
                    by (nonlinear_arith);
                steps = steps + 1;
                assert(flags | 0b100 | 0b100 == flags | 0b100) by (bit_vector);
                let expected = with_timer(
                    start,
                    tima_after(tima, tma, steps),
                    if tima_overflows(tima, tma, steps) {
                        flags | 0b100
                    } else {
                        flags
                    },
                );
                assert(mmu@.hardware.registers =~= expected.hardware.registers);
                assert(mmu@ =~= expected);
            }
        }
        proof {
            lemma_quotient(total as int, tac_frequency as int, steps as int);
        }
        Ok(())
    }

    /// Counts the cycles of the pool into the divider.
    pub fn update_div(&mut self, mmu: &mut MMU) -> (r: Result<(), TimerError>)
        requires
            old(self)@.wf(),
            old(mmu).wf(),
        ensures
            final(self)@.wf(),
            final(mmu).wf(),
            r == Ok::<(), TimerError>(()),
            final(self)@ == old(self)@.after_div(old(mmu)@),
            final(mmu)@ == old(self)@.mem_after_div(old(mmu)@),
    {
        let ghost start = mmu@;
        let ghost div = register_at(start, DIV_ADDR);
        if mmu.hardware_mut().take_divider_reset() {
            self.div_cycles = 0;
            proof {
                assert(mmu@.hardware.registers =~= with_divider(start, div).hardware.registers);
                assert(mmu@ =~= with_divider(start, div));
            }
            return Ok(());
        }
        let ghost total = self.div_cycles + self.cycles;
        let ghost mut steps: nat = 0;
        self.div_cycles += self.cycles;
        proof {
            assert(mmu@.hardware.registers =~= with_divider(start, div).hardware.registers);
            assert(mmu@ =~= with_divider(start, div));
        }
        while self.div_cycles >= DIV_PERIOD
            invariant
                total == old(self).div_cycles + old(self).cycles,
                mmu.wf(),
                start.wf(),
                div == register_at(start, DIV_ADDR),
                self.cycles == old(self).cycles,
                self.tima_cycles == old(self).tima_cycles,
                self.div_cycles == total - steps * 64,
                mmu@ == with_divider(start, ((div + steps) % 256) as u8),
            decreases self.div_cycles,
        {
            self.div_cycles -= DIV_PERIOD;
            let current = Self::read_register(mmu, DIV_ADDR);
            let next_div = current.wrapping_add(1);
            mmu.hardware_mut().set_divider(next_div);
            proof {
                assert(current == (div + steps) % 256);
                assert(next_div == (div + steps + 1) % 256) by {
                    lemma_wrapping_step(div as int + steps as int);
                }
                steps = steps + 1;
                let expected = with_divider(start, ((div + steps) % 256) as u8);
                assert(mmu@.hardware.registers =~= expected.hardware.registers);
                assert(mmu@ =~= expected);
            }
        }
        proof {
            lemma_quotient(total as int, 64, steps as int);
        }
        Ok(())
    }

    /// Reads a hardware register.
    fn read_register(mmu: &MMU, address: u16) -> (r: u8)
        requires
            mmu.wf(),
            HW_BASE <= address < HW_BASE + 0x80,
        ensures
            r == mmu@.hardware.peek(address),
    {
        match mmu.read_byte(address) {
            Ok(value) => value,
            Err(_) => 0,
        }
    }

    /// Writes a hardware register.
    fn write_register(mmu: &mut MMU, address: u16, value: u8)
        requires
            old(mmu).wf(),
            HW_BASE <= address < HW_BASE + 0x80,
        ensures
            final(mmu).wf(),
            final(mmu)@ == (MmuView {
                hardware: old(mmu)@.hardware.poke(address, value),
                ..old(mmu)@
            }),
    {
        let _ = mmu.write_byte(address, value);
    }

    /// Requests the timer interrupt.
    fn request_timer_interrupt(mmu: &mut MMU)
        requires
            old(mmu).wf(),
        ensures
            final(mmu).wf(),
            final(mmu)@ == (MmuView {
                hardware: old(mmu)@.hardware.poke(
                    IF_ADDR,
                    old(mmu)@.hardware.peek(IF_ADDR) | 0b100,
                ),
                ..old(mmu)@
            }),
    {
        let _ = mmu.set_interrupt_bit(Interrupt::Timer, true);
    }
}

} // verus!
