//! The console: one step runs an instruction, the timers, the interrupts
//! and the serial port, in that order.

use crate::hardware::cartridge_header::{
    cartridge_type_of, header_error, read_from, Cartridge, CartridgeError, CARTRIDGE_TYPE,
};
use crate::hardware::clock::{register_at, Clock, ClockView, TimerError};
use crate::hardware::cpu::{
    describes, done, interrupt_step, tick_step, Error as CpuError, Fault, Outcome, CPU, TCPU,
};
use crate::hardware::mmu::{mbc_type_of, Error as MmuError, MbcType, MmuView, MMU};
use vstd::prelude::*;

verus! {

/// The serial transfer data register.
pub const SB_ADDR: u16 = 0xFF01;

/// The serial transfer control register.
pub const SC_ADDR: u16 = 0xFF02;

/// The value of the serial control register that asks for a byte to be
/// sent.
pub const SERIAL_TRANSFER: u8 = 0x81;

/// A device attached to the console. A serial port holds the characters that
/// it has received so far, the first one first.
#[derive(Debug)]
pub enum Peripheral {
    SerialPort(Vec<char>),
}

impl View for Peripheral {
    type V = Seq<char>;

    open spec fn view(&self) -> Seq<char> {
        match self {
            Peripheral::SerialPort(received) => received@,
        }
    }
}

/// The console: the cartridge header, the clock, the processor, the memory
/// unit, and the attached devices.
pub struct GameBoy {
    cartridge: Cartridge,
    clock: Clock,
    cpu: CPU,
    mmu: MMU,
    peripherals: Vec<Peripheral>,
}

/// Why the console could not be built or stopped.
#[derive(Debug)]
pub enum GameBoyError {
    Unknown,
    Cpu(CpuError),
    Mmu(MmuError),
    Cartridge(CartridgeError),
    Timer(TimerError),
}

impl Default for GameBoyError {
    fn default() -> (r: Self)
        ensures
            r is Unknown,
    {
        GameBoyError::Unknown
    }
}

impl From<CpuError> for GameBoyError {
    fn from(e: CpuError) -> (r: Self) {
        GameBoyError::Cpu(e)
    }
}

impl vstd::std_specs::convert::FromSpecImpl<CpuError> for GameBoyError {
    open spec fn obeys_from_spec() -> bool {
        true
    }

    open spec fn from_spec(e: CpuError) -> Self {
        GameBoyError::Cpu(e)
    }
}

impl From<MmuError> for GameBoyError {
    fn from(e: MmuError) -> (r: Self) {
        GameBoyError::Mmu(e)
    }
}

impl vstd::std_specs::convert::FromSpecImpl<MmuError> for GameBoyError {
    open spec fn obeys_from_spec() -> bool {
        true
    }

    open spec fn from_spec(e: MmuError) -> Self {
        GameBoyError::Mmu(e)
    }
}

impl From<CartridgeError> for GameBoyError {
    fn from(e: CartridgeError) -> (r: Self) {
        GameBoyError::Cartridge(e)
    }
}

impl vstd::std_specs::convert::FromSpecImpl<CartridgeError> for GameBoyError {
    open spec fn obeys_from_spec() -> bool {
        true
    }

    open spec fn from_spec(e: CartridgeError) -> Self {
        GameBoyError::Cartridge(e)
    }
}

impl From<TimerError> for GameBoyError {
    fn from(e: TimerError) -> (r: Self) {
        GameBoyError::Timer(e)
    }
}

impl vstd::std_specs::convert::FromSpecImpl<TimerError> for GameBoyError {
    open spec fn obeys_from_spec() -> bool {
        true
    }

    open spec fn from_spec(e: TimerError) -> Self {
        GameBoyError::Timer(e)
    }
}

/// What the console holds.
pub struct GameBoyView {
    pub cpu: CPU,
    pub mem: MmuView,
    pub clock: ClockView,
    /// What each attached device has received, in the order of attachment.
    pub ports: Seq<Seq<char>>,
}

/// Where a step leaves the console, and the machine cycles it took or the
/// fault that stopped it.
pub struct CycleOutcome {
    pub state: GameBoyView,
    pub result: Result<usize, Fault>,
}

/// Whether the program has asked for a byte to be sent over the serial port.
pub open spec fn serial_ready(mem: MmuView) -> bool {
    register_at(mem, SC_ADDR) == SERIAL_TRANSFER
}

/// The memory after the devices have been served: where a byte has been asked
/// for and a device is attached, the serial control register is cleared.
pub open spec fn serial_mem(mem: MmuView, ports: Seq<Seq<char>>) -> MmuView {
    if ports.len() > 0 && serial_ready(mem) {
        mem.after_write_byte(SC_ADDR, 0)
    } else {
        mem
    }
}

/// What the devices have received after they have been served: where a byte
/// has been asked for, the first device receives the byte of the serial data
/// register as a character.
pub open spec fn serial_ports(mem: MmuView, ports: Seq<Seq<char>>) -> Seq<Seq<char>> {
    if ports.len() > 0 && serial_ready(mem) {
        ports.update(0, ports[0].push(register_at(mem, SB_ADDR) as char))
    } else {
        ports
    }
}

impl GameBoyView {
    /// The invariant of the console between two steps: its parts are well
    /// formed and the pool of the clock is empty.
    pub open spec fn wf(self) -> bool {
        &&& self.cpu.spec_wf()
        &&& self.mem.wf()
        &&& self.clock.wf()
        &&& self.clock.cycles == 0
    }

    /// The console stopped by a fault, with the processor and the memory as
    /// the faulting step left them.
    pub open spec fn stopped(self, at: Outcome) -> CycleOutcome {
        CycleOutcome {
            state: GameBoyView { cpu: at.cpu, mem: at.mem, ..self },
            result: Err(at.result->Err_0),
        }
    }

    /// The second half of a step, after the instruction has run and the
    /// timers have counted its cycles: a halted processor wakes where an
    /// interrupt is pending, whatever the master enable says; the pending
    /// interrupt is acknowledged where the master enable allows it, and the
    /// timers count the cycles of that too; then the devices are served.
    pub open spec fn after_timers(self, cycles: u8) -> CycleOutcome {
        let woken = if self.cpu.halt && self.mem.pending() is Some {
            CPU { halt: false, ..self.cpu }
        } else {
            self.cpu
        };
        let ack = interrupt_step(woken, self.mem);
        match ack.result {
            Err(_) => self.stopped(ack),
            Ok(more) => {
                let clock = if more > 0 {
                    self.clock.with_cycles(more as nat).finalized(ack.mem)
                } else {
                    self.clock
                };
                let mem = if more > 0 {
                    self.clock.with_cycles(more as nat).mem_finalized(ack.mem)
                } else {
                    ack.mem
                };
                CycleOutcome {
                    state: GameBoyView {
                        cpu: ack.cpu,
                        mem: serial_mem(mem, self.ports),
                        clock,
                        ports: serial_ports(mem, self.ports),
                    },
                    result: Ok((cycles + more) as usize),
                }
            },
        }
    }

    /// One step of the console. A running processor carries out one
    /// instruction; a halted one idles for one machine cycle. The timers count
    /// the cycles, and the step goes on as `after_timers` says. The step gives
    /// the machine cycles that the instruction and the acknowledgement took.
    pub open spec fn cycle_step(self) -> CycleOutcome {
        let ran = if self.cpu.halt {
            done(self.cpu, self.mem, 1)
        } else {
            tick_step(self.cpu, self.mem)
        };
        match ran.result {
            Err(_) => self.stopped(ran),
            Ok(cycles) => (GameBoyView {
                cpu: ran.cpu,
                mem: self.clock.with_cycles(cycles as nat).mem_finalized(ran.mem),
                clock: self.clock.with_cycles(cycles as nat).finalized(ran.mem),
                ports: self.ports,
            }).after_timers(cycles),
        }
    }

    /// The console after up to `steps` steps: it stops at the first fault.
    pub open spec fn run(self, steps: nat) -> (GameBoyView, Option<Fault>)
        decreases steps,
    {
        if steps == 0 {
            (self, None)
        } else {
            let before = self.run((steps - 1) as nat);
            match before.1 {
                Some(_) => before,
                None => (
                    before.0.cycle_step().state,
                    match before.0.cycle_step().result {
                        Ok(_) => None,
                        Err(fault) => Some(fault),
                    },
                ),
            }
        }
    }
}

/// Whether what a step returned is what was to be returned.
pub open spec fn cycle_agrees(
    returned: Result<usize, GameBoyError>,
    expected: Result<usize, Fault>,
) -> bool {
    match (returned, expected) {
        (Ok(cycles), Ok(expected_cycles)) => cycles == expected_cycles,
        (Err(GameBoyError::Cpu(error)), Err(fault)) => describes(error, fault),
        _ => false,
    }
}

impl View for GameBoy {
    type V = GameBoyView;

    closed spec fn view(&self) -> GameBoyView {
        GameBoyView {
            cpu: self.cpu,
            mem: self.mmu@,
            clock: self.clock@,
            ports: Seq::new(self.peripherals@.len(), |i: int| self.peripherals@[i]@),
        }
    }
}

impl GameBoy {
    /// What the header of the ROM image says of the cartridge.
    pub closed spec fn header(&self) -> Cartridge {
        self.cartridge
    }

    /// Builds the console around a ROM image: the header is read, the
    /// processor is put in the state that the boot program leaves, and the
    /// memory unit is built for the cartridge kind that the header names.
    pub fn new(rom: &[u8]) -> (r: Result<GameBoy, GameBoyError>)
        ensures
            match r {
                Ok(gameboy) => {
                    &&& header_error(rom@) is None
                    &&& gameboy@.wf()
                    &&& gameboy@.ports.len() == 0
                    &&& gameboy@.clock == (ClockView { cycles: 0, div_cycles: 0, tima_cycles: 0 })
                    &&& !gameboy@.cpu.halt
                    &&& !gameboy@.cpu.pending_enable
                    &&& gameboy@.cpu.registers.pc.value == 0x0100
                    &&& gameboy@.cpu.registers.sp.value == 0xFFFE
                    &&& gameboy@.cpu.registers.a.value == 0x01
                    &&& gameboy@.cpu.registers.f.value == 0xB0
                    &&& gameboy@.cpu.registers.spec_bc() == 0x0013
                    &&& gameboy@.cpu.registers.spec_de() == 0x00D8
                    &&& gameboy@.cpu.registers.spec_hl() == 0x014D
                    &&& read_from(gameboy.header(), rom@)
                    &&& gameboy@.mem.fresh(rom@, gameboy.header().cartridge_type)
                },
                Err(GameBoyError::Cartridge(e)) => header_error(rom@) == Some(e),
                Err(GameBoyError::Mmu(e)) => header_error(rom@) is None && e
                    == MmuError::CreateError && (cartridge_type_of(rom@[CARTRIDGE_TYPE as int])
                    matches Some(kind) && mbc_type_of(kind) != MbcType::Rom && mbc_type_of(kind)
                    != MbcType::Mbc1),
                Err(_) => false,
            },
    {
        let cartridge = match Cartridge::new(rom) {
            Ok(cartridge) => cartridge,
            Err(e) => {
                return Err(GameBoyError::from(e));
            },
        };
        let cpu = match CPU::new() {
            Ok(cpu) => cpu,
            Err(e) => {
                return Err(GameBoyError::from(e));
            },
        };
        let mmu = match MMU::new(rom, &cartridge.cartridge_type) {
            Ok(mmu) => mmu,
            Err(e) => {
                return Err(GameBoyError::from(e));
            },
        };
        let clock = Clock::default();
        let gameboy = GameBoy { cpu, mmu, clock, cartridge, peripherals: Vec::new() };
        proof {
            assert(gameboy@.ports =~= Seq::<Seq<char>>::empty());
        }
        Ok(gameboy)
    }

    /// Runs one step and gives the machine cycles it took.
    pub fn cycle(&mut self) -> (r: Result<usize, GameBoyError>)
        requires
            old(self)@.wf(),
        ensures
            final(self)@.wf(),
            final(self)@ == old(self)@.cycle_step().state,
            cycle_agrees(r, old(self)@.cycle_step().result),
    {
        let ghost start = self@;
        let cycles = if !self.cpu.halt {
            match self.cpu.tick(&mut self.mmu) {
                Ok(cycles) => cycles,
                Err(e) => {
                    proof {
                        assert(self@.ports =~= start.ports);
                    }
                    return Err(GameBoyError::Cpu(e));
                },
            }
        } else {
            1
        };
        self.clock.add_cycles(cycles);
        let _ = self.clock.finalize_cycle(&mut self.mmu);
        let scheduled = match self.mmu.interrupts_scheduled() {
            Ok(scheduled) => scheduled,
            Err(_) => false,
        };
        if self.cpu.halt && scheduled {
            self.cpu.halt = false;
        }
        let interrupt_cycles = match self.cpu.handle_interrupts(&mut self.mmu) {
            Ok(interrupt_cycles) => interrupt_cycles,
            Err(e) => {
                proof {
                    assert(self@.ports =~= start.ports);
                }
                return Err(GameBoyError::Cpu(e));
            },
        };
        if interrupt_cycles > 0 {
            self.clock.add_cycles(interrupt_cycles);
            let _ = self.clock.finalize_cycle(&mut self.mmu);
        }
        proof {
            assert(self@.ports =~= start.ports);
        }
        self.handle_peripherals()?;
        Ok(cycles as usize + interrupt_cycles as usize)
    }

    /// Runs up to `steps` steps and stops at the first one that fails.
    pub fn start(&mut self, steps: usize) -> (r: Result<(), GameBoyError>)
        requires
            old(self)@.wf(),
        ensures
            final(self)@.wf(),
            final(self)@ == old(self)@.run(steps as nat).0,
            match (r, old(self)@.run(steps as nat).1) {
                (Ok(()), None) => true,
                (Err(GameBoyError::Cpu(error)), Some(fault)) => describes(error, fault),
                _ => false,
            },
    {
        let mut done: usize = 0;
        while done < steps
            invariant
                done <= steps,
                self@.wf(),
                self@ == old(self)@.run(done as nat).0,
                old(self)@.run(done as nat).1 is None,
            decreases steps - done,
        {
            let ghost before = self@;
            let result = self.cycle();
            proof {
                assert(old(self)@.run((done + 1) as nat).0 == before.cycle_step().state);
            }
            match result {
                Ok(_) => {},
                Err(e) => {
                    proof {
                        Self::lemma_run_stops(old(self)@, (done + 1) as nat, steps as nat);
                    }
                    return Err(e);
                },
            }
            done += 1;
        }
        Ok(())
    }

    /// Once a run has stopped at a fault, more steps change nothing.
    pub proof fn lemma_run_stops(start: GameBoyView, stopped: nat, steps: nat)
        requires
            stopped <= steps,
            start.run(stopped).1 is Some,
        ensures
            start.run(steps) == start.run(stopped),
        decreases steps,
    {
        if stopped < steps {
            Self::lemma_run_stops(start, stopped, (steps - 1) as nat);
        }
    }

    /// Serves the attached devices: where the program has asked for a byte to
    /// be sent, the first serial port receives it and the request is
    /// cleared.
    pub fn handle_peripherals(&mut self) -> (r: Result<(), GameBoyError>)
        requires
            old(self)@.mem.wf(),
        ensures
            r is Ok,
            final(self)@ == (GameBoyView {
                mem: serial_mem(old(self)@.mem, old(self)@.ports),
                ports: serial_ports(old(self)@.mem, old(self)@.ports),
                ..old(self)@
            }),
            final(self)@.mem.wf(),
    {
        let ghost start = self@;
        let count = self.peripherals.len();
        let mut index: usize = 0;
        proof {
            assert(self@.ports =~= start.ports);
        }
        while index < count
            invariant
                index <= count,
                count == self.peripherals.len(),
                start.ports.len() == count,
                self.mmu.wf(),
                start.mem.wf(),
                self@.cpu == start.cpu,
                self@.clock == start.clock,
                index == 0 ==> self@.mem == start.mem && self@.ports == start.ports,
                index > 0 ==> self@.mem == serial_mem(start.mem, start.ports) && self@.ports
                    == serial_ports(start.mem, start.ports),
            decreases count - index,
        {
            let ghost before = self@;
            let sc = match self.mmu.read_byte(SC_ADDR) {
                Ok(sc) => sc,
                Err(_) => 0,
            };
            if sc == SERIAL_TRANSFER {
                let _ = self.mmu.write_byte(SC_ADDR, 0);
                let data = match self.mmu.read_byte(SB_ADDR) {
                    Ok(data) => data,
                    Err(_) => 0,
                };
                match &mut self.peripherals[index] {
                    Peripheral::SerialPort(received) => {
                        received.push(data as char);
                    },
                }
                proof {
                    assert(index == 0);
                    assert(self@.ports =~= serial_ports(start.mem, start.ports));
                }
            } else {
                proof {
                    assert(self@.ports =~= before.ports);
                }
            }
            index += 1;
        }
        Ok(())
    }

    /// Attaches a device.
    pub fn attach_peripheral(&mut self, p: Peripheral)
        ensures
            final(self)@ == (GameBoyView { ports: old(self)@.ports.push(p@), ..old(self)@ }),
    {
        self.peripherals.push(p);
        proof {
            assert(self@.ports =~= old(self)@.ports.push(p@));
        }
    }

    /// The attached devices, in the order of attachment.
    pub fn peripherals(&self) -> (r: &Vec<Peripheral>)
        ensures
            r@.len() == self@.ports.len(),
            forall|i: int| 0 <= i < r@.len() ==> #[trigger] r@[i]@ == self@.ports[i],
    {
        &self.peripherals
    }

    /// The processor.
    pub fn cpu(&self) -> (r: &CPU)
        ensures
            *r == self@.cpu,
    {
        &self.cpu
    }

    /// The processor, for the caller to set up.
    pub fn cpu_mut(&mut self) -> (r: &mut CPU)
        ensures
            *r == old(self)@.cpu,
            final(self)@ == (GameBoyView { cpu: *final(r), ..old(self)@ }),
    {
        &mut self.cpu
    }

    /// The memory unit.
    pub fn mmu(&self) -> (r: &MMU)
        ensures
            r@ == self@.mem,
    {
        &self.mmu
    }

    /// The memory unit, for the caller to set up.
    pub fn mmu_mut(&mut self) -> (r: &mut MMU)
        ensures
            r@ == old(self)@.mem,
            final(self)@ == (GameBoyView { mem: final(r)@, ..old(self)@ }),
    {
        &mut self.mmu
    }

    /// The header of the cartridge.
    pub fn cartridge(&self) -> (r: &Cartridge)
        ensures
            *r == self.header(),
    {
        &self.cartridge
    }
}

} // verus!
