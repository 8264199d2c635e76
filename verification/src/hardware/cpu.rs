//! The processor: fetching, decoding and carrying out instructions, the
//! stack, and the acknowledgement of interrupts. What each of them does is
//! given as a function on the model of the machine (`tick_step`,
//! `execute_step`, `interrupt_step`), and the executable functions are proved
//! to follow it.

use crate::dasm::{describe_base, describe_cb, fields_in_range, DasmError, InstructionData};
use crate::hardware::mmu::{Error as MmuError, MmuView, MMU};
use crate::hardware::mnemonic::{mnemonic_name, Mnemonic};
use crate::hardware::opcode::{Instruction, CB_PREFIX};
use crate::hardware::opcodes::alu::alu_step;
use crate::hardware::opcodes::bitwise::bitwise_step;
use crate::hardware::opcodes::branch::branch_step;
use crate::hardware::opcodes::control::control_step;
use crate::hardware::opcodes::ld::ld_step;
use crate::hardware::opcodes::stack::stack_step;
use crate::hardware::register::{RegisterError, Registers, TRegister};
use vstd::prelude::*;

verus! {

/// The processor: its register file, whether it is halted, and whether `EI`
/// has asked for the master interrupt enable to be set at the top of the next
/// step.
pub struct CPU {
    pub registers: Registers,
    pub halt: bool,
    pub pending_enable: bool,
}

/// Why the processor stopped.
#[derive(Debug)]
pub enum Error {
    Default(String),
    InitializationError,
    /// An evaluator was handed an instruction of another family.
    UnexpectedOpcode(String),
    UnsupportedOpcode(Instruction),
    MmuError(MmuError),
    /// A byte that is no opcode was reached.
    DecodeError(DasmError),
    RegisterError(RegisterError),
    UnexpectedOpcodeState(InstructionData, u16),
}

impl From<RegisterError> for Error {
    fn from(reg_error: RegisterError) -> (r: Self) {
        Error::RegisterError(reg_error)
    }
}

impl vstd::std_specs::convert::FromSpecImpl<RegisterError> for Error {
    open spec fn obeys_from_spec() -> bool {
        true
    }

    open spec fn from_spec(reg_error: RegisterError) -> Self {
        Error::RegisterError(reg_error)
    }
}

impl From<MmuError> for Error {
    fn from(mmu_error: MmuError) -> (r: Self) {
        Error::MmuError(mmu_error)
    }
}

impl vstd::std_specs::convert::FromSpecImpl<MmuError> for Error {
    open spec fn obeys_from_spec() -> bool {
        true
    }

    open spec fn from_spec(mmu_error: MmuError) -> Self {
        Error::MmuError(mmu_error)
    }
}

/// The ways in which a step can fail.
pub enum Fault {
    /// A register selector that names no register, or a checked update of
    /// `PC` or `SP` that left the 16-bit range.
    Register(RegisterError),
    /// A memory access that the memory unit refused.
    Memory(MmuError),
    /// A byte that is no opcode.
    IllegalOpcode,
    /// An evaluator was handed an instruction of another family: the mnemonic
    /// it got, and the one it names for its own family.
    UnexpectedOpcode(Mnemonic, Mnemonic),
}

/// What the processor says of a byte that is no opcode.
pub open spec fn illegal_opcode_message() -> &'static str {
    "illegal opcode"
}

/// The text of the error for an instruction of another family.
pub open spec fn unexpected_op_message(received: Mnemonic, expected: Mnemonic) -> Seq<char> {
    "Called evaluate_ld with "@ + mnemonic_name(received) + " but expected type "@ + mnemonic_name(
        expected,
    ) + ". This is an unrecoverable program error"@
}

/// Whether an error value reports a given fault.
pub open spec fn describes(error: Error, fault: Fault) -> bool {
    match fault {
        Fault::Register(e) => error == Error::RegisterError(e),
        Fault::Memory(e) => error == Error::MmuError(e),
        Fault::IllegalOpcode => error matches Error::DecodeError(DasmError::DecoderError(s)) && s
            == illegal_opcode_message(),
        Fault::UnexpectedOpcode(received, expected) => error matches Error::UnexpectedOpcode(s)
            && s@ == unexpected_op_message(received, expected),
    }
}

/// Whether what a function returned is what was to be returned: the same
/// number of cycles, or an error that reports the fault.
pub open spec fn agrees(returned: Result<u8, Error>, expected: Result<u8, Fault>) -> bool {
    match (returned, expected) {
        (Ok(cycles), Ok(expected_cycles)) => cycles == expected_cycles,
        (Err(error), Err(fault)) => describes(error, fault),
        _ => false,
    }
}

/// Where a step leaves the processor and the memory, and what it returns.
pub struct Outcome {
    pub cpu: CPU,
    pub mem: MmuView,
    pub result: Result<u8, Fault>,
}

/// Where a step that leaves the memory alone leaves the processor, and what it
/// returns.
pub struct RegisterStep {
    pub cpu: CPU,
    pub result: Result<u8, Fault>,
}

/// The outcome of a step that leaves the memory alone.
pub open spec fn keeping(mem: MmuView, step: RegisterStep) -> Outcome {
    Outcome { cpu: step.cpu, mem, result: step.result }
}

/// A step that took `cycles` machine cycles.
pub open spec fn done(cpu: CPU, mem: MmuView, cycles: u8) -> Outcome {
    Outcome { cpu, mem, result: Ok(cycles) }
}

/// A step that failed.
pub open spec fn failed(cpu: CPU, mem: MmuView, fault: Fault) -> Outcome {
    Outcome { cpu, mem, result: Err(fault) }
}

impl CPU {
    /// The low nibble of `F` is zero.
    pub open spec fn spec_wf(&self) -> bool {
        self.registers.wf()
    }

    /// The processor with another register file.
    pub open spec fn with_registers(self, registers: Registers) -> CPU {
        CPU { registers, ..self }
    }

    /// The processor with another program counter.
    pub open spec fn with_pc(self, value: u16) -> CPU {
        CPU { registers: self.registers.with_pc(value), ..self }
    }

    /// The processor with another stack pointer.
    pub open spec fn with_sp(self, value: u16) -> CPU {
        CPU { registers: self.registers.with_sp(value), ..self }
    }

    /// The program counter.
    pub open spec fn pc(self) -> u16 {
        self.registers.pc.value
    }

    /// The stack pointer.
    pub open spec fn sp(self) -> u16 {
        self.registers.sp.value
    }
}

/// Pushing a word: the stack pointer goes down by two, and the word is stored
/// there, low byte first. With less than two bytes of room below the stack
/// pointer nothing is done.
pub open spec fn push_word(cpu: CPU, mem: MmuView, value: u16) -> (CPU, MmuView, Option<Fault>) {
    if cpu.sp() < 2 {
        (cpu, mem, Some(Fault::Register(RegisterError::CheckedFailure)))
    } else {
        (
            cpu.with_sp((cpu.sp() - 2) as u16),
            mem.after_write_word((cpu.sp() - 2) as u16, value),
            None,
        )
    }
}

/// Popping a word: the word at the stack pointer is read, low byte first, and
/// the stack pointer goes up by two. Where the read fails, or the stack
/// pointer would leave the address space, nothing is done.
pub open spec fn pop_word(cpu: CPU, mem: MmuView) -> (CPU, Result<u16, Fault>) {
    match mem.read_word(cpu.sp()) {
        Err(e) => (cpu, Err(Fault::Memory(e))),
        Ok(value) => if cpu.sp() > 0xFFFD {
            (cpu, Err(Fault::Register(RegisterError::CheckedFailure)))
        } else {
            (cpu.with_sp((cpu.sp() + 2) as u16), Ok(value))
        },
    }
}

/// Pushing a byte: the stack pointer goes down by one, and the byte is stored
/// there.
pub open spec fn push_byte(cpu: CPU, mem: MmuView, value: u8) -> (CPU, MmuView, Option<Fault>) {
    if cpu.sp() < 1 {
        (cpu, mem, Some(Fault::Register(RegisterError::CheckedFailure)))
    } else {
        (
            cpu.with_sp((cpu.sp() - 1) as u16),
            mem.after_write_byte((cpu.sp() - 1) as u16, value),
            None,
        )
    }
}

/// Popping a byte: the byte at the stack pointer is read, and the stack
/// pointer goes up by one.
pub open spec fn pop_byte(cpu: CPU, mem: MmuView) -> (CPU, Result<u8, Fault>) {
    match mem.read_byte(cpu.sp()) {
        Err(e) => (cpu, Err(Fault::Memory(e))),
        Ok(value) => if cpu.sp() > 0xFFFE {
            (cpu, Err(Fault::Register(RegisterError::CheckedFailure)))
        } else {
            (cpu.with_sp((cpu.sp() + 1) as u16), Ok(value))
        },
    }
}

/// Whether a unit result is what was to be returned.
pub open spec fn agrees_unit(returned: Result<(), Error>, fault: Option<Fault>) -> bool {
    match (returned, fault) {
        (Ok(()), None) => true,
        (Err(error), Some(fault)) => describes(error, fault),
        _ => false,
    }
}

/// Whether a value result is what was to be returned.
pub open spec fn agrees_value<T>(returned: Result<T, Error>, expected: Result<T, Fault>) -> bool {
    match (returned, expected) {
        (Ok(value), Ok(expected_value)) => value == expected_value,
        (Err(error), Err(fault)) => describes(error, fault),
        _ => false,
    }
}

/// The result of a register access as a processor result.
pub fn from_register<T>(r: Result<T, RegisterError>) -> (out: Result<T, Error>)
    ensures
        out == match r {
            Ok(value) => Ok::<T, Error>(value),
            Err(e) => Err::<T, Error>(Error::RegisterError(e)),
        },
{
    match r {
        Ok(value) => Ok(value),
        Err(e) => Err(Error::from(e)),
    }
}

/// The result of a memory access as a processor result.
pub fn from_mmu<T>(r: Result<T, MmuError>) -> (out: Result<T, Error>)
    ensures
        out == match r {
            Ok(value) => Ok::<T, Error>(value),
            Err(e) => Err::<T, Error>(Error::MmuError(e)),
        },
{
    match r {
        Ok(value) => Ok(value),
        Err(e) => Err(Error::from(e)),
    }
}

/// A processor that can be stepped against a memory unit.
pub trait TCPU {
    type E;

    /// The invariant of the processor.
    spec fn wf(&self) -> bool;

    /// Runs one instruction and gives the machine cycles it took.
    fn tick(&mut self, mmu: &mut MMU) -> (r: Result<u8, Self::E>)
        requires
            old(self).wf(),
            old(mmu).wf(),
        ensures
            final(self).wf(),
            final(mmu).wf(),
    ;
}

/// A processor with a stack in memory.
pub trait TStackable {
    /// The invariant of the processor.
    spec fn stack_wf(&self) -> bool;

    fn push_stack_byte(&mut self, value: u8, mmu: &mut MMU) -> (r: Result<(), Error>)
        requires
            old(self).stack_wf(),
            old(mmu).wf(),
        ensures
            final(self).stack_wf(),
            final(mmu).wf(),
    ;

    fn push_stack_word(&mut self, value: u16, mmu: &mut MMU) -> (r: Result<(), Error>)
        requires
            old(self).stack_wf(),
            old(mmu).wf(),
        ensures
            final(self).stack_wf(),
            final(mmu).wf(),
    ;

    fn pop_stack_byte(&mut self, mmu: &mut MMU) -> (r: Result<u8, Error>)
        requires
            old(self).stack_wf(),
            old(mmu).wf(),
        ensures
            final(self).stack_wf(),
            final(mmu).wf(),
    ;

    fn pop_stack_word(&mut self, mmu: &mut MMU) -> (r: Result<u16, Error>)
        requires
            old(self).stack_wf(),
            old(mmu).wf(),
        ensures
            final(self).stack_wf(),
            final(mmu).wf(),
    ;
}

impl TStackable for CPU {
    open spec fn stack_wf(&self) -> bool {
        self.spec_wf()
    }

    fn push_stack_byte(&mut self, value: u8, mmu: &mut MMU) -> (r: Result<(), Error>)
        ensures
            *final(self) == push_byte(*old(self), old(mmu)@, value).0,
            final(mmu)@ == push_byte(*old(self), old(mmu)@, value).1,
            agrees_unit(r, push_byte(*old(self), old(mmu)@, value).2),
    {
        let sp = match self.registers.sp.get_value().checked_sub(1) {
            Some(sp) => sp,
            None => {
                return Err(Error::RegisterError(RegisterError::CheckedFailure));
            },
        };
        self.registers.sp.set_value(sp);
        from_mmu(mmu.write_byte(sp, value))
    }

    fn push_stack_word(&mut self, value: u16, mmu: &mut MMU) -> (r: Result<(), Error>)
        ensures
            *final(self) == push_word(*old(self), old(mmu)@, value).0,
            final(mmu)@ == push_word(*old(self), old(mmu)@, value).1,
            agrees_unit(r, push_word(*old(self), old(mmu)@, value).2),
    {
        let sp = match self.registers.sp.get_value().checked_sub(2) {
            Some(sp) => sp,
            None => {
                return Err(Error::RegisterError(RegisterError::CheckedFailure));
            },
        };
        self.registers.sp.set_value(sp);
        from_mmu(mmu.write_word(*self.registers.sp.get_value(), value))?;
        Ok(())
    }

    fn pop_stack_byte(&mut self, mmu: &mut MMU) -> (r: Result<u8, Error>)
        ensures
            *final(self) == pop_byte(*old(self), old(mmu)@).0,
            final(mmu)@ == old(mmu)@,
            agrees_value(r, pop_byte(*old(self), old(mmu)@).1),
    {
        let stack_val = from_mmu(mmu.read_byte(*self.registers.sp.get_value()))?;
        let sp = match self.registers.sp.get_value().checked_add(1) {
            Some(sp) => sp,
            None => {
                return Err(Error::RegisterError(RegisterError::CheckedFailure));
            },
        };
        self.registers.sp.set_value(sp);
        Ok(stack_val)
    }

    fn pop_stack_word(&mut self, mmu: &mut MMU) -> (r: Result<u16, Error>)
        ensures
            *final(self) == pop_word(*old(self), old(mmu)@).0,
            final(mmu)@ == old(mmu)@,
            agrees_value(r, pop_word(*old(self), old(mmu)@).1),
    {
        let stack_val = from_mmu(mmu.read_word(*self.registers.sp.get_value()))?;
        let sp = match self.registers.sp.get_value().checked_add(2) {
            Some(sp) => sp,
            None => {
                return Err(Error::RegisterError(RegisterError::CheckedFailure));
            },
        };
        self.registers.sp.set_value(sp);
        Ok(stack_val)
    }
}

/// The mnemonics of the load family.
pub open spec fn is_load(mnemonic: Mnemonic) -> bool {
    matches!(mnemonic, Mnemonic::LD | Mnemonic::LDHL)
}

/// The mnemonics of the arithmetic and logic family.
pub open spec fn is_arithmetic(mnemonic: Mnemonic) -> bool {
    matches!(
        mnemonic,
        Mnemonic::ADD
            | Mnemonic::ADC
            | Mnemonic::SUB
            | Mnemonic::SBC
            | Mnemonic::AND
            | Mnemonic::XOR
            | Mnemonic::OR
            | Mnemonic::CP
            | Mnemonic::INC
            | Mnemonic::DEC
            | Mnemonic::DAA
            | Mnemonic::CPL
    )
}

/// The mnemonics of the rotate, shift and bit family.
pub open spec fn is_bitwise(mnemonic: Mnemonic) -> bool {
    matches!(
        mnemonic,
        Mnemonic::RLCA
            | Mnemonic::RLA
            | Mnemonic::RRCA
            | Mnemonic::RRA
            | Mnemonic::RLC
            | Mnemonic::RL
            | Mnemonic::RRC
            | Mnemonic::RR
            | Mnemonic::SLA
            | Mnemonic::SWAP
            | Mnemonic::SRA
            | Mnemonic::SET
            | Mnemonic::BIT
            | Mnemonic::RES
            | Mnemonic::SRL
    )
}

/// The mnemonics of the control family.
pub open spec fn is_control(mnemonic: Mnemonic) -> bool {
    matches!(
        mnemonic,
        Mnemonic::CCF
            | Mnemonic::SCF
            | Mnemonic::NOP
            | Mnemonic::HALT
            | Mnemonic::STOP
            | Mnemonic::DI
            | Mnemonic::EI
    )
}

/// What carrying out a decoded instruction does: the family of its mnemonic
/// decides. A byte that is no opcode stops the processor.
#[verifier::opaque]
pub open spec fn execute_step(
    cpu: CPU,
    mem: MmuView,
    data: InstructionData,
    d0: u8,
    d1: u8,
) -> Outcome {
    if is_load(data.mnemonic) {
        ld_step(cpu, mem, data, d0, d1)
    } else if data.mnemonic == Mnemonic::PUSH || data.mnemonic == Mnemonic::POP {
        stack_step(cpu, mem, data)
    } else if is_arithmetic(data.mnemonic) {
        alu_step(cpu, mem, data, d0)
    } else if is_bitwise(data.mnemonic) {
        bitwise_step(cpu, mem, data)
    } else if is_control(data.mnemonic) {
        control_step(cpu, mem, data)
    } else if data.mnemonic == Mnemonic::UNIMPLEMENTED {
        failed(cpu, mem, Fault::IllegalOpcode)
    } else {
        branch_step(cpu, mem, data, d0, d1)
    }
}

/// Fetching: the program counter moves past the opcode byte, then the byte is
/// read and decoded; after the prefix byte the byte that follows it is read
/// too. At `0xFFFF` the program counter cannot move and nothing is read.
#[verifier::opaque]
pub open spec fn fetch_step(cpu: CPU, mem: MmuView) -> (CPU, Result<InstructionData, Fault>) {
    let pc = cpu.pc();
    if pc == 0xFFFF {
        (cpu, Err(Fault::Register(RegisterError::CheckedFailure)))
    } else {
        let moved = cpu.with_pc((pc + 1) as u16);
        match mem.read_byte(pc) {
            Err(e) => (moved, Err(Fault::Memory(e))),
            Ok(opcode) => if opcode == CB_PREFIX {
                match mem.read_byte((pc + 1) as u16) {
                    Err(e) => (moved, Err(Fault::Memory(e))),
                    Ok(byte) => (moved, Ok(describe_cb(byte))),
                }
            } else {
                (moved, Ok(describe_base(opcode, Instruction::UNIMPLEMENTED)))
            },
        }
    }
}

/// The address after `address`, with wrap-around.
pub open spec fn next_address(address: u16) -> u16 {
    if address == 0xFFFF {
        0
    } else {
        (address + 1) as u16
    }
}

/// One step of the processor.
///
/// An `EI` that is waiting takes effect first: the master interrupt enable is
/// set. The instruction at the program counter is fetched and decoded, the
/// two bytes after its first byte are read as its operand window, the program
/// counter moves past the instruction, and the instruction is carried out.
#[verifier::opaque]
pub open spec fn tick_step(cpu: CPU, mem: MmuView) -> Outcome {
    let mem = if cpu.pending_enable {
        MmuView { ime: true, ..mem }
    } else {
        mem
    };
    let cpu = CPU { pending_enable: false, ..cpu };
    let fetched = fetch_step(cpu, mem);
    let cpu = fetched.0;
    match fetched.1 {
        Err(fault) => failed(cpu, mem, fault),
        Ok(data) => match mem.read_byte(cpu.pc()) {
            Err(e) => failed(cpu, mem, Fault::Memory(e)),
            Ok(d0) => match mem.read_byte(next_address(cpu.pc())) {
                Err(e) => failed(cpu, mem, Fault::Memory(e)),
                Ok(d1) => if cpu.pc() + data.size > 0xFFFF {
                    failed(cpu, mem, Fault::Register(RegisterError::CheckedFailure))
                } else {
                    execute_step(cpu.with_pc((cpu.pc() + data.size) as u16), mem, data, d0, d1)
                },
            },
        },
    }
}

/// Acknowledging an interrupt. Where the master enable is set and an
/// interrupt is pending, the master enable and the interrupt's request bit
/// are cleared, an `EI` that is waiting is withdrawn, the program counter is
/// pushed and set to the interrupt's service routine: five cycles. Otherwise
/// nothing is done, in no cycles.
#[verifier::opaque]
pub open spec fn interrupt_step(cpu: CPU, mem: MmuView) -> Outcome {
    match mem.pending() {
        Some(interrupt) if mem.ime => {
            let cleared = (MmuView { ime: false, ..mem }).after_set_interrupt_bit(interrupt, false);
            let calm = CPU { pending_enable: false, ..cpu };
            match push_word(calm, cleared, cpu.pc()).2 {
                Some(fault) => failed(calm, cleared, fault),
                None => done(
                    push_word(calm, cleared, cpu.pc()).0.with_pc(interrupt.spec_isr_location()),
                    push_word(calm, cleared, cpu.pc()).1,
                    5,
                ),
            }
        },
        _ => done(cpu, mem, 0),
    }
}

/// The low nibble of `F` is zero after every instruction, whether it
/// succeeds or fails.
pub proof fn lemma_execute_keeps_flags_clean(
    cpu: CPU,
    mem: MmuView,
    data: InstructionData,
    d0: u8,
    d1: u8,
)
    requires
        cpu.spec_wf(),
    ensures
        execute_step(cpu, mem, data, d0, d1).cpu.spec_wf(),
{
    reveal(execute_step);
    crate::hardware::opcodes::ld::lemma_ld_keeps_flags_clean(cpu, mem, data, d0, d1);
    crate::hardware::opcodes::stack::lemma_stack_keeps_flags_clean(cpu, mem, data);
    crate::hardware::opcodes::alu::lemma_alu_keeps_flags_clean(cpu, mem, data, d0);
    crate::hardware::opcodes::bitwise::lemma_bitwise_keeps_flags_clean(cpu, mem, data);
    crate::hardware::opcodes::control::lemma_control_keeps_flags_clean(cpu, mem, data);
    crate::hardware::opcodes::branch::lemma_branch_keeps_flags(cpu, mem, data, d0, d1);
}

/// The low nibble of `F` is zero after every step of the processor and after
/// every acknowledgement of an interrupt, whether they succeed or fail.
pub proof fn lemma_step_keeps_flags_clean(cpu: CPU, mem: MmuView)
    requires
        cpu.spec_wf(),
    ensures
        tick_step(cpu, mem).cpu.spec_wf(),
        interrupt_step(cpu, mem).cpu.spec_wf(),
{
    reveal(tick_step);
    reveal(fetch_step);
    reveal(interrupt_step);
    let committed = if cpu.pending_enable {
        MmuView { ime: true, ..mem }
    } else {
        mem
    };
    let fetched = fetch_step(CPU { pending_enable: false, ..cpu }, committed);
    if fetched.1 is Ok {
        let data = fetched.1->Ok_0;
        let at = fetched.0;
        if committed.read_byte(at.pc()) is Ok && committed.read_byte(next_address(at.pc())) is Ok
            && at.pc() + data.size <= 0xFFFF {
            lemma_execute_keeps_flags_clean(
                at.with_pc((at.pc() + data.size) as u16),
                committed,
                data,
                committed.read_byte(at.pc())->Ok_0,
                committed.read_byte(next_address(at.pc()))->Ok_0,
            );
        }
    }
}

/// A step that finds `EI` or `DI` at the program counter and succeeds is the
/// control instruction, carried out with the program counter one byte on,
/// after an `EI` that was waiting has taken effect.
pub proof fn lemma_tick_of_control(cpu: CPU, mem: MmuView, opcode: u8)
    requires
        opcode == 0xFB || opcode == 0xF3,
        mem.read_byte(cpu.pc()) == Ok::<u8, MmuError>(opcode),
        tick_step(cpu, mem).result is Ok,
    ensures
        cpu.pc() < 0xFFFF,
        describe_base(opcode, Instruction::UNIMPLEMENTED).instruction == (if opcode == 0xFB {
            Instruction::EI
        } else {
            Instruction::DI
        }),
        tick_step(cpu, mem) == crate::hardware::opcodes::control::control_step(
            (CPU { pending_enable: false, ..cpu }).with_pc((cpu.pc() + 1) as u16),
            MmuView { ime: mem.ime || cpu.pending_enable, ..mem },
            describe_base(opcode, Instruction::UNIMPLEMENTED),
        ),
{
    reveal(tick_step);
    reveal(fetch_step);
    reveal(execute_step);
    let data = describe_base(opcode, Instruction::UNIMPLEMENTED);
    assert(data.size == 0);
    assert(is_control(data.mnemonic));
    let committed = if cpu.pending_enable {
        MmuView { ime: true, ..mem }
    } else {
        mem
    };
    assert(committed == (MmuView { ime: mem.ime || cpu.pending_enable, ..mem }));
}

/// `EI` takes effect one instruction late. With the master interrupt enable
/// clear, the step that carries out `EI` leaves it clear, so that nothing can
/// be acknowledged between `EI` and the instruction after it; the enable is
/// set at the top of the next step, before that instruction is fetched.
pub proof fn lemma_enable_is_delayed(cpu: CPU, mem: MmuView)
    requires
        !mem.ime,
        !cpu.pending_enable,
        mem.read_byte(cpu.pc()) == Ok::<u8, MmuError>(0xFB),
        tick_step(cpu, mem).result is Ok,
    ensures
        ({
            let after = tick_step(cpu, mem);
            &&& after.result == Ok::<u8, Fault>(1)
            &&& !after.mem.ime
            &&& after.mem == mem
            &&& after.cpu.pending_enable
            &&& after.cpu.pc() == cpu.pc() + 1
            &&& interrupt_step(after.cpu, after.mem) == done(after.cpu, after.mem, 0)
            &&& tick_step(after.cpu, after.mem) == tick_step(
                CPU { pending_enable: false, ..after.cpu },
                MmuView { ime: true, ..after.mem },
            )
        }),
{
    lemma_tick_of_control(cpu, mem, 0xFB);
    reveal(crate::hardware::opcodes::control::control_step);
    assert(interrupt_step(tick_step(cpu, mem).cpu, mem) == done(tick_step(cpu, mem).cpu, mem, 0))
        by {
        reveal(interrupt_step);
    }
    assert(tick_step(tick_step(cpu, mem).cpu, mem) == tick_step(
        CPU { pending_enable: false, ..tick_step(cpu, mem).cpu },
        MmuView { ime: true, ..mem },
    )) by {
        reveal(tick_step);
    }
}

/// `EI` followed at once by `DI` lets no interrupt through: after the two
/// steps the master interrupt enable is clear and no `EI` is waiting, and
/// nothing can be acknowledged after either step.
pub proof fn lemma_enable_then_disable(cpu: CPU, mem: MmuView)
    requires
        !mem.ime,
        !cpu.pending_enable,
        mem.read_byte(cpu.pc()) == Ok::<u8, MmuError>(0xFB),
        tick_step(cpu, mem).result is Ok,
        mem.read_byte((cpu.pc() + 1) as u16) == Ok::<u8, MmuError>(0xF3),
        tick_step(tick_step(cpu, mem).cpu, tick_step(cpu, mem).mem).result is Ok,
    ensures
        ({
            let first = tick_step(cpu, mem);
            let second = tick_step(first.cpu, first.mem);
            &&& interrupt_step(first.cpu, first.mem) == done(first.cpu, first.mem, 0)
            &&& !second.mem.ime
            &&& !second.cpu.pending_enable
            &&& interrupt_step(second.cpu, second.mem) == done(second.cpu, second.mem, 0)
        }),
{
    lemma_enable_is_delayed(cpu, mem);
    let first = tick_step(cpu, mem);
    lemma_tick_of_control(first.cpu, first.mem, 0xF3);
    let second = tick_step(first.cpu, first.mem);
    assert(!second.mem.ime && !second.cpu.pending_enable) by {
        reveal(crate::hardware::opcodes::control::control_step);
    }
    assert(interrupt_step(second.cpu, second.mem) == done(second.cpu, second.mem, 0)) by {
        reveal(interrupt_step);
    }
}

impl CPU {
    /// A processor in the state that the boot program leaves.
    pub fn new() -> (r: Result<CPU, Error>)
        ensures
            r matches Ok(cpu) && cpu.spec_wf() && !cpu.halt && !cpu.pending_enable
                && cpu.registers.a.value == 0x01 && cpu.registers.f.value == 0xB0
                && cpu.registers.spec_bc() == 0x0013 && cpu.registers.spec_de() == 0x00D8
                && cpu.registers.spec_hl() == 0x014D && cpu.registers.sp.value == 0xFFFE
                && cpu.registers.pc.value == 0x0100,
    {
        Ok(CPU { registers: Registers::new(), halt: false, pending_enable: false })
    }

    /// Moves the program counter to the next byte and gives the address it
    /// came from.
    pub fn increment_pc(&mut self) -> (r: Result<u16, Error>)
        ensures
            old(self).pc() == 0xFFFF ==> *final(self) == *old(self) && describes(
                r->Err_0,
                Fault::Register(RegisterError::CheckedFailure),
            ) && r is Err,
            old(self).pc() < 0xFFFF ==> *final(self) == old(self).with_pc(
                (old(self).pc() + 1) as u16,
            ) && r == Ok::<u16, Error>(old(self).pc()),
    {
        let next = *self.registers.pc.get_value();
        let moved = match next.checked_add(1) {
            Some(moved) => moved,
            None => {
                return Err(Error::RegisterError(RegisterError::CheckedFailure));
            },
        };
        self.registers.pc.set_value(moved);
        Ok(next)
    }

    /// Reads and decodes the instruction at the program counter, and moves
    /// the program counter past its first byte.
    pub fn fetch(&mut self, mmu: &MMU) -> (r: Result<InstructionData, Error>)
        requires
            mmu.wf(),
        ensures
            *final(self) == fetch_step(*old(self), mmu@).0,
            agrees_value(r, fetch_step(*old(self), mmu@).1),
            final(self).registers == old(self).registers.with_pc(final(self).pc()),
            final(self).halt == old(self).halt,
            final(self).pending_enable == old(self).pending_enable,
            r matches Ok(data) ==> fields_in_range(data),
    {
        proof {
            reveal(fetch_step);
        }
        let pc = self.increment_pc()?;
        let op = from_mmu(mmu.read_byte(pc))?;
        let cb_byte = match op {
            0xCB => Some(from_mmu(mmu.read_byte(pc + 1))?),
            _ => None,
        };
        match InstructionData::try_from((op, cb_byte)) {
            Ok(data) => Ok(data),
            Err(e) => Err(Error::DecodeError(e)),
        }
    }

    /// Carries out a decoded instruction and gives the machine cycles it
    /// took.
    pub fn execute(
        &mut self,
        instruction_data: &InstructionData,
        opcode_data: &[u8; 2],
        mmu: &mut MMU,
    ) -> (r: Result<u8, Error>)
        requires
            old(self).spec_wf(),
            old(mmu).wf(),
        ensures
            final(self).spec_wf(),
            final(mmu).wf(),
            *final(self) == execute_step(
                *old(self),
                old(mmu)@,
                *instruction_data,
                opcode_data[0],
                opcode_data[1],
            ).cpu,
            final(mmu)@ == execute_step(
                *old(self),
                old(mmu)@,
                *instruction_data,
                opcode_data[0],
                opcode_data[1],
            ).mem,
            agrees(
                r,
                execute_step(
                    *old(self),
                    old(mmu)@,
                    *instruction_data,
                    opcode_data[0],
                    opcode_data[1],
                ).result,
            ),
    {
        proof {
            reveal(execute_step);
        }
        let result = match instruction_data.mnemonic {
            Mnemonic::LD | Mnemonic::LDHL => self.evaluate_ld(instruction_data, opcode_data, mmu),
            Mnemonic::PUSH | Mnemonic::POP => {
                self.evaluate_stack_op(instruction_data, opcode_data, mmu)
            },
            Mnemonic::ADD
            | Mnemonic::ADC
            | Mnemonic::SUB
            | Mnemonic::SBC
            | Mnemonic::AND
            | Mnemonic::XOR
            | Mnemonic::OR
            | Mnemonic::CP
            | Mnemonic::INC
            | Mnemonic::DEC
            | Mnemonic::DAA
            | Mnemonic::CPL => self.evaluate_alu(instruction_data, opcode_data, mmu),
            Mnemonic::RLCA
            | Mnemonic::RLA
            | Mnemonic::RRCA
            | Mnemonic::RRA
            | Mnemonic::RLC
            | Mnemonic::RL
            | Mnemonic::RRC
            | Mnemonic::RR
            | Mnemonic::SLA
            | Mnemonic::SWAP
            | Mnemonic::SRA
            | Mnemonic::SET
            | Mnemonic::BIT
            | Mnemonic::RES
            | Mnemonic::SRL => self.evaluate_bitwise(instruction_data, opcode_data, mmu),
            Mnemonic::CCF
            | Mnemonic::SCF
            | Mnemonic::NOP
            | Mnemonic::HALT
            | Mnemonic::STOP
            | Mnemonic::DI
            | Mnemonic::EI => self.evaluate_control(instruction_data, opcode_data, mmu),
            Mnemonic::JP
            | Mnemonic::JR
            | Mnemonic::CALL
            | Mnemonic::RET
            | Mnemonic::RETI
            | Mnemonic::RST
            | Mnemonic::DB
            | Mnemonic::DW => self.evaluate_branch(instruction_data, opcode_data, mmu),
            Mnemonic::UNIMPLEMENTED => Err(
                Error::DecodeError(DasmError::DecoderError("illegal opcode")),
            ),
        }?;
        Ok(result)
    }

    /// Acknowledges the pending interrupt, where the master enable allows it,
    /// and gives the machine cycles that took.
    pub fn handle_interrupts(&mut self, mmu: &mut MMU) -> (r: Result<u8, Error>)
        requires
            old(self).spec_wf(),
            old(mmu).wf(),
        ensures
            final(self).spec_wf(),
            final(mmu).wf(),
            *final(self) == interrupt_step(*old(self), old(mmu)@).cpu,
            final(mmu)@ == interrupt_step(*old(self), old(mmu)@).mem,
            agrees(r, interrupt_step(*old(self), old(mmu)@).result),
    {
        proof {
            reveal(interrupt_step);
        }
        if let Some(interrupt) = from_mmu(mmu.interrupts_enabled())? {
            let isr = interrupt.get_isr_location();
            let pc = *self.registers.pc.get_value();
            mmu.write_interrupt_enable_reg(false);
            from_mmu(mmu.set_interrupt_bit(interrupt, false))?;
            self.pending_enable = false;
            self.push_stack_word(pc, mmu)?;
            self.registers.pc.set_value(isr);
            return Ok(5);
        }
        Ok(0)
    }
}

impl TCPU for CPU {
    type E = Error;

    open spec fn wf(&self) -> bool {
        self.spec_wf()
    }

    fn tick(&mut self, mmu: &mut MMU) -> (r: Result<u8, Error>)
        ensures
            *final(self) == tick_step(*old(self), old(mmu)@).cpu,
            final(mmu)@ == tick_step(*old(self), old(mmu)@).mem,
            agrees(r, tick_step(*old(self), old(mmu)@).result),
    {
        proof {
            reveal(tick_step);
        }
        if self.pending_enable {
            mmu.write_interrupt_enable_reg(true);
            self.pending_enable = false;
        }
        let opcode = self.fetch(mmu)?;
        let pc = *self.registers.pc.get_value();
        let data = [
            from_mmu(mmu.read_byte(pc))?,
            from_mmu(mmu.read_byte(pc.wrapping_add(1)))?,
        ];
        let next = match pc.checked_add(opcode.size as u16) {
            Some(next) => next,
            None => {
                return Err(Error::RegisterError(RegisterError::CheckedFailure));
            },
        };
        self.registers.pc.set_value(next);
        let cycles = self.execute(&opcode, &data, mmu)?;
        Ok(cycles)
    }
}

} // verus!
