use std::convert::TryFrom;
use wasmboi::dasm::{DasmError, InstructionData};
use wasmboi::hardware::cartridge_header::CartridgeType;
use wasmboi::hardware::cpu::{Error, TStackable, CPU, TCPU};
use wasmboi::hardware::mmu::{Error as MmuError, MMU};
use wasmboi::hardware::opcodes::alu::AluOp;
use wasmboi::hardware::opcodes::bitwise::ShiftOp;
use wasmboi::hardware::opcodes::unexpected_op;
use wasmboi::hardware::mnemonic::Mnemonic;
use wasmboi::hardware::register::RegisterError;
use wasmboi::mbc::MbcError;

fn machine(program: &[u8]) -> (CPU, MMU) {
    let mut rom = vec![0u8; 0x8000];
    rom[0x100..0x100 + program.len()].copy_from_slice(program);
    (CPU::new().ok().unwrap(), MMU::new(&rom, &CartridgeType::ROM).ok().unwrap())
}

fn run(cpu: &mut CPU, mmu: &mut MMU, steps: usize) -> Vec<u8> {
    let mut cycles = vec![];
    for _ in 0..steps {
        cycles.push(cpu.tick(mmu).ok().unwrap());
    }
    cycles
}

fn base(opcode: u8) -> InstructionData {
    InstructionData::try_from(opcode).ok().unwrap()
}

fn prefixed(opcode: u8) -> InstructionData {
    InstructionData::try_from((0xCBu8, Some(opcode))).ok().unwrap()
}

#[test]
fn boot_state() {
    let cpu = CPU::new().ok().unwrap();
    assert_eq!(cpu.registers.a.value, 0x01);
    assert_eq!(cpu.registers.f.value, 0xB0);
    assert_eq!(cpu.registers.bc(), 0x0013);
    assert_eq!(cpu.registers.de(), 0x00D8);
    assert_eq!(cpu.registers.hl(), 0x014D);
    assert_eq!(cpu.registers.af(), 0x01B0);
    assert_eq!(cpu.registers.sp.value, 0xFFFE);
    assert_eq!(cpu.registers.pc.value, 0x0100);
    assert!(!cpu.halt);
    assert!(!cpu.pending_enable);
}

#[test]
fn increment_of_ff_wraps_to_zero() {
    let (mut cpu, mut mmu) = machine(&[0x3E, 0xFF, 0x3C]);
    assert_eq!(run(&mut cpu, &mut mmu, 2), vec![2, 1]);
    assert_eq!(cpu.registers.a.value, 0x00);
    assert_eq!(cpu.registers.f.value, 0xB0);

    let (mut cpu, mut mmu) = machine(&[0x3E, 0xFF, 0x3C]);
    cpu.registers.f.value = 0x40;
    run(&mut cpu, &mut mmu, 2);
    assert_eq!(cpu.registers.a.value, 0x00);
    assert_eq!(cpu.registers.f.value, 0xA0);
}

#[test]
fn decrement_of_zero_wraps_to_ff() {
    let (mut cpu, mut mmu) = machine(&[0x06, 0x00, 0x05]);
    assert_eq!(run(&mut cpu, &mut mmu, 2), vec![2, 1]);
    assert_eq!(cpu.registers.b.value, 0xFF);
    assert_eq!(cpu.registers.f.value, 0x70);

    let (mut cpu, mut mmu) = machine(&[0x06, 0x00, 0x05]);
    cpu.registers.f.value = 0x80;
    run(&mut cpu, &mut mmu, 2);
    assert_eq!(cpu.registers.b.value, 0xFF);
    assert_eq!(cpu.registers.f.value, 0x60);
}

#[test]
fn add_sets_half_carry() {
    let (mut cpu, mut mmu) = machine(&[0xC6, 0x0F]);
    assert_eq!(cpu.registers.a.value, 0x01);
    assert_eq!(run(&mut cpu, &mut mmu, 1), vec![2]);
    assert_eq!(cpu.registers.a.value, 0x10);
    assert_eq!(cpu.registers.f.value, 0x20);
}

#[test]
fn sub_sets_half_carry() {
    let (mut cpu, mut mmu) = machine(&[0x3E, 0x10, 0xD6, 0x01]);
    assert_eq!(run(&mut cpu, &mut mmu, 2), vec![2, 2]);
    assert_eq!(cpu.registers.a.value, 0x0F);
    assert_eq!(cpu.registers.f.value, 0x60);
}

#[test]
fn compare_with_itself() {
    let (mut cpu, mut mmu) = machine(&[0x3E, 0x5C, 0xBF]);
    cpu.registers.f.value = 0x30;
    assert_eq!(run(&mut cpu, &mut mmu, 2), vec![2, 1]);
    assert_eq!(cpu.registers.a.value, 0x5C);
    assert_eq!(cpu.registers.f.value, 0xC0);
}

#[test]
fn add_hl_to_itself_carries_out_of_bit_fifteen() {
    let (mut cpu, mut mmu) = machine(&[0x21, 0x00, 0x80, 0x29]);
    assert_eq!(run(&mut cpu, &mut mmu, 2), vec![3, 2]);
    assert_eq!(cpu.registers.hl(), 0x0000);
    assert_eq!(cpu.registers.f.value, 0x90);

    let (mut cpu, mut mmu) = machine(&[0x21, 0x00, 0x80, 0x29]);
    cpu.registers.f.value = 0x60;
    run(&mut cpu, &mut mmu, 2);
    assert_eq!(cpu.registers.hl(), 0x0000);
    assert_eq!(cpu.registers.f.value, 0x10);

    let (mut cpu, mut mmu) = machine(&[0x21, 0xFF, 0x0F, 0x01, 0x01, 0x00, 0x09]);
    cpu.registers.f.value = 0x00;
    assert_eq!(run(&mut cpu, &mut mmu, 3), vec![3, 3, 2]);
    assert_eq!(cpu.registers.hl(), 0x1000);
    assert_eq!(cpu.registers.f.value, 0x20);
}

#[test]
fn add_minus_one_to_a_zero_stack_pointer() {
    let (mut cpu, mut mmu) = machine(&[0x31, 0x00, 0x00, 0xE8, 0xFF]);
    assert_eq!(run(&mut cpu, &mut mmu, 2), vec![3, 4]);
    assert_eq!(cpu.registers.sp.value, 0xFFFF);
    assert_eq!(cpu.registers.f.value, 0x00);

    let (mut cpu, mut mmu) = machine(&[0x31, 0x01, 0x00, 0xE8, 0xFF]);
    run(&mut cpu, &mut mmu, 2);
    assert_eq!(cpu.registers.sp.value, 0x0000);
    assert_eq!(cpu.registers.f.value, 0x30);

    let (mut cpu, mut mmu) = machine(&[0x31, 0xFF, 0x00, 0xE8, 0x01]);
    run(&mut cpu, &mut mmu, 2);
    assert_eq!(cpu.registers.sp.value, 0x0100);
    assert_eq!(cpu.registers.f.value, 0x30);
}

#[test]
fn load_hl_from_offset_stack_pointer() {
    let (mut cpu, mut mmu) = machine(&[0x31, 0xF8, 0xFF, 0xF8, 0x08]);
    assert_eq!(run(&mut cpu, &mut mmu, 2), vec![3, 3]);
    assert_eq!(cpu.registers.hl(), 0x0000);
    assert_eq!(cpu.registers.sp.value, 0xFFF8);
    assert_eq!(cpu.registers.f.value, 0x30);

    let (mut cpu, mut mmu) = machine(&[0x31, 0x00, 0xC0, 0xF8, 0xFE]);
    run(&mut cpu, &mut mmu, 2);
    assert_eq!(cpu.registers.hl(), 0xBFFE);
    assert_eq!(cpu.registers.f.value, 0x00);
}

#[test]
fn swap_exchanges_the_nibbles() {
    let (mut cpu, mut mmu) = machine(&[0x3E, 0xAB, 0xCB, 0x37, 0x3E, 0x00, 0xCB, 0x37]);
    assert_eq!(run(&mut cpu, &mut mmu, 2), vec![2, 2]);
    assert_eq!(cpu.registers.a.value, 0xBA);
    assert_eq!(cpu.registers.f.value, 0x00);
    assert_eq!(cpu.registers.pc.value, 0x104);
    assert_eq!(run(&mut cpu, &mut mmu, 2), vec![2, 2]);
    assert_eq!(cpu.registers.a.value, 0x00);
    assert_eq!(cpu.registers.f.value, 0x80);
}

#[test]
fn bit_seven() {
    let (mut cpu, mut mmu) = machine(&[0x3E, 0x80, 0xCB, 0x7F, 0x3E, 0x00, 0xCB, 0x7F]);
    assert_eq!(run(&mut cpu, &mut mmu, 2), vec![2, 2]);
    assert_eq!(cpu.registers.f.value, 0x30);
    assert_eq!(cpu.registers.a.value, 0x80);
    assert_eq!(run(&mut cpu, &mut mmu, 2), vec![2, 2]);
    assert_eq!(cpu.registers.f.value, 0xB0);

    let (mut cpu, mut mmu) = machine(&[0x3E, 0x7F, 0xCB, 0x7F]);
    cpu.registers.f.value = 0x40;
    run(&mut cpu, &mut mmu, 2);
    assert_eq!(cpu.registers.f.value, 0xA0);
}

#[test]
fn bits_in_memory() {
    let (mut cpu, mut mmu) = machine(&[0x21, 0x00, 0xC0, 0xCB, 0xDE, 0xCB, 0x5E, 0xCB, 0x9E, 0xCB, 0x5E]);
    assert_eq!(run(&mut cpu, &mut mmu, 2), vec![3, 4]);
    assert_eq!(mmu.read_byte(0xC000), Ok(0x08));
    cpu.registers.f.value = 0x00;
    assert_eq!(run(&mut cpu, &mut mmu, 1), vec![3]);
    assert_eq!(cpu.registers.f.value, 0x20);
    assert_eq!(run(&mut cpu, &mut mmu, 2), vec![4, 3]);
    assert_eq!(mmu.read_byte(0xC000), Ok(0x00));
    assert_eq!(cpu.registers.f.value, 0xA0);
}

#[test]
fn decimal_adjust_after_an_addition() {
    let (mut cpu, mut mmu) = machine(&[0x3E, 0x45, 0xC6, 0x38, 0x27]);
    assert_eq!(run(&mut cpu, &mut mmu, 3), vec![2, 2, 1]);
    assert_eq!(cpu.registers.a.value, 0x83);
    assert_eq!(cpu.registers.f.value, 0x00);

    let (mut cpu, mut mmu) = machine(&[0x3E, 0x99, 0xC6, 0x01, 0x27]);
    run(&mut cpu, &mut mmu, 3);
    assert_eq!(cpu.registers.a.value, 0x00);
    assert_eq!(cpu.registers.f.value, 0x90);

    let (mut cpu, mut mmu) = machine(&[0x3E, 0x90, 0xC6, 0x90, 0x27]);
    run(&mut cpu, &mut mmu, 3);
    assert_eq!(cpu.registers.a.value, 0x80);
    assert_eq!(cpu.registers.f.value, 0x10);
}

#[test]
fn decimal_adjust_after_a_subtraction() {
    let (mut cpu, mut mmu) = machine(&[0x3E, 0x42, 0xD6, 0x13, 0x27]);
    assert_eq!(run(&mut cpu, &mut mmu, 3), vec![2, 2, 1]);
    assert_eq!(cpu.registers.a.value, 0x29);
    assert_eq!(cpu.registers.f.value, 0x40);

    let (mut cpu, mut mmu) = machine(&[0x3E, 0x10, 0xD6, 0x20, 0x27]);
    run(&mut cpu, &mut mmu, 3);
    assert_eq!(cpu.registers.a.value, 0x90);
    assert_eq!(cpu.registers.f.value, 0x50);
}

#[test]
fn add_with_carry_and_subtract_with_carry() {
    let (mut cpu, mut mmu) = machine(&[0x3E, 0x0F, 0xCE, 0x00, 0xDE, 0x10, 0xDE, 0x00]);
    assert_eq!(run(&mut cpu, &mut mmu, 2), vec![2, 2]);
    assert_eq!(cpu.registers.a.value, 0x10);
    assert_eq!(cpu.registers.f.value, 0x20);
    assert_eq!(run(&mut cpu, &mut mmu, 1), vec![2]);
    assert_eq!(cpu.registers.a.value, 0x00);
    assert_eq!(cpu.registers.f.value, 0xC0);
    cpu.registers.f.value = 0x10;
    assert_eq!(run(&mut cpu, &mut mmu, 1), vec![2]);
    assert_eq!(cpu.registers.a.value, 0xFF);
    assert_eq!(cpu.registers.f.value, 0x70);
}

#[test]
fn logic_on_the_accumulator() {
    let (mut cpu, mut mmu) = machine(&[0x3E, 0xF0, 0xE6, 0x3C, 0xF6, 0x03, 0xEE, 0x33, 0xAF, 0x2F]);
    assert_eq!(run(&mut cpu, &mut mmu, 2), vec![2, 2]);
    assert_eq!((cpu.registers.a.value, cpu.registers.f.value), (0x30, 0x20));
    assert_eq!(run(&mut cpu, &mut mmu, 1), vec![2]);
    assert_eq!((cpu.registers.a.value, cpu.registers.f.value), (0x33, 0x00));
    assert_eq!(run(&mut cpu, &mut mmu, 1), vec![2]);
    assert_eq!((cpu.registers.a.value, cpu.registers.f.value), (0x00, 0x80));
    cpu.registers.a.value = 0x77;
    cpu.registers.f.value = 0x70;
    assert_eq!(run(&mut cpu, &mut mmu, 1), vec![1]);
    assert_eq!((cpu.registers.a.value, cpu.registers.f.value), (0x00, 0x80));
    cpu.registers.f.value = 0x90;
    assert_eq!(run(&mut cpu, &mut mmu, 1), vec![1]);
    assert_eq!((cpu.registers.a.value, cpu.registers.f.value), (0xFF, 0xF0));
}

#[test]
fn operations_on_the_byte_at_hl() {
    let (mut cpu, mut mmu) = machine(&[0x21, 0x80, 0xFF, 0x36, 0x0F, 0x34, 0x35, 0x86, 0xBE, 0x7E, 0x70]);
    assert_eq!(run(&mut cpu, &mut mmu, 3), vec![3, 3, 3]);
    assert_eq!(mmu.read_byte(0xFF80), Ok(0x10));
    assert_eq!(cpu.registers.f.value, 0x30);
    assert_eq!(run(&mut cpu, &mut mmu, 1), vec![3]);
    assert_eq!(mmu.read_byte(0xFF80), Ok(0x0F));
    assert_eq!(cpu.registers.f.value, 0x70);
    assert_eq!(run(&mut cpu, &mut mmu, 1), vec![2]);
    assert_eq!((cpu.registers.a.value, cpu.registers.f.value), (0x10, 0x20));
    assert_eq!(run(&mut cpu, &mut mmu, 1), vec![2]);
    assert_eq!((cpu.registers.a.value, cpu.registers.f.value), (0x10, 0x60));
    assert_eq!(run(&mut cpu, &mut mmu, 2), vec![2, 2]);
    assert_eq!(cpu.registers.a.value, 0x0F);
    assert_eq!(mmu.read_byte(0xFF80), Ok(0x00));
}

#[test]
fn sixteen_bit_increments_leave_the_flags() {
    let (mut cpu, mut mmu) = machine(&[0x01, 0xFF, 0xFF, 0x03, 0x0B, 0x31, 0x00, 0x00, 0x3B, 0x33]);
    cpu.registers.f.value = 0x50;
    assert_eq!(run(&mut cpu, &mut mmu, 2), vec![3, 2]);
    assert_eq!(cpu.registers.bc(), 0x0000);
    assert_eq!(run(&mut cpu, &mut mmu, 1), vec![2]);
    assert_eq!(cpu.registers.bc(), 0xFFFF);
    assert_eq!(run(&mut cpu, &mut mmu, 2), vec![3, 2]);
    assert_eq!(cpu.registers.sp.value, 0xFFFF);
    assert_eq!(run(&mut cpu, &mut mmu, 1), vec![2]);
    assert_eq!(cpu.registers.sp.value, 0x0000);
    assert_eq!(cpu.registers.f.value, 0x50);
}

#[test]
fn rotations_of_the_accumulator_clear_zero() {
    let (mut cpu, mut mmu) = machine(&[0x3E, 0x80, 0x07, 0x17, 0x0F, 0x1F, 0x3E, 0x00, 0x07]);
    cpu.registers.f.value = 0x00;
    assert_eq!(run(&mut cpu, &mut mmu, 2), vec![2, 1]);
    assert_eq!((cpu.registers.a.value, cpu.registers.f.value), (0x01, 0x10));
    assert_eq!(run(&mut cpu, &mut mmu, 1), vec![1]);
    assert_eq!((cpu.registers.a.value, cpu.registers.f.value), (0x03, 0x00));
    assert_eq!(run(&mut cpu, &mut mmu, 1), vec![1]);
    assert_eq!((cpu.registers.a.value, cpu.registers.f.value), (0x81, 0x10));
    assert_eq!(run(&mut cpu, &mut mmu, 1), vec![1]);
    assert_eq!((cpu.registers.a.value, cpu.registers.f.value), (0xC0, 0x10));
    cpu.registers.f.value = 0xE0;
    assert_eq!(run(&mut cpu, &mut mmu, 2), vec![2, 1]);
    assert_eq!((cpu.registers.a.value, cpu.registers.f.value), (0x00, 0x00));
}

#[test]
fn shifts_of_the_second_page() {
    assert_eq!(CPU::shift(ShiftOp::Rlc, 0x85, false), (0x0B, wasmboi::hardware::register_ops::FlagRegister(0x10)));
    assert_eq!(CPU::shift(ShiftOp::Rlc, 0x00, true).1 .0, 0x80);
    assert_eq!(CPU::shift(ShiftOp::Rl, 0x80, false).0, 0x00);
    assert_eq!(CPU::shift(ShiftOp::Rl, 0x80, false).1 .0, 0x90);
    assert_eq!(CPU::shift(ShiftOp::Rl, 0x11, true).0, 0x23);
    assert_eq!(CPU::shift(ShiftOp::Rl, 0x11, true).1 .0, 0x00);
    assert_eq!(CPU::shift(ShiftOp::Rrc, 0x01, false).0, 0x80);
    assert_eq!(CPU::shift(ShiftOp::Rrc, 0x01, false).1 .0, 0x10);
    assert_eq!(CPU::shift(ShiftOp::Rr, 0x01, false).0, 0x00);
    assert_eq!(CPU::shift(ShiftOp::Rr, 0x01, false).1 .0, 0x90);
    assert_eq!(CPU::shift(ShiftOp::Rr, 0x8A, true).0, 0xC5);
    assert_eq!(CPU::shift(ShiftOp::Rr, 0x8A, true).1 .0, 0x00);
    assert_eq!(CPU::shift(ShiftOp::Sla, 0xFF, true).0, 0xFE);
    assert_eq!(CPU::shift(ShiftOp::Sla, 0xFF, true).1 .0, 0x10);
    assert_eq!(CPU::shift(ShiftOp::Sla, 0x80, true).1 .0, 0x90);
    assert_eq!(CPU::shift(ShiftOp::Sra, 0x81, false).0, 0xC0);
    assert_eq!(CPU::shift(ShiftOp::Sra, 0x81, false).1 .0, 0x10);
    assert_eq!(CPU::shift(ShiftOp::Sra, 0x7E, false).0, 0x3F);
    assert_eq!(CPU::shift(ShiftOp::Srl, 0x81, true).0, 0x40);
    assert_eq!(CPU::shift(ShiftOp::Srl, 0x81, true).1 .0, 0x10);
    assert_eq!(CPU::shift(ShiftOp::Srl, 0x01, false).1 .0, 0x90);
    assert_eq!(CPU::shift(ShiftOp::Swap, 0xF0, true).0, 0x0F);
    assert_eq!(CPU::shift(ShiftOp::Swap, 0xF0, true).1 .0, 0x00);
}

#[test]
fn shift_in_a_register_and_in_memory() {
    let (mut cpu, mut mmu) = machine(&[0x06, 0x81, 0xCB, 0x20, 0x21, 0x00, 0xC0, 0x36, 0x03, 0xCB, 0x1E]);
    assert_eq!(run(&mut cpu, &mut mmu, 2), vec![2, 2]);
    assert_eq!((cpu.registers.b.value, cpu.registers.f.value), (0x02, 0x10));
    assert_eq!(run(&mut cpu, &mut mmu, 3), vec![3, 3, 4]);
    assert_eq!(mmu.read_byte(0xC000), Ok(0x81));
    assert_eq!(cpu.registers.f.value, 0x10);
}

#[test]
fn binary_operation_by_name() {
    let (mut cpu, _) = machine(&[]);
    cpu.registers.a.value = 0x3A;
    cpu.registers.f.value = 0x10;
    cpu.binary_op(AluOp::Adc, 0xC6);
    assert_eq!((cpu.registers.a.value, cpu.registers.f.value), (0x01, 0x30));
    cpu.binary_op(AluOp::Cp, 0x02);
    assert_eq!((cpu.registers.a.value, cpu.registers.f.value), (0x01, 0x70));
    cpu.binary_op(AluOp::Sbc, 0x00);
    assert_eq!((cpu.registers.a.value, cpu.registers.f.value), (0x00, 0xC0));
    cpu.binary_op(AluOp::Or, 0x00);
    assert_eq!((cpu.registers.a.value, cpu.registers.f.value), (0x00, 0x80));
    cpu.binary_op(AluOp::Add, 0x00);
    assert_eq!((cpu.registers.a.value, cpu.registers.f.value), (0x00, 0x80));
    cpu.binary_op(AluOp::Sub, 0x01);
    assert_eq!((cpu.registers.a.value, cpu.registers.f.value), (0xFF, 0x70));
    cpu.binary_op(AluOp::And, 0x18);
    assert_eq!((cpu.registers.a.value, cpu.registers.f.value), (0x18, 0x20));
    cpu.binary_op(AluOp::Xor, 0x18);
    assert_eq!((cpu.registers.a.value, cpu.registers.f.value), (0x00, 0x80));
}

#[test]
fn loads_between_registers_and_memory() {
    let (mut cpu, mut mmu) = machine(&[
        0x3E, 0x12, 0x47, 0x48, 0x21, 0x00, 0xC0, 0x77, 0x56, 0xEA, 0x10, 0xC0, 0xFA, 0x00, 0xC0,
        0xE0, 0x80, 0xF0, 0x80, 0x0E, 0x81, 0xE2, 0xF2, 0x02, 0x0A, 0x12, 0x1A,
    ]);
    assert_eq!(run(&mut cpu, &mut mmu, 3), vec![2, 1, 1]);
    assert_eq!((cpu.registers.b.value, cpu.registers.c.value), (0x12, 0x12));
    assert_eq!(run(&mut cpu, &mut mmu, 3), vec![3, 2, 2]);
    assert_eq!(mmu.read_byte(0xC000), Ok(0x12));
    assert_eq!(cpu.registers.d.value, 0x12);
    assert_eq!(run(&mut cpu, &mut mmu, 2), vec![4, 4]);
    assert_eq!(mmu.read_byte(0xC010), Ok(0x12));
    assert_eq!(run(&mut cpu, &mut mmu, 2), vec![3, 3]);
    assert_eq!(mmu.read_byte(0xFF80), Ok(0x12));
    assert_eq!(run(&mut cpu, &mut mmu, 3), vec![2, 2, 2]);
    assert_eq!(mmu.read_byte(0xFF81), Ok(0x12));
    cpu.registers.b.value = 0xC1;
    cpu.registers.c.value = 0x00;
    cpu.registers.d.value = 0xC2;
    cpu.registers.e.value = 0x00;
    assert_eq!(run(&mut cpu, &mut mmu, 4), vec![2, 2, 2, 2]);
    assert_eq!(mmu.read_byte(0xC100), Ok(0x12));
    assert_eq!(mmu.read_byte(0xC200), Ok(0x12));
    assert_eq!(cpu.registers.f.value, 0xB0);
}

#[test]
fn loads_that_step_hl() {
    let (mut cpu, mut mmu) = machine(&[0x21, 0xFF, 0xC0, 0x22, 0x32, 0x2A, 0x3A, 0x21, 0xFF, 0xFF, 0x22]);
    cpu.registers.a.value = 0x5A;
    assert_eq!(run(&mut cpu, &mut mmu, 2), vec![3, 2]);
    assert_eq!(mmu.read_byte(0xC0FF), Ok(0x5A));
    assert_eq!(cpu.registers.hl(), 0xC100);
    cpu.registers.a.value = 0xA5;
    assert_eq!(run(&mut cpu, &mut mmu, 1), vec![2]);
    assert_eq!(mmu.read_byte(0xC100), Ok(0xA5));
    assert_eq!(cpu.registers.hl(), 0xC0FF);
    assert_eq!(run(&mut cpu, &mut mmu, 1), vec![2]);
    assert_eq!(cpu.registers.a.value, 0x5A);
    assert_eq!(cpu.registers.hl(), 0xC100);
    assert_eq!(run(&mut cpu, &mut mmu, 1), vec![2]);
    assert_eq!(cpu.registers.a.value, 0xA5);
    assert_eq!(cpu.registers.hl(), 0xC0FF);
    assert_eq!(run(&mut cpu, &mut mmu, 2), vec![3, 2]);
    assert_eq!(cpu.registers.hl(), 0x0000);
    assert_eq!(mmu.read_byte(0xFFFF), Ok(0xA5));
}

#[test]
fn sixteen_bit_loads() {
    let (mut cpu, mut mmu) = machine(&[0x11, 0x34, 0x12, 0x21, 0xCD, 0xAB, 0xF9, 0x08, 0x00, 0xC0]);
    assert_eq!(run(&mut cpu, &mut mmu, 4), vec![3, 3, 2, 5]);
    assert_eq!(cpu.registers.de(), 0x1234);
    assert_eq!(cpu.registers.sp.value, 0xABCD);
    assert_eq!(mmu.read_byte(0xC000), Ok(0xCD));
    assert_eq!(mmu.read_byte(0xC001), Ok(0xAB));
}

#[test]
fn call_and_return() {
    let mut program = vec![0u8; 0x101];
    program[0] = 0xCD;
    program[1] = 0x00;
    program[2] = 0x02;
    program[0x100] = 0xC9;
    let (mut cpu, mut mmu) = machine(&program);
    assert_eq!(run(&mut cpu, &mut mmu, 1), vec![6]);
    assert_eq!(cpu.registers.pc.value, 0x0200);
    assert_eq!(cpu.registers.sp.value, 0xFFFC);
    assert_eq!(mmu.read_byte(0xFFFC), Ok(0x03));
    assert_eq!(mmu.read_byte(0xFFFD), Ok(0x01));
    assert_eq!(run(&mut cpu, &mut mmu, 1), vec![4]);
    assert_eq!(cpu.registers.pc.value, 0x0103);
    assert_eq!(cpu.registers.sp.value, 0xFFFE);
}

#[test]
fn push_and_pop() {
    let (mut cpu, mut mmu) = machine(&[0x01, 0x34, 0x12, 0xC5, 0x01, 0x00, 0x00, 0xC1, 0xD5, 0xE1, 0xF5, 0xF1]);
    assert_eq!(run(&mut cpu, &mut mmu, 2), vec![3, 4]);
    assert_eq!(cpu.registers.sp.value, 0xFFFC);
    assert_eq!(mmu.read_word(0xFFFC), Ok(0x1234));
    assert_eq!(run(&mut cpu, &mut mmu, 2), vec![3, 3]);
    assert_eq!(cpu.registers.bc(), 0x1234);
    assert_eq!(cpu.registers.sp.value, 0xFFFE);
    assert_eq!(run(&mut cpu, &mut mmu, 2), vec![4, 3]);
    assert_eq!(cpu.registers.hl(), 0x00D8);
    assert_eq!(cpu.registers.de(), 0x00D8);
    assert_eq!(run(&mut cpu, &mut mmu, 2), vec![4, 3]);
    assert_eq!(cpu.registers.af(), 0x01B0);
    assert_eq!(cpu.registers.sp.value, 0xFFFE);
}

#[test]
fn pop_af_clears_the_low_nibble() {
    let (mut cpu, mut mmu) = machine(&[0xF1, 0xF5, 0xC1]);
    cpu.registers.sp.value = 0xC000;
    mmu.write_word(0xC000, 0x12FF).ok().unwrap();
    assert_eq!(run(&mut cpu, &mut mmu, 1), vec![3]);
    assert_eq!(cpu.registers.a.value, 0x12);
    assert_eq!(cpu.registers.f.value, 0xF0);
    assert_eq!(cpu.registers.sp.value, 0xC002);
    assert_eq!(run(&mut cpu, &mut mmu, 2), vec![4, 3]);
    assert_eq!(cpu.registers.bc(), 0x12F0);
}

#[test]
fn conditional_jumps_take_their_cycles() {
    // JR NZ, JR Z, JR NC, JR C with Z set and C clear
    for (opcode, taken) in [(0x20u8, false), (0x28, true), (0x30, true), (0x38, false)] {
        let (mut cpu, mut mmu) = machine(&[opcode, 0x10]);
        cpu.registers.f.value = 0x80;
        let cycles = run(&mut cpu, &mut mmu, 1);
        if taken {
            assert_eq!(cycles, vec![3]);
            assert_eq!(cpu.registers.pc.value, 0x0112);
        } else {
            assert_eq!(cycles, vec![2]);
            assert_eq!(cpu.registers.pc.value, 0x0102);
        }
    }
    // JP NZ, JP Z, JP NC, JP C with Z clear and C set
    for (opcode, taken) in [(0xC2u8, true), (0xCA, false), (0xD2, false), (0xDA, true)] {
        let (mut cpu, mut mmu) = machine(&[opcode, 0x34, 0x12]);
        cpu.registers.f.value = 0x10;
        let cycles = run(&mut cpu, &mut mmu, 1);
        if taken {
            assert_eq!(cycles, vec![4]);
            assert_eq!(cpu.registers.pc.value, 0x1234);
        } else {
            assert_eq!(cycles, vec![3]);
            assert_eq!(cpu.registers.pc.value, 0x0103);
        }
    }
}

#[test]
fn conditional_calls_and_returns_take_their_cycles() {
    for (opcode, taken) in [(0xC4u8, false), (0xCC, true), (0xD4, false), (0xDC, true)] {
        let (mut cpu, mut mmu) = machine(&[opcode, 0x00, 0x20]);
        cpu.registers.f.value = 0x90;
        let cycles = run(&mut cpu, &mut mmu, 1);
        if taken {
            assert_eq!(cycles, vec![6]);
            assert_eq!(cpu.registers.pc.value, 0x2000);
            assert_eq!(cpu.registers.sp.value, 0xFFFC);
            assert_eq!(mmu.read_word(0xFFFC), Ok(0x0103));
        } else {
            assert_eq!(cycles, vec![3]);
            assert_eq!(cpu.registers.pc.value, 0x0103);
            assert_eq!(cpu.registers.sp.value, 0xFFFE);
        }
    }
    for (opcode, taken) in [(0xC0u8, true), (0xC8, false), (0xD0, true), (0xD8, false)] {
        let (mut cpu, mut mmu) = machine(&[opcode]);
        cpu.registers.f.value = 0x00;
        cpu.registers.sp.value = 0xC000;
        mmu.write_word(0xC000, 0x4321).ok().unwrap();
        let cycles = run(&mut cpu, &mut mmu, 1);
        if taken {
            assert_eq!(cycles, vec![5]);
            assert_eq!(cpu.registers.pc.value, 0x4321);
            assert_eq!(cpu.registers.sp.value, 0xC002);
        } else {
            assert_eq!(cycles, vec![2]);
            assert_eq!(cpu.registers.pc.value, 0x0101);
            assert_eq!(cpu.registers.sp.value, 0xC000);
        }
    }
}

#[test]
fn unconditional_jumps() {
    let (mut cpu, mut mmu) = machine(&[0xC3, 0x50, 0x01]);
    assert_eq!(run(&mut cpu, &mut mmu, 1), vec![4]);
    assert_eq!(cpu.registers.pc.value, 0x0150);

    let (mut cpu, mut mmu) = machine(&[0xE9]);
    assert_eq!(run(&mut cpu, &mut mmu, 1), vec![1]);
    assert_eq!(cpu.registers.pc.value, 0x014D);

    let (mut cpu, mut mmu) = machine(&[0x18, 0xFE]);
    assert_eq!(run(&mut cpu, &mut mmu, 3), vec![3, 3, 3]);
    assert_eq!(cpu.registers.pc.value, 0x0100);

    let (mut cpu, mut mmu) = machine(&[0x18, 0x7F]);
    run(&mut cpu, &mut mmu, 1);
    assert_eq!(cpu.registers.pc.value, 0x0181);

    let (mut cpu, mut mmu) = machine(&[0x18, 0x80]);
    run(&mut cpu, &mut mmu, 1);
    assert_eq!(cpu.registers.pc.value, 0x0082);
}

#[test]
fn restarts() {
    for (opcode, target) in [
        (0xC7u8, 0x00u16),
        (0xCF, 0x08),
        (0xD7, 0x10),
        (0xDF, 0x18),
        (0xE7, 0x20),
        (0xEF, 0x28),
        (0xF7, 0x30),
        (0xFF, 0x38),
    ] {
        let (mut cpu, mut mmu) = machine(&[opcode]);
        assert_eq!(run(&mut cpu, &mut mmu, 1), vec![4]);
        assert_eq!(cpu.registers.pc.value, target);
        assert_eq!(cpu.registers.sp.value, 0xFFFC);
        assert_eq!(mmu.read_word(0xFFFC), Ok(0x0101));
    }
}

#[test]
fn return_from_interrupt_enables_at_once() {
    let (mut cpu, mut mmu) = machine(&[0xD9]);
    cpu.registers.sp.value = 0xC000;
    mmu.write_word(0xC000, 0x0234).ok().unwrap();
    assert!(!mmu.enable_interrupts);
    assert_eq!(run(&mut cpu, &mut mmu, 1), vec![4]);
    assert_eq!(cpu.registers.pc.value, 0x0234);
    assert!(mmu.enable_interrupts);
    assert!(!cpu.pending_enable);
}

#[test]
fn control_instructions() {
    let (mut cpu, mut mmu) = machine(&[0x00, 0x37, 0x3F, 0x3F, 0xFB, 0x00, 0xF3, 0x76]);
    cpu.registers.f.value = 0xE0;
    assert_eq!(run(&mut cpu, &mut mmu, 2), vec![1, 1]);
    assert_eq!(cpu.registers.f.value, 0x90);
    assert_eq!(run(&mut cpu, &mut mmu, 1), vec![1]);
    assert_eq!(cpu.registers.f.value, 0x80);
    assert_eq!(run(&mut cpu, &mut mmu, 1), vec![1]);
    assert_eq!(cpu.registers.f.value, 0x90);
    assert_eq!(run(&mut cpu, &mut mmu, 1), vec![1]);
    assert!(cpu.pending_enable);
    assert!(!mmu.enable_interrupts);
    assert_eq!(run(&mut cpu, &mut mmu, 1), vec![1]);
    assert!(!cpu.pending_enable);
    assert!(mmu.enable_interrupts);
    assert_eq!(run(&mut cpu, &mut mmu, 1), vec![1]);
    assert!(!mmu.enable_interrupts);
    assert!(!cpu.halt);
    assert_eq!(run(&mut cpu, &mut mmu, 1), vec![1]);
    assert!(cpu.halt);
    assert_eq!(cpu.registers.pc.value, 0x0108);
}

#[test]
fn stop_halts() {
    let (mut cpu, mut mmu) = machine(&[0x10]);
    assert_eq!(run(&mut cpu, &mut mmu, 1), vec![1]);
    assert!(cpu.halt);
}

#[test]
fn enable_then_disable_lets_nothing_through() {
    let (mut cpu, mut mmu) = machine(&[0xFB, 0xF3, 0x00]);
    mmu.write_byte(0xFFFF, 0x1F).ok().unwrap();
    mmu.write_byte(0xFF0F, 0x1F).ok().unwrap();
    for _ in 0..3 {
        assert_eq!(cpu.tick(&mut mmu).ok(), Some(1));
        assert_eq!(cpu.handle_interrupts(&mut mmu).ok(), Some(0));
    }
    assert_eq!(cpu.registers.pc.value, 0x0103);
    assert_eq!(mmu.read_byte(0xFF0F), Ok(0x1F));
    assert!(!mmu.enable_interrupts);
}

#[test]
fn enable_takes_effect_after_the_next_instruction() {
    let (mut cpu, mut mmu) = machine(&[0xFB, 0x3C, 0x3C]);
    mmu.write_byte(0xFFFF, 0x04).ok().unwrap();
    mmu.write_byte(0xFF0F, 0x04).ok().unwrap();
    assert_eq!(cpu.tick(&mut mmu).ok(), Some(1));
    assert_eq!(cpu.handle_interrupts(&mut mmu).ok(), Some(0));
    assert_eq!(cpu.registers.pc.value, 0x0101);
    assert_eq!(cpu.tick(&mut mmu).ok(), Some(1));
    assert_eq!(cpu.registers.a.value, 0x02);
    assert_eq!(cpu.handle_interrupts(&mut mmu).ok(), Some(5));
    assert_eq!(cpu.registers.pc.value, 0x0050);
    assert_eq!(cpu.registers.sp.value, 0xFFFC);
    assert_eq!(mmu.read_word(0xFFFC), Ok(0x0102));
    assert_eq!(mmu.read_byte(0xFF0F), Ok(0x00));
    assert!(!mmu.enable_interrupts);
    assert_eq!(cpu.handle_interrupts(&mut mmu).ok(), Some(0));
}

#[test]
fn interrupts_are_acknowledged_by_priority() {
    let (mut cpu, mut mmu) = machine(&[]);
    mmu.write_byte(0xFFFF, 0x1F).ok().unwrap();
    mmu.write_byte(0xFF0F, 0x1A).ok().unwrap();
    for (vector, left) in [(0x48u16, 0x18u8), (0x58, 0x10), (0x60, 0x00)] {
        mmu.write_interrupt_enable_reg(true);
        assert_eq!(cpu.handle_interrupts(&mut mmu).ok(), Some(5));
        assert_eq!(cpu.registers.pc.value, vector);
        assert_eq!(mmu.read_byte(0xFF0F), Ok(left));
        assert!(!mmu.enable_interrupts);
    }
    mmu.write_interrupt_enable_reg(true);
    assert_eq!(cpu.handle_interrupts(&mut mmu).ok(), Some(0));
    assert_eq!(cpu.registers.sp.value, 0xFFF8);
}

#[test]
fn flags_keep_a_zero_low_nibble() {
    for opcode in 0..=255u8 {
        for page in 0..2 {
            let (mut cpu, mut mmu) = machine(&[]);
            cpu.registers.sp.value = 0xD000;
            cpu.registers.h.value = 0xC1;
            mmu.write_word(0xD000, 0xFFFF).ok().unwrap();
            mmu.write_byte(0xC14D, 0xFF).ok().unwrap();
            let data = if page == 0 { base(opcode) } else { prefixed(opcode) };
            let _ = cpu.execute(&data, &[0xFF, 0xC0], &mut mmu);
            assert_eq!(cpu.registers.f.value & 0x0F, 0, "opcode {:X} of page {}", opcode, page);
        }
    }
}

#[test]
fn bytes_that_are_no_opcode_stop_the_processor() {
    for opcode in [0xD3u8, 0xDB, 0xDD, 0xE3, 0xE4, 0xEB, 0xEC, 0xED, 0xF4, 0xFC, 0xFD] {
        let (mut cpu, mut mmu) = machine(&[opcode]);
        assert!(matches!(
            cpu.tick(&mut mmu),
            Err(Error::DecodeError(DasmError::DecoderError("illegal opcode")))
        ));
        assert_eq!(cpu.registers.pc.value, 0x0101);
    }
}

#[test]
fn stack_that_leaves_the_address_space_is_a_checked_failure() {
    let (mut cpu, mut mmu) = machine(&[0xC5]);
    cpu.registers.sp.value = 0x0001;
    assert!(matches!(
        cpu.tick(&mut mmu),
        Err(Error::RegisterError(RegisterError::CheckedFailure))
    ));
    assert_eq!(cpu.registers.sp.value, 0x0001);

    let (mut cpu, mut mmu) = machine(&[0xC1]);
    cpu.registers.sp.value = 0xFFFE;
    assert!(matches!(
        cpu.tick(&mut mmu),
        Err(Error::RegisterError(RegisterError::CheckedFailure))
    ));
    assert_eq!(cpu.registers.sp.value, 0xFFFE);

    let (mut cpu, mut mmu) = machine(&[0xC1]);
    cpu.registers.sp.value = 0xFFFF;
    assert!(matches!(cpu.tick(&mut mmu), Err(Error::MmuError(MmuError::ReadError))));

    let (mut cpu, mut mmu) = machine(&[]);
    cpu.registers.sp.value = 0x0000;
    assert!(matches!(
        cpu.push_stack_byte(1, &mut mmu),
        Err(Error::RegisterError(RegisterError::CheckedFailure))
    ));
    cpu.registers.sp.value = 0xC001;
    assert!(cpu.push_stack_byte(0x5A, &mut mmu).is_ok());
    assert_eq!(cpu.registers.sp.value, 0xC000);
    assert_eq!(cpu.pop_stack_byte(&mut mmu).ok(), Some(0x5A));
    assert_eq!(cpu.registers.sp.value, 0xC001);
    assert!(cpu.push_stack_word(0xBEEF, &mut mmu).is_ok());
    assert_eq!(cpu.registers.sp.value, 0xBFFF);
    assert_eq!(cpu.pop_stack_word(&mut mmu).ok(), Some(0xBEEF));
}

#[test]
fn program_counter_that_leaves_the_address_space_is_a_checked_failure() {
    let (mut cpu, mut mmu) = machine(&[]);
    cpu.registers.pc.value = 0xFFFF;
    assert!(matches!(
        cpu.tick(&mut mmu),
        Err(Error::RegisterError(RegisterError::CheckedFailure))
    ));
    assert_eq!(cpu.registers.pc.value, 0xFFFF);

    let (mut cpu, mut mmu) = machine(&[]);
    cpu.registers.pc.value = 0xFFFE;
    mmu.write_byte(0xFFFE, 0x3E).ok().unwrap();
    assert!(matches!(
        cpu.tick(&mut mmu),
        Err(Error::RegisterError(RegisterError::CheckedFailure))
    ));

    let (mut cpu, mut mmu) = machine(&[]);
    cpu.registers.pc.value = 0xFFFE;
    mmu.write_byte(0xFFFE, 0x00).ok().unwrap();
    assert_eq!(cpu.tick(&mut mmu).ok(), Some(1));
    assert_eq!(cpu.registers.pc.value, 0xFFFF);

    let (mut cpu, mut mmu) = machine(&[]);
    cpu.registers.pc.value = 0x0000;
    let jump = base(0x18);
    assert!(matches!(
        cpu.execute(&jump, &[0xFF, 0x00], &mut mmu),
        Err(Error::RegisterError(RegisterError::CheckedFailure))
    ));
    assert_eq!(cpu.registers.pc.value, 0x0000);
    cpu.registers.pc.value = 0xFFFF;
    assert!(matches!(
        cpu.execute(&jump, &[0x01, 0x00], &mut mmu),
        Err(Error::RegisterError(RegisterError::CheckedFailure))
    ));
    assert_eq!(cpu.execute(&jump, &[0xFF, 0x00], &mut mmu).ok(), Some(3));
    assert_eq!(cpu.registers.pc.value, 0xFFFE);
}

#[test]
fn fetch_past_the_image_is_a_memory_error() {
    let mut cpu = CPU::new().ok().unwrap();
    let mut mmu = MMU::new(&vec![0u8; 0x100], &CartridgeType::ROM).ok().unwrap();
    assert!(matches!(
        cpu.tick(&mut mmu),
        Err(Error::MmuError(MmuError::MBCError(MbcError::Read(0x0100))))
    ));
    assert_eq!(cpu.registers.pc.value, 0x0101);
}

#[test]
fn fetch_decodes_and_moves_on() {
    let (mut cpu, mmu) = machine(&[0xCB, 0x37, 0x3E]);
    let data = cpu.fetch(&mmu).ok().unwrap();
    assert_eq!(data, prefixed(0x37));
    assert_eq!(cpu.registers.pc.value, 0x0101);
    cpu.registers.pc.value = 0x0102;
    assert_eq!(cpu.increment_pc().ok(), Some(0x0102));
    cpu.registers.pc.value = 0x0102;
    let data = cpu.fetch(&mmu).ok().unwrap();
    assert_eq!(data, base(0x3E));
    assert_eq!(cpu.registers.pc.value, 0x0103);
}

#[test]
fn evaluators_refuse_other_families() {
    let (mut cpu, mut mmu) = machine(&[]);
    let nop = base(0x00);
    let message = "Called evaluate_ld with NOP but expected type ADD. This is an unrecoverable program error";
    match cpu.evaluate_alu(&nop, &[0, 0], &mut mmu) {
        Err(Error::UnexpectedOpcode(text)) => assert_eq!(text, message),
        _ => panic!("the evaluator took an instruction of another family"),
    }
    assert!(matches!(cpu.evaluate_ld(&nop, &[0, 0], &mut mmu), Err(Error::UnexpectedOpcode(_))));
    assert!(matches!(
        cpu.evaluate_bitwise(&nop, &[0, 0], &mut mmu),
        Err(Error::UnexpectedOpcode(_))
    ));
    assert!(matches!(
        cpu.evaluate_branch(&nop, &[0, 0], &mut mmu),
        Err(Error::UnexpectedOpcode(_))
    ));
    assert!(matches!(
        cpu.evaluate_stack_op(&nop, &[0, 0], &mut mmu),
        Err(Error::UnexpectedOpcode(_))
    ));
    let add = base(0x80);
    assert!(matches!(
        cpu.evaluate_control(&add, &[0, 0], &mut mmu),
        Err(Error::UnexpectedOpcode(_))
    ));
    assert_eq!(cpu.evaluate_control(&nop, &[0, 0], &mut mmu).ok(), Some(1));
    assert_eq!(cpu.registers.pc.value, 0x0100);
    match unexpected_op(&Mnemonic::JP, &Mnemonic::LD) {
        Error::UnexpectedOpcode(text) => assert_eq!(
            text,
            "Called evaluate_ld with JP but expected type LD. This is an unrecoverable program error"
        ),
        _ => panic!("another kind of error"),
    }
}

#[test]
fn selectors_that_name_no_register_are_refused() {
    let (mut cpu, mut mmu) = machine(&[]);
    let mut data = base(0x80);
    data.byte_data.rhs = 6;
    assert!(matches!(
        cpu.evaluate_alu(&data, &[0, 0], &mut mmu),
        Err(Error::RegisterError(RegisterError::InvalidLookupInput))
    ));
    let mut data = prefixed(0x40);
    data.byte_data.lhs = 8;
    assert!(matches!(
        cpu.evaluate_bitwise(&data, &[0, 0], &mut mmu),
        Err(Error::RegisterError(RegisterError::InvalidLookupInput))
    ));
    let mut data = base(0x01);
    data.byte_data.lhs = 8;
    assert!(matches!(
        cpu.evaluate_ld(&data, &[0, 0], &mut mmu),
        Err(Error::RegisterError(RegisterError::InvalidLookupInput))
    ));
    assert_eq!(cpu.registers.f.value, 0xB0);
}

/// The machine cycles of the first page where a conditional instruction is not taken; 0 marks
/// the bytes that are no opcode and the prefix.
const CYCLES: [u8; 256] = [
    1, 3, 2, 2, 1, 1, 2, 1, 5, 2, 2, 2, 1, 1, 2, 1, // 0x
    1, 3, 2, 2, 1, 1, 2, 1, 3, 2, 2, 2, 1, 1, 2, 1, // 1x
    2, 3, 2, 2, 1, 1, 2, 1, 2, 2, 2, 2, 1, 1, 2, 1, // 2x
    2, 3, 2, 2, 3, 3, 3, 1, 2, 2, 2, 2, 1, 1, 2, 1, // 3x
    1, 1, 1, 1, 1, 1, 2, 1, 1, 1, 1, 1, 1, 1, 2, 1, // 4x
    1, 1, 1, 1, 1, 1, 2, 1, 1, 1, 1, 1, 1, 1, 2, 1, // 5x
    1, 1, 1, 1, 1, 1, 2, 1, 1, 1, 1, 1, 1, 1, 2, 1, // 6x
    2, 2, 2, 2, 2, 2, 1, 2, 1, 1, 1, 1, 1, 1, 2, 1, // 7x
    1, 1, 1, 1, 1, 1, 2, 1, 1, 1, 1, 1, 1, 1, 2, 1, // 8x
    1, 1, 1, 1, 1, 1, 2, 1, 1, 1, 1, 1, 1, 1, 2, 1, // 9x
    1, 1, 1, 1, 1, 1, 2, 1, 1, 1, 1, 1, 1, 1, 2, 1, // Ax
    1, 1, 1, 1, 1, 1, 2, 1, 1, 1, 1, 1, 1, 1, 2, 1, // Bx
    2, 3, 3, 4, 3, 4, 2, 4, 2, 4, 3, 0, 3, 6, 2, 4, // Cx
    2, 3, 3, 0, 3, 4, 2, 4, 2, 4, 3, 0, 3, 0, 2, 4, // Dx
    3, 3, 2, 0, 0, 4, 2, 4, 4, 1, 4, 0, 0, 0, 2, 4, // Ex
    3, 3, 2, 1, 0, 4, 2, 4, 3, 2, 4, 1, 0, 0, 2, 4, // Fx
];

#[test]
fn instructions_take_their_documented_cycles() {
    for opcode in 0..=255u8 {
        if CYCLES[opcode as usize] == 0 {
            continue;
        }
        let (mut cpu, mut mmu) = machine(&[opcode, 0x02, 0xC0]);
        cpu.registers.sp.value = 0xD000;
        cpu.registers.h.value = 0xC1;
        // Z and C are set where the condition of the instruction asks for them clear, and
        // clear where it asks for them set, so that no conditional instruction is taken.
        cpu.registers.f.value = match opcode {
            0x20 | 0xC0 | 0xC2 | 0xC4 => 0x80,
            0x30 | 0xD0 | 0xD2 | 0xD4 => 0x10,
            _ => 0x00,
        };
        assert_eq!(
            cpu.tick(&mut mmu).ok(),
            Some(CYCLES[opcode as usize]),
            "opcode {:02X}",
            opcode
        );
    }
    for opcode in 0..=255u8 {
        let (mut cpu, mut mmu) = machine(&[0xCB, opcode]);
        cpu.registers.h.value = 0xC1;
        let expected = if opcode & 0x07 != 0x06 {
            2
        } else if (0x40..0x80).contains(&opcode) {
            3
        } else {
            4
        };
        assert_eq!(cpu.tick(&mut mmu).ok(), Some(expected), "opcode CB {:02X}", opcode);
        assert_eq!(cpu.registers.pc.value, 0x0102);
    }
}

#[test]
fn instructions_move_the_program_counter_past_themselves() {
    for opcode in 0..=255u8 {
        let jumps = matches!(
            opcode,
            0x18 | 0xC3 | 0xC7 | 0xC9 | 0xCD | 0xCF | 0xD7 | 0xD9 | 0xDF | 0xE7 | 0xE9 | 0xEF | 0xF7
                | 0xFF
        );
        if CYCLES[opcode as usize] == 0 || jumps {
            continue;
        }
        let (mut cpu, mut mmu) = machine(&[opcode, 0x02, 0xC0]);
        cpu.registers.sp.value = 0xD000;
        cpu.registers.h.value = 0xC1;
        cpu.registers.f.value = match opcode {
            0x20 | 0xC0 | 0xC2 | 0xC4 => 0x80,
            0x30 | 0xD0 | 0xD2 | 0xD4 => 0x10,
            _ => 0x00,
        };
        let size = match opcode {
            0x01 | 0x08 | 0x11 | 0x21 | 0x31 | 0xC2 | 0xC4 | 0xCA | 0xCC | 0xD2 | 0xD4 | 0xDA
            | 0xDC | 0xEA | 0xFA => 2,
            0x06 | 0x0E | 0x16 | 0x1E | 0x20 | 0x26 | 0x28 | 0x2E | 0x30 | 0x36 | 0x38 | 0x3E
            | 0xC6 | 0xCE | 0xD6 | 0xDE | 0xE0 | 0xE6 | 0xE8 | 0xEE | 0xF0 | 0xF6 | 0xF8 | 0xFE => 1,
            _ => 0,
        };
        cpu.tick(&mut mmu).ok().unwrap();
        assert_eq!(cpu.registers.pc.value, 0x0101 + size, "opcode {:02X}", opcode);
    }
}
