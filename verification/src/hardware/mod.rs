//! The machine: processor, memory unit, clock, and the tables of the
//! instruction set.

pub mod cartridge_header;
pub mod clock;
pub mod cpu;
pub mod gameboy;
pub mod hardware_registers;
pub mod jump_condition;
pub mod memory_region;
pub mod mmu;
pub mod mnemonic;
pub mod opcode;
pub mod opcodes;
pub mod register;
pub mod register_ops;
