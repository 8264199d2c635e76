//! An emulator core for the original Game Boy: the processor with its two
//! instruction pages, the memory unit with the cartridge's bank controller
//! behind it, the divider and timer, and the interrupts that tie them
//! together. The library is verified with Verus against contracts over a
//! mathematical model of the machine: what an instruction does is a function
//! from the processor and the memory to the processor, the memory and the
//! machine cycles it takes.

pub mod dasm;
pub mod debug_logger;
pub mod hardware;
pub mod mbc;
pub mod util;
