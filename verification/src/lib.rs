//! Core of a NES emulator: the iNES cartridge parser, the system bus, the
//! MOS 6502 interpreter and an execution tracer.
//!
//! Every executable function comes with a contract over a mathematical model
//! of the machine: [`bus::Memory`] for the address space and
//! [`machine::Machine`] for the processor.

pub mod bus;
pub mod cartridge;
pub mod cpu;
pub mod fault;
pub mod host;
pub mod machine;
pub mod opcodes;
pub mod status;
pub mod trace;
