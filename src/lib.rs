//! An emulator core for a reduced MIPS-like instruction set: a flat word
//! bus, a fetch/decode/dispatch engine and one handler per instruction.
pub mod bits;
pub mod bus;
pub mod cpu;
pub mod dispatch;
pub mod instructions;
pub mod laws;
