//! An emulator of the MOS 6502 processor on a flat 64 KiB memory.
//!
//! The behaviour of the processor is defined by the pure model in
//! [`machine`]; the executable processor in [`cpu`] is proved to follow it
//! instruction by instruction.
//!
//! - [`word`]: bytes and words as numbers, wrapping arithmetic
//! - [`bus`]: the memory
//! - [`flags`]: the status register
//! - [`addressing`]: the addressing modes
//! - [`opcode`]: the mnemonics and the opcode matrix
//! - [`machine`]: the model of the processor
//! - [`cpu`]: the processor itself
//! - [`laws`]: what holds between the operations of the model
//! - [`hexdump`]: programs written as text, one byte a line
//! - [`nes`]: cartridge images

pub mod word;
pub mod bus;
pub mod flags;
pub mod addressing;
pub mod opcode;
pub mod machine;
pub mod cpu;
pub mod laws;
pub mod hexdump;
pub mod nes;
