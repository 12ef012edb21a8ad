//! Instruction-level emulation core of an 8-bit Sharp LR35902-class CPU:
//! a register file with a bit-packed flags byte, a flat 64KB memory bus with
//! a memory-mapped video-RAM window, a two-level opcode decoder, and a
//! fetch-decode-execute engine with hardware-style wrapping arithmetic.

pub mod bus;
pub mod cpu;
pub mod gpu;
pub mod instructions;
pub mod registers;
