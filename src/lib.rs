//! A CHIP-8 interpreter core: memory, registers, display buffer, the opcode
//! decoder and the instruction set, driven one fetch-decode-execute cycle at a time.
pub mod opcode;
pub mod gpu;
pub mod memory;
pub mod cpu;
pub mod iset;
pub mod emulator;
pub mod laws;
