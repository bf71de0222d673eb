//! An interpreter for the Sharp LR35902, the CPU of an 8-bit handheld game
//! console, together with the memory bus it talks to and the cartridge image
//! that the bus serves.
pub mod alu;
pub mod bus;
pub mod cartridge;
pub mod cpu;
pub mod gameboy;
pub mod instructions;
pub mod sharp8080;
