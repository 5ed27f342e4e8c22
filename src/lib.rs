//! A cycle-accounted interpreter for the processor of an 8-bit handheld game
//! console, with its memory bus and cartridge header parser.
//!
//! - `regs`: register pairs, split into bytes and joined again.
//! - `mem`: the address space, decoded into regions, with byte and word access.
//! - `cart`: the cartridge header and what the cartridge type implies.
//! - `cpu`: the registers, the flags, and the instructions that run on them.
pub mod cart;
pub mod cpu;
pub mod mem;
pub mod regs;
