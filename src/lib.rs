//! A verified model of the NES core: the 6502 CPU with its opcode table and
//! cycle accounting, the CPU bus with mirrored RAM and open-bus behaviour, and
//! iNES cartridges with mappers 0 and 2.

pub mod cartridge;
pub mod cpu_bus;
pub mod cpu;
pub mod addressing;
pub mod operations;
pub mod instructions;
pub mod text;
pub mod disassembler;
pub mod nes;
