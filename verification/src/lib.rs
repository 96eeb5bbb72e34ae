//! Verified core of a multi-system retro console emulator: the Sega Master
//! System / Game Gear cartridge and memory map, the Motorola 68000 execution
//! engine, and the configuration types shared by the frontends.

pub mod bits;
pub mod cartridge;
pub mod frontend;
pub mod gb;
pub mod genesis;
pub mod m68k_bus;
pub mod m68k_cpu;
pub mod m68k_executor;
pub mod m68k_instructions;
pub mod m68k_registers;
pub mod memory;
pub mod state;
