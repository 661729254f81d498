//! A hand-held 8-bit console core: register file, instruction decoder,
//! interpreter, memory bus, cartridge mappers, picture unit, timer, joypad
//! and interrupt controller, each with machine-checked contracts.

pub mod util;
pub mod register;
pub mod alu;
pub mod mmu;
pub mod interupts;
pub mod timer;
pub mod joypad;
pub mod apu;
pub mod cartridge;
pub mod gpu;
pub mod dissasembler;
pub mod cpu;
