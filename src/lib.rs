//! An emulator core for the 6502 processor of a classic game console: the
//! status flags, the mapped address space, the addressing modes, every
//! instruction group, and the decode-and-execute engine.
pub mod flags;
pub mod mem_map;
pub mod memory;
pub mod addressing;
pub mod adc;
pub mod sbc;
pub mod and;
pub mod or;
pub mod shift_addr;
pub mod asl;
pub mod lsr;
pub mod rol;
pub mod ror;
pub mod compare;
pub mod increment_decrement;
pub mod load_store;
pub mod branch;
pub mod jumps;
pub mod misc_instructions;
pub mod nes_6502;
pub mod ppu;
pub mod cartridge;
pub mod step;
