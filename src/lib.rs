//! An emulator core for a 6502-class processor: byte-addressed memory, addressing-mode
//! resolvers, effect appliers, an opcode table and the fetch/decode/execute loop.
pub mod memory;
pub mod cpu;
pub mod instruction;
pub mod mos6502;
