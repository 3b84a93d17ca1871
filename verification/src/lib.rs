//! Instruction-set emulator core for the Renesas H8/300H family.
//!
//! Eight 32-bit general registers with aliased byte/word/long views, an
//! 8-bit condition code register, a byte-addressable 16 MiB memory image
//! with big-endian word and long layout, and an instruction execution
//! engine covering the MOV, ADD, SUB, CMP, ADDS, SUBS, BXOR, Bcc, JMP,
//! JSR, RTS and TRAPA opcodes, with per-instruction state (cycle) counts.

pub mod bits;
pub mod bus;
pub mod ccr;
pub mod regs;
pub mod addressing;
pub mod cpu;
pub mod mov_b;
pub mod mov_w;
pub mod mov_l;
pub mod arith;
pub mod bxor;
pub mod branch;
pub mod exec;
pub mod notify;
pub mod laws;
