//! The instruction-execution core of a handheld-console emulator: a
//! register file with flag semantics, an opcode dispatcher that mutates
//! register state per the machine's arithmetic rules, and a cartridge
//! header reader that extracts fixed-offset metadata from a binary image
//! and validates it with a running checksum.
//!
//! Every operation is a deterministic pure transformation over
//! already-loaded data; the contracts pin the bit-exact behavior the
//! downstream software depends on: 8-bit wraparound, half-carry at the
//! nibble boundary, zero- and carry-flag derivation, and the header's
//! offset table and checksum fold.

pub mod cart;
pub mod cpu;
pub mod registers;
