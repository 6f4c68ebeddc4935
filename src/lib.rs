//! Core of an emulator for a 64-bit load/store register machine: fetch of
//! fixed-width little-endian instruction words, decoding of their bit fields,
//! and execution against a 32-slot register file.

pub mod cpu;
pub mod decode;
pub mod laws;
pub mod report;
