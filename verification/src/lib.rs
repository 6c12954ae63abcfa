//! Decoding and rendering of the fixed-size header of an ELF object file.

pub mod elf;
pub mod emachine;
pub mod endian;
pub mod numeral;
pub mod report;
