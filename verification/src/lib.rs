//! Generator of hardware-register accessor code.
//!
//! A register is a fixed-width integer storage unit partitioned into named
//! bitfields. For each field this library synthesizes the text of bit-exact
//! getter and setter routines, and it assembles those routines into per-width
//! base artifacts and per-family umbrella artifacts. The bit arithmetic that
//! the synthesized accessors perform (masks, shifts, sign extension, range
//! checks) is itself implemented and verified here, so that the emitted
//! algorithm's round-trip and framing properties are machine-checked.

pub mod access_methods;
pub mod artifacts;
pub mod bitfield;
pub mod decimal;
pub mod model;
pub mod register_value;
