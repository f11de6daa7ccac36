//! Bootstrap core of a 64-bit x86 microkernel.
//!
//! This crate covers the code that runs between boot-loader handoff and a
//! running kernel: proving a piece of raw memory safe to interpret as a typed
//! structure before doing so (vspace windows), handing out irrevocable memory
//! from firmware-reported free ranges (the memory-stealing arena), and
//! discovering hardware topology by walking checksummed firmware tables
//! (ACPI/MADT). Device-register pokes, MSR writes and the final `hlt` live in
//! the surrounding unverified binary; this crate supplies the decisions and
//! the exact port-write sequences they must perform.

pub mod arch;
pub mod config;
pub mod mem;
pub mod plat;
pub mod steal_mem;
pub mod types;
pub mod util;
pub mod vspace;
