//! Architectural abstraction layer.

pub mod x86_64;
