//! x86_64 architecture implementation.

pub mod boot;
pub mod cpu;
pub mod paging;
pub mod vspace;
