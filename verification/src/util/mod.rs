//! Utility functions and constants.

pub mod constants;
pub mod math;
pub mod string;

pub use self::constants::{GB, KB, MB};
pub use self::math::round_up;
pub use self::string::FromStrExt;
