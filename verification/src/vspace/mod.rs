//! Abstraction for a vspace window.

pub mod window;

pub use self::window::VSpaceWindow;
