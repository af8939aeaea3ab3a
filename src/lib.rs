//! Host information probe: battery readings and installed-package counts.
//!
//! The library holds the decisions; the caller performs the reads and runs
//! the commands that the library describes, then hands their output back.
pub mod text;
pub mod command;
pub mod platform;
pub mod package;
pub mod battery;
