//! The command line: what a command does, and what it says.
pub mod commands;
pub mod hex;
pub mod laws;
pub mod persistent;
pub mod usb;
