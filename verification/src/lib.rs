//! Decision logic of an ADB server.
pub mod cli;
pub mod daemon;
pub mod daemon_laws;
pub mod models;
pub mod number;
pub mod order;
pub mod path;
pub mod protocol;
pub mod selftest;
pub mod server;
pub mod text;
pub mod words;
