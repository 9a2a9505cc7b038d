//! The self-test: its cases, what they find and how that is reported.
pub mod report;
pub mod suite;
pub mod report_laws;
pub mod judge;
pub mod judge_laws;
pub mod parity;
pub mod parity_laws;
pub mod polling;
pub mod polling_laws;
pub mod interactive;
pub mod interactive_laws;
