//! Detection of suspicious activity in decoded Windows event-log records.
//!
//! The crate holds the rule registry, the command-line suspicion analyzer,
//! the per-channel detectors and the router that dispatches each record to
//! its detector. Every function is verified against its contract.

pub mod application;
pub mod applocker;
pub mod codec;
pub mod configs;
pub mod detection;
pub mod event;
pub mod laws;
pub mod pattern;
pub mod powershell;
pub mod print;
pub mod report;
pub mod sysmon;
pub mod system;
pub mod text;
pub mod utils;
