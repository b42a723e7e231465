//! Polling, de-duplication and delivery pipeline for periodic alert sources.
//!
//! The crate holds the rules of the pipeline and is verified with Verus. The
//! few functions that call into `chrono` or the standard library without proof
//! say so in their doc comments. Reading files, sockets and the clock is left
//! to the callers of the crate.

pub mod config;
pub mod dispatch;
pub mod scheduler;
pub mod services;
pub mod state;
pub mod telegram;
pub mod text;
pub mod time;
