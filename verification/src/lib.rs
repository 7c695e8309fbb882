//! Core of a replication-lag monitor.
//!
//! A writer stamps the primary store with millisecond markers, two readers
//! copy the latest marker of their endpoint into a register each, and a
//! reporter turns the two registers into a lag figure. This crate holds the
//! decisions and the arithmetic of those tasks; the runtime that awaits
//! timers and store calls lives outside of it.

pub mod endpoints;
pub mod marker;
pub mod monitor;
pub mod reader;
pub mod register;
pub mod reporter;
pub mod store;
pub mod writer;
