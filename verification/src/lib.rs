//! A userspace watchdog for stuck kernel writeback workers.
//!
//! The library monitors `kworker` threads: it looks for the oldest running
//! process owned by root whose command name matches a configured glob
//! pattern, and decides, from that process's age against a threshold,
//! whether a system-wide filesystem sync must be triggered to free a stalled
//! writeback worker. When no such process exists it waits, bounded by a
//! safety-net timeout, for a new matching process to appear.

pub mod config;
pub mod engine;
pub mod mock;
pub mod process;
pub mod system;
