//! Limits and defaults.

pub mod ports;
pub mod progress;
pub mod validation;

use vstd::prelude::*;

verus! {

pub const DEFAULT_SCAN_TIMEOUT_MS: u64 = 1000;

pub const MAX_CONCURRENT_CONNS: usize = 200;

pub const DEFAULT_EXPLOIT_TIMEOUT_SECS: u64 = 10;

pub const NMAP_TIMEOUT_SECS: u64 = 30;

pub const NMAP_VERSION_INTENSITY: u8 = 1;

pub const PROGRESS_UPDATE_INTERVAL_MS: u64 = 100;

pub const MAX_DISPLAYED_EXPLOITS: usize = 10;

} // verus!
