//! The decisions of a port scanner.
//!
//! Everything here works on plain values. Whoever uses the library looks names
//! up, opens connections, runs programs and asks the user; the library is told
//! what came of it and says what that means and what is to be done next. See
//! [`run`] for the course of a scan and [`setup`] for the way to its
//! configuration.

pub mod arguments;
pub mod config;
pub mod constants;
pub mod decimal;
pub mod detection;
pub mod duration;
pub mod error;
pub mod external;
pub mod laws;
pub mod prompts;
pub mod rate_limit;
pub mod report;
pub mod run;
pub mod scanner;
pub mod setup;
pub mod sorting;
pub mod text;
pub mod usage;
pub mod utils;
pub mod validation;
pub mod xml;
