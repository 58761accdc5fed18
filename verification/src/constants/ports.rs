//! Limits on port numbers and port counts.

use vstd::prelude::*;

verus! {

pub const MAX: u16 = 65535;

pub const MIN: u16 = 1;

pub const DEFAULT_LIMIT: u16 = 1000;

pub const MAX_K_VALUE: u16 = 30;

} // verus!
