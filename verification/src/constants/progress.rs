//! The progress display.

use vstd::prelude::*;

verus! {

pub const DEFAULT_WIDTH: usize = 40;

} // verus!
