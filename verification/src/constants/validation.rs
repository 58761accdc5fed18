//! Limits on what a user may enter.

use vstd::prelude::*;

verus! {

pub const MAX_TARGET_LENGTH: usize = 253;

} // verus!
