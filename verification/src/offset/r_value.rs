//! RValue

use vstd::prelude::*;

verus! {

/// uint kind
pub const KIND: u64 = 0xc;

} // verus!
