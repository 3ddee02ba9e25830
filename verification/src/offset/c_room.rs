//! CRoom

use vstd::prelude::*;

verus! {

/// OLinkedList<CInstance> m_Active
pub const M_ACTIVE: u64 = 0xd8;

} // verus!
