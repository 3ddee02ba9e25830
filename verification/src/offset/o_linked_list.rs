//! OLinkedList

use vstd::prelude::*;

verus! {

/// T* m_PFirst
pub const M_P_FIRST: u64 = 0x0;

} // verus!
