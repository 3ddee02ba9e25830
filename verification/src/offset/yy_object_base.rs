//! YYObjectBase

use vstd::prelude::*;

verus! {

/// CHashMap<int,_RValue_*,_3>* m_yyvarsMap
pub const YY_VARS_MAP: u64 = 0x48;

} // verus!
