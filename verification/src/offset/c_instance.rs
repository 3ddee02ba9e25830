//! CInstance

use vstd::prelude::*;

verus! {

/// CObjectGM* m_pObject
pub const P_OBJECT: u64 = 0x90;

/// int i_id
pub const ID: u64 = 0xb4;

} // verus!
