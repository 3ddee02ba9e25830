//! CObjectGM

use vstd::prelude::*;

verus! {

/// char* m_pName
pub const P_NAME: u64 = 0x00;

} // verus!
