//! Instances of objects in the current room, and where their fields lie.

use vstd::prelude::*;

use crate::engine::{Engine, VersionSpecific};
use crate::offset;

verus! {

use vstd::wrapping::u64_specs::wrapping_add;

/// An instance of a GameMaker object: the address of its CInstance.
#[derive(Clone, Copy, Debug, PartialEq, Eq, Structural)]
pub struct Instance {
    addr: u64,
}

impl View for Instance {
    type V = u64;

    closed spec fn view(&self) -> u64 {
        self.addr
    }
}

impl Instance {
    /// The instance whose CInstance lies at `addr`.
    pub fn from_address(addr: u64) -> (i: Instance)
        ensures
            i@ == addr,
    {
        Instance { addr }
    }

    /// The address of the instance's CInstance.
    pub fn address(&self) -> (addr: u64)
        ensures
            addr == self@,
    {
        self.addr
    }

    /// Where the instance's id (an `i32`) lies.
    pub fn id_address(&self) -> (addr: u64)
        ensures
            addr == wrapping_add(self@, offset::c_instance::ID),
    {
        self.addr.wrapping_add(offset::c_instance::ID)
    }

    /// Where the pointer to the instance's object (its CObjectGM) lies.
    pub fn object_pointer_address(&self) -> (addr: u64)
        ensures
            addr == wrapping_add(self@, offset::c_instance::P_OBJECT),
    {
        self.addr.wrapping_add(offset::c_instance::P_OBJECT)
    }

    /// Where the pointer to the instance's map from variable slots to
    /// values lies.
    pub fn vars_map_pointer_address(&self) -> (addr: u64)
        ensures
            addr == wrapping_add(self@, offset::yy_object_base::YY_VARS_MAP),
    {
        self.addr.wrapping_add(offset::yy_object_base::YY_VARS_MAP)
    }

    /// Where the pointer to the next instance of the room lies, in the
    /// runtime version `version`.
    pub fn next_pointer_address(&self, version: &VersionSpecific) -> (addr: u64)
        ensures
            addr == wrapping_add(self@, version.c_instance_p_next_offset as u64),
    {
        self.addr.wrapping_add(version.c_instance_p_next_offset as u64)
    }
}

/// Where the pointer to an object's name (a C string) lies, for the
/// object whose CObjectGM is at `object`.
pub fn object_name_pointer_address(object: u64) -> (addr: u64)
    ensures
        addr == wrapping_add(object, offset::c_object_gm::P_NAME),
{
    object.wrapping_add(offset::c_object_gm::P_NAME)
}

/// Where the pointer to the first active instance of the room lies.
pub fn first_instance_pointer_address(engine: &Engine) -> (addr: u64)
    ensures
        addr == wrapping_add(
            engine.run_room,
            (offset::c_room::M_ACTIVE + offset::o_linked_list::M_P_FIRST) as u64,
        ),
{
    engine.run_room.wrapping_add(offset::c_room::M_ACTIVE + offset::o_linked_list::M_P_FIRST)
}

/// The instance that follows, given the next-pointer read from the one
/// before: the list ends at a null pointer.
pub fn next_instance(next_ptr: u64) -> (i: Option<Instance>)
    ensures
        next_ptr == 0 ==> i is None,
        next_ptr != 0 ==> i is Some && i->0@ == next_ptr,
{
    if next_ptr == 0 {
        None
    } else {
        Some(Instance { addr: next_ptr })
    }
}

/// The key under which the instance's map stores variable slot `slot`:
/// the slot with whether the runtime hashes slot numbers the complex way.
pub fn vars_map_key(slot: i32, engine: &Engine) -> (key: (i32, bool))
    ensures
        key == (slot, engine.version_specific.slot_to_var_map_uses_complex_hash),
{
    (slot, engine.version_specific.slot_to_var_map_uses_complex_hash)
}

/// The address of a variable's RValue, given what the lookup in the
/// instance's map found: `None` where it found nothing or a null pointer.
pub fn value_pointer(found: Option<u64>) -> (rv: Option<u64>)
    ensures
        rv == (match found {
            Some(p) => if p != 0 {
                Some(p)
            } else {
                None
            },
            None => None,
        }),
{
    match found {
        Some(p) => if p != 0 {
            Some(p)
        } else {
            None
        },
        None => None,
    }
}

/// Where the `kind` field of the RValue at `rv` lies.
pub fn kind_address(rv: u64) -> (addr: u64)
    ensures
        addr == wrapping_add(rv, offset::r_value::KIND),
{
    rv.wrapping_add(offset::r_value::KIND)
}

} // verus!
