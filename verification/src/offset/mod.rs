//! Where the fields the reader needs lie within the runtime's structures.

pub mod c_instance;
pub mod c_object_gm;
pub mod c_room;
pub mod o_linked_list;
pub mod r_value;
pub mod yy_object_base;
