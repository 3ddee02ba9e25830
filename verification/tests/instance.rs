use mondealy_splitter::engine::{Engine, VersionSpecific};
use mondealy_splitter::instance::{
    first_instance_pointer_address, kind_address, next_instance, object_name_pointer_address,
    value_pointer, vars_map_key, Instance,
};
use mondealy_splitter::offset::{c_instance, c_object_gm, c_room, o_linked_list, r_value, yy_object_base};

#[test]
fn offsets() {
    assert_eq!(c_instance::P_OBJECT, 0x90);
    assert_eq!(c_instance::ID, 0xb4);
    assert_eq!(c_object_gm::P_NAME, 0);
    assert_eq!(yy_object_base::YY_VARS_MAP, 0x48);
    assert_eq!(r_value::KIND, 0xc);
    assert_eq!(c_room::M_ACTIVE, 0xd8);
    assert_eq!(o_linked_list::M_P_FIRST, 0);
}

#[test]
fn instance_field_addresses() {
    let i = Instance::from_address(0x1_0000);
    assert_eq!(i.address(), 0x1_0000);
    assert_eq!(i.id_address(), 0x1_00b4);
    assert_eq!(i.object_pointer_address(), 0x1_0090);
    assert_eq!(i.vars_map_pointer_address(), 0x1_0048);
    assert_eq!(i.next_pointer_address(&VersionSpecific::nov_2023()), 0x1_01a0);
    assert_eq!(i.next_pointer_address(&VersionSpecific::mondealy()), 0x1_0198);
    assert_eq!(object_name_pointer_address(0x5000), 0x5000);
    assert_eq!(kind_address(0x7000), 0x700c);
}

#[test]
fn instance_addresses_wrap() {
    let i = Instance::from_address(u64::MAX);
    assert_eq!(i.id_address(), 0xb3);
    assert_eq!(kind_address(u64::MAX - 1), 0xa);
}

#[test]
fn first_instance_of_room() {
    let engine = Engine {
        instance_var_lookup: 0,
        run_room: 0x4000,
        version_specific: VersionSpecific::nov_2023(),
    };
    assert_eq!(first_instance_pointer_address(&engine), 0x40d8);
}

#[test]
fn instance_list_ends_at_null() {
    assert_eq!(next_instance(0), None);
    assert_eq!(next_instance(0x1234), Some(Instance::from_address(0x1234)));
}

#[test]
fn vars_map_keys_follow_version() {
    let mut engine = Engine {
        instance_var_lookup: 0,
        run_room: 0,
        version_specific: VersionSpecific::mondealy(),
    };
    assert_eq!(vars_map_key(42, &engine), (42, true));
    engine.version_specific = VersionSpecific::nov_2023();
    assert_eq!(vars_map_key(42, &engine), (42, false));
}

#[test]
fn value_pointers() {
    assert_eq!(value_pointer(None), None);
    assert_eq!(value_pointer(Some(0)), None);
    assert_eq!(value_pointer(Some(0x88)), Some(0x88));
}
