use mondealy_splitter::variable::{VariableKind, KIND_MASK};

#[test]
fn kinds_by_number() {
    let expected = [
        (0, Some(VariableKind::Real)),
        (1, Some(VariableKind::String)),
        (2, Some(VariableKind::Array)),
        (3, Some(VariableKind::Ptr)),
        (4, Some(VariableKind::Vec3)),
        (5, Some(VariableKind::Undefined)),
        (6, Some(VariableKind::Object)),
        (7, Some(VariableKind::Int32)),
        (8, Some(VariableKind::Vec4)),
        (9, Some(VariableKind::Matrix)),
        (10, Some(VariableKind::Int64)),
        (11, Some(VariableKind::JsProperty)),
        (12, None),
        (13, Some(VariableKind::Bool)),
        (14, None),
    ];
    for (raw, kind) in expected {
        assert_eq!(VariableKind::from_raw(raw), kind, "kind {}", raw);
    }
}

#[test]
fn kind_flags_are_ignored() {
    assert_eq!(KIND_MASK, 0x0ff_ffff);
    assert_eq!(VariableKind::from_raw(0x0100_0007), Some(VariableKind::Int32));
    assert_eq!(VariableKind::from_raw(0x7f00_0001), Some(VariableKind::String));
    assert_eq!(VariableKind::from_raw(-0x0100_0000 | 13), Some(VariableKind::Bool));
    assert_eq!(VariableKind::from_raw(-1), None);
    assert_eq!(VariableKind::from_raw(0x0001_0000), None);
}

#[test]
fn kind_numbers_read_back_under_any_flags() {
    let kinds = [
        (0, VariableKind::Real),
        (1, VariableKind::String),
        (7, VariableKind::Int32),
        (10, VariableKind::Int64),
        (13, VariableKind::Bool),
    ];
    for (n, kind) in kinds {
        for flags in [0, 0x0100_0000, 0x0500_0000, 0x7f00_0000, -0x0100_0000, i32::MIN] {
            assert_eq!(VariableKind::from_raw(n | flags), Some(kind));
        }
    }
}
