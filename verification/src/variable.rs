//! The kinds of value an RValue holds, as its `kind` field tells them.

use vstd::prelude::*;

verus! {

/// The bits of an RValue's `kind` field that name its kind; the others are
/// flags.
pub const KIND_MASK: i32 = 0x0ff_ffff;

/// The kinds of value a variable can hold that the reader understands.
#[derive(Clone, Copy, Debug, PartialEq, Eq, Structural)]
pub enum VariableKind {
    /// 0: a double.
    Real,
    /// 1: a reference to a string.
    String,
    /// 2
    Array,
    /// 3
    Ptr,
    /// 4
    Vec3,
    /// 5
    Undefined,
    /// 6
    Object,
    /// 7
    Int32,
    /// 8
    Vec4,
    /// 9
    Matrix,
    /// 10
    Int64,
    /// 11 / 0xb
    JsProperty,
    /// 13 / 0xd: a double, true when above one half.
    Bool,
}

/// The kind that the masked kind number `kind` names, if any.
pub open spec fn kind_of(kind: i32) -> Option<VariableKind> {
    if kind == 0 {
        Some(VariableKind::Real)
    } else if kind == 1 {
        Some(VariableKind::String)
    } else if kind == 2 {
        Some(VariableKind::Array)
    } else if kind == 3 {
        Some(VariableKind::Ptr)
    } else if kind == 4 {
        Some(VariableKind::Vec3)
    } else if kind == 5 {
        Some(VariableKind::Undefined)
    } else if kind == 6 {
        Some(VariableKind::Object)
    } else if kind == 7 {
        Some(VariableKind::Int32)
    } else if kind == 8 {
        Some(VariableKind::Vec4)
    } else if kind == 9 {
        Some(VariableKind::Matrix)
    } else if kind == 10 {
        Some(VariableKind::Int64)
    } else if kind == 11 {
        Some(VariableKind::JsProperty)
    } else if kind == 13 {
        Some(VariableKind::Bool)
    } else {
        None
    }
}

impl VariableKind {
    /// The kind named by an RValue's `kind` field as read, flags and all;
    /// `None` for kinds the reader does not understand.
    pub fn from_raw(raw: i32) -> (k: Option<VariableKind>)
        ensures
            k == kind_of(raw & KIND_MASK),
    {
        let kind = raw & KIND_MASK;
        match kind {
            0 => Some(VariableKind::Real),
            1 => Some(VariableKind::String),
            2 => Some(VariableKind::Array),
            3 => Some(VariableKind::Ptr),
            4 => Some(VariableKind::Vec3),
            5 => Some(VariableKind::Undefined),
            6 => Some(VariableKind::Object),
            7 => Some(VariableKind::Int32),
            8 => Some(VariableKind::Vec4),
            9 => Some(VariableKind::Matrix),
            10 => Some(VariableKind::Int64),
            11 => Some(VariableKind::JsProperty),
            13 => Some(VariableKind::Bool),
            _ => None,
        }
    }
}

/// The flags of a `kind` field do not change the kind it names: the kind
/// number of every kind reads back as that kind, whatever flags stand above
/// it.
pub proof fn lemma_kind_round_trip(k: VariableKind, n: i32, flags: i32)
    requires
        kind_of(n) == Some(k),
    ensures
        kind_of(((flags & !KIND_MASK) | n) & KIND_MASK) == Some(k),
{
    assert(0 <= n <= 13);
    assert(0 <= n <= 13 ==> ((flags & !0x0ff_ffffi32) | n) & 0x0ff_ffffi32 == n) by (bit_vector);
}

} // verus!
