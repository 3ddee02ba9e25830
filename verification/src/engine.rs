//! Finding the runtime's globals in the game's code: the signatures that
//! locate them, the versions they tell apart, and the order of scans and
//! reads that attaching to the game takes.

use vstd::prelude::*;

verus! {

use vstd::wrapping::u64_specs::wrapping_add;

/// The instructions that load the instance-variable lookup map in the
/// Mondealy build:
///
/// ```text
/// sub rsp,28
/// mov rcx,??
/// call ??
/// test rax,rax
/// je +7
/// mov eax,[rax]
/// add rsp,28
/// ret
/// mov eax,FFFFFFFF
/// add rsp,28
/// ret
/// ```
pub const VAR_LOOKUP_SIG_MONDEALY: &'static str = "
    48 83 ec 28
    48 8b 0d ????????
    e8 ????????
    48 85 c0
    74 07
    8b 00
    48 83 c4 28
    c3
    b8 ffffffff
    48 83 c4 28
    c3
    ";

/// The length of [`VAR_LOOKUP_SIG_MONDEALY`] in bytes.
pub const VAR_LOOKUP_SIG_MONDEALY_LEN: usize = 38;

/// Where, from the start of [`VAR_LOOKUP_SIG_MONDEALY`], the displacement
/// of the `mov rcx` lies.
pub const MOV_INST_MONDEALY_OFFSET: u64 = 7;

/// The instructions that load the instance-variable lookup map in builds
/// of the runtime from November 2023 on:
///
/// ```text
/// mov [rsp+08],rbx
/// mov [rsp+10],rbp
/// mov [rsp+18],rsi
/// push rdi
/// push r14
/// push r15
/// sub rsp,20
/// mov r14,?
/// mov rcx,rdx
/// mov r15,rdx
/// call ?
/// mov r11d,[r14+08]
/// mov ebp,eax
/// mov rsi,[r14+10]
/// btr ebp,1F
/// ```
pub const VAR_LOOKUP_SIG_NOV_2023: &'static str = "
    48 89 5C 24 08
    48 89 6C 24 10
    48 89 74 24 18
    57
    41 56
    41 57
    48 83 EC 20
    4C 8B 35 ????????
    48 8B CA
    4C 8B FA
    E8 ????????
    45 8B 5E 08
    8B E8
    49 8B 76 10
    0FBA F5 1F
    ";

/// The length of [`VAR_LOOKUP_SIG_NOV_2023`] in bytes.
pub const VAR_LOOKUP_SIG_NOV_2023_LEN: usize = 56;

/// Where, from the start of [`VAR_LOOKUP_SIG_NOV_2023`], the displacement
/// of the `mov r14` lies.
pub const MOV_INST_NOV_2023_OFFSET: u64 = 27;

/// The instructions that load the current room.
pub const RUN_ROOM_SIG: &'static str = "48 b8 00 00 00 00 00 00 10 c0 41 c7 40 0c 00 00 00 00 49 89 00 48 8b 05 ?? ?? ?? ?? 48 85 c0 74 48 85 d2";

/// The length of [`RUN_ROOM_SIG`] in bytes.
pub const RUN_ROOM_SIG_LEN: usize = 35;

/// Where, from the start of [`RUN_ROOM_SIG`], the displacement of the
/// `mov rax` that loads the room lies.
pub const RUN_ROOM_DISP_OFFSET: u64 = 24;

/// Where, from the start of [`RUN_ROOM_SIG`], the instruction after that
/// `mov rax` starts: the displacement counts from there.
pub const RUN_ROOM_NEXT_INST_OFFSET: u64 = 28;

/// What differs between the runtime versions that are told apart.
#[derive(Clone, Copy, Debug, PartialEq, Eq, Structural)]
pub struct VersionSpecific {
    /// Whether the map from variable slots to values hashes slot numbers
    /// the complex way.
    pub slot_to_var_map_uses_complex_hash: bool,
    /// On CInstance: CInstance* m_pNext
    pub c_instance_p_next_offset: u16,
}

pub open spec fn spec_nov_2023() -> VersionSpecific {
    VersionSpecific { slot_to_var_map_uses_complex_hash: false, c_instance_p_next_offset: 0x1A0 }
}

pub open spec fn spec_mondealy() -> VersionSpecific {
    VersionSpecific { slot_to_var_map_uses_complex_hash: true, c_instance_p_next_offset: 0x198 }
}

impl VersionSpecific {
    /// Runtimes from November 2023 on.
    pub fn nov_2023() -> (v: VersionSpecific)
        ensures
            v == spec_nov_2023(),
    {
        VersionSpecific { slot_to_var_map_uses_complex_hash: false, c_instance_p_next_offset: 0x1A0 }
    }

    /// The runtime of the Mondealy build.
    pub fn mondealy() -> (v: VersionSpecific)
        ensures
            v == spec_mondealy(),
    {
        VersionSpecific { slot_to_var_map_uses_complex_hash: true, c_instance_p_next_offset: 0x198 }
    }
}

/// The globals of the runtime that reading variables starts from.
#[derive(Clone, Copy, Debug, PartialEq, Eq, Structural)]
pub struct Engine {
    /// The map from variable names to variable slots.
    pub instance_var_lookup: u64,
    /// The current room.
    pub run_room: u64,
    pub version_specific: VersionSpecific,
}

/// The address a RIP-relative operand points to: the displacement counts
/// from the end of its 4 bytes, and addresses add modulo 2^64.
pub open spec fn rip_relative(disp_addr: u64, disp: u32) -> u64 {
    wrapping_add(wrapping_add(disp_addr, 4), disp as u64)
}

/// The signatures that attaching scans the game's module for.
#[derive(Clone, Copy, Debug, PartialEq, Eq, Structural)]
pub enum SignatureKind {
    VarLookupNov2023,
    VarLookupMondealy,
    RunRoom,
}

/// How far attaching has come.
#[derive(Clone, Copy, Debug, PartialEq, Eq, Structural)]
pub enum AttachState {
    /// Scanning for [`VAR_LOOKUP_SIG_NOV_2023`].
    FindVarLookupNov2023,
    /// Scanning for [`VAR_LOOKUP_SIG_MONDEALY`], the newer one not found.
    FindVarLookupMondealy,
    /// Reading the displacement at `disp_addr`.
    ReadVarLookupDisp { disp_addr: u64, version: VersionSpecific },
    /// Reading the lookup map's address from `ptr`.
    ReadVarLookupPtr { disp_addr: u64, ptr: u64, version: VersionSpecific },
    /// Scanning for [`RUN_ROOM_SIG`].
    FindRunRoom { instance_var_lookup: u64, version: VersionSpecific },
    /// Reading the displacement that locates the room.
    ReadRunRoomDisp { sig: u64, instance_var_lookup: u64, version: VersionSpecific },
    /// Reading the room's address from `ptr`.
    ReadRunRoomPtr { sig: u64, ptr: u64, instance_var_lookup: u64, version: VersionSpecific },
    /// Done.
    Attached(Engine),
}

/// What attaching asks the caller to do next.
#[derive(Clone, Copy, Debug, PartialEq, Eq, Structural)]
pub enum AttachAction {
    /// Scan the game's module for a signature and report where it starts.
    Scan(SignatureKind),
    /// Read a `u32` at this address.
    ReadU32(u64),
    /// Read a 64-bit address at this address.
    ReadU64(u64),
    /// Attaching is done.
    Done(Engine),
}

/// What the caller reports back: `None` where a scan found nothing or a
/// read failed.
#[derive(Clone, Copy, Debug, PartialEq, Eq, Structural)]
pub enum AttachEvent {
    Scanned(Option<u64>),
    ReadU32(Option<u32>),
    ReadU64(Option<u64>),
}

/// The state after an event, and whether the caller waits for the next
/// tick before it acts again (after every failed try).
#[derive(Clone, Copy, Debug, PartialEq, Eq, Structural)]
pub struct AttachStep {
    pub state: AttachState,
    pub wait_tick: bool,
}

pub open spec fn spec_attach_action(s: AttachState) -> AttachAction {
    match s {
        AttachState::FindVarLookupNov2023 => AttachAction::Scan(SignatureKind::VarLookupNov2023),
        AttachState::FindVarLookupMondealy => AttachAction::Scan(SignatureKind::VarLookupMondealy),
        AttachState::ReadVarLookupDisp { disp_addr, .. } => AttachAction::ReadU32(disp_addr),
        AttachState::ReadVarLookupPtr { ptr, .. } => AttachAction::ReadU64(ptr),
        AttachState::FindRunRoom { .. } => AttachAction::Scan(SignatureKind::RunRoom),
        AttachState::ReadRunRoomDisp { sig, .. } => AttachAction::ReadU32(
            wrapping_add(sig, RUN_ROOM_DISP_OFFSET),
        ),
        AttachState::ReadRunRoomPtr { ptr, .. } => AttachAction::ReadU64(ptr),
        AttachState::Attached(e) => AttachAction::Done(e),
    }
}

pub open spec fn step_to(state: AttachState, wait_tick: bool) -> AttachStep {
    AttachStep { state, wait_tick }
}

/// How attaching goes on. Each of its four tries is repeated after a tick
/// until it succeeds: finding the lookup map's signature (the newer one
/// first), reading the map's address through it, finding the room's
/// signature, and reading the room's address through that. An event that
/// does not answer the current action changes nothing.
pub open spec fn spec_attach_next(s: AttachState, e: AttachEvent) -> AttachStep {
    match (s, e) {
        (AttachState::FindVarLookupNov2023, AttachEvent::Scanned(Some(addr))) => step_to(
            AttachState::ReadVarLookupDisp {
                disp_addr: wrapping_add(addr, MOV_INST_NOV_2023_OFFSET),
                version: spec_nov_2023(),
            },
            false,
        ),
        (AttachState::FindVarLookupNov2023, AttachEvent::Scanned(None)) => step_to(
            AttachState::FindVarLookupMondealy,
            false,
        ),
        (AttachState::FindVarLookupMondealy, AttachEvent::Scanned(Some(addr))) => step_to(
            AttachState::ReadVarLookupDisp {
                disp_addr: wrapping_add(addr, MOV_INST_MONDEALY_OFFSET),
                version: spec_mondealy(),
            },
            false,
        ),
        (AttachState::FindVarLookupMondealy, AttachEvent::Scanned(None)) => step_to(
            AttachState::FindVarLookupNov2023,
            true,
        ),
        (
            AttachState::ReadVarLookupDisp { disp_addr, version },
            AttachEvent::ReadU32(Some(disp)),
        ) => step_to(
            AttachState::ReadVarLookupPtr { disp_addr, ptr: rip_relative(disp_addr, disp), version },
            false,
        ),
        (AttachState::ReadVarLookupDisp { .. }, AttachEvent::ReadU32(None)) => step_to(s, true),
        (
            AttachState::ReadVarLookupPtr { disp_addr, ptr, version },
            AttachEvent::ReadU64(Some(value)),
        ) => step_to(AttachState::FindRunRoom { instance_var_lookup: value, version }, false),
        (AttachState::ReadVarLookupPtr { disp_addr, ptr, version }, AttachEvent::ReadU64(None)) => {
            step_to(AttachState::ReadVarLookupDisp { disp_addr, version }, true)
        },
        (
            AttachState::FindRunRoom { instance_var_lookup, version },
            AttachEvent::Scanned(Some(addr)),
        ) => step_to(AttachState::ReadRunRoomDisp { sig: addr, instance_var_lookup, version }, false),
        (AttachState::FindRunRoom { .. }, AttachEvent::Scanned(None)) => step_to(s, true),
        (
            AttachState::ReadRunRoomDisp { sig, instance_var_lookup, version },
            AttachEvent::ReadU32(Some(disp)),
        ) => step_to(
            AttachState::ReadRunRoomPtr {
                sig,
                ptr: wrapping_add(wrapping_add(sig, RUN_ROOM_NEXT_INST_OFFSET), disp as u64),
                instance_var_lookup,
                version,
            },
            false,
        ),
        (AttachState::ReadRunRoomDisp { .. }, AttachEvent::ReadU32(None)) => step_to(s, true),
        (
            AttachState::ReadRunRoomPtr { sig, ptr, instance_var_lookup, version },
            AttachEvent::ReadU64(Some(value)),
        ) => step_to(
            AttachState::Attached(
                Engine { instance_var_lookup, run_room: value, version_specific: version },
            ),
            false,
        ),
        (
            AttachState::ReadRunRoomPtr { sig, ptr, instance_var_lookup, version },
            AttachEvent::ReadU64(None),
        ) => step_to(AttachState::ReadRunRoomDisp { sig, instance_var_lookup, version }, true),
        _ => step_to(s, false),
    }
}

/// How many of attaching's steps lie behind a state.
pub open spec fn attach_phase(s: AttachState) -> nat {
    match s {
        AttachState::FindVarLookupNov2023 => 0,
        AttachState::FindVarLookupMondealy => 0,
        AttachState::ReadVarLookupDisp { .. } => 1,
        AttachState::ReadVarLookupPtr { .. } => 2,
        AttachState::FindRunRoom { .. } => 3,
        AttachState::ReadRunRoomDisp { .. } => 4,
        AttachState::ReadRunRoomPtr { .. } => 5,
        AttachState::Attached(_) => 6,
    }
}

/// The phase at which the try that a state belongs to starts.
pub open spec fn retry_start(s: AttachState) -> nat {
    match s {
        AttachState::ReadVarLookupPtr { .. } => 1,
        AttachState::ReadRunRoomPtr { .. } => 4,
        _ => attach_phase(s),
    }
}

/// Whether `e` is a report on the action `a` asked for.
pub open spec fn answers(a: AttachAction, e: AttachEvent) -> bool {
    match (a, e) {
        (AttachAction::Scan(_), AttachEvent::Scanned(_)) => true,
        (AttachAction::ReadU32(_), AttachEvent::ReadU32(_)) => true,
        (AttachAction::ReadU64(_), AttachEvent::ReadU64(_)) => true,
        _ => false,
    }
}

/// Whether `e` reports a scan that found its signature or a read that
/// succeeded.
pub open spec fn succeeded(e: AttachEvent) -> bool {
    match e {
        AttachEvent::Scanned(r) => r is Some,
        AttachEvent::ReadU32(r) => r is Some,
        AttachEvent::ReadU64(r) => r is Some,
    }
}

/// The lookup map's address and the runtime version, once attaching has
/// found them.
pub open spec fn found_var_lookup(s: AttachState) -> Option<(u64, VersionSpecific)> {
    match s {
        AttachState::FindRunRoom { instance_var_lookup, version } => Some(
            (instance_var_lookup, version),
        ),
        AttachState::ReadRunRoomDisp { instance_var_lookup, version, .. } => Some(
            (instance_var_lookup, version),
        ),
        AttachState::ReadRunRoomPtr { instance_var_lookup, version, .. } => Some(
            (instance_var_lookup, version),
        ),
        AttachState::Attached(e) => Some((e.instance_var_lookup, e.version_specific)),
        _ => None,
    }
}

/// Attaching moves one step forward on every success, goes back to the
/// start of the current try on a failure (waiting a tick first, except when
/// the newer signature is missing and the older one is still to be tried),
/// keeps what earlier tries found, ignores reports on anything but what it
/// asked for, and once attached stays so.
pub proof fn lemma_attach_progress(s: AttachState, e: AttachEvent)
    ensures
        answers(spec_attach_action(s), e) && succeeded(e) ==> attach_phase(
            spec_attach_next(s, e).state,
        ) == attach_phase(s) + 1 && !spec_attach_next(s, e).wait_tick,
        answers(spec_attach_action(s), e) && !succeeded(e) ==> attach_phase(
            spec_attach_next(s, e).state,
        ) == retry_start(s) && spec_attach_next(s, e).wait_tick == !(
        s is FindVarLookupNov2023),
        !answers(spec_attach_action(s), e) ==> spec_attach_next(s, e) == step_to(s, false),
        s is Attached ==> spec_attach_next(s, e) == step_to(s, false),
        attach_phase(s) >= 3 ==> found_var_lookup(spec_attach_next(s, e).state) == found_var_lookup(
            s,
        ),
{
}

/// Whether `v` is one of the runtime versions attaching tells apart.
pub open spec fn is_known_version(v: VersionSpecific) -> bool {
    v == spec_nov_2023() || v == spec_mondealy()
}

/// Whether every version a state carries is a known one.
pub open spec fn carries_known_version(s: AttachState) -> bool {
    match s {
        AttachState::ReadVarLookupDisp { version, .. } => is_known_version(version),
        AttachState::ReadVarLookupPtr { version, .. } => is_known_version(version),
        AttachState::FindRunRoom { version, .. } => is_known_version(version),
        AttachState::ReadRunRoomDisp { version, .. } => is_known_version(version),
        AttachState::ReadRunRoomPtr { version, .. } => is_known_version(version),
        AttachState::Attached(e) => is_known_version(e.version_specific),
        _ => true,
    }
}

/// The state attaching reaches from `s` on the reports `events`, in order.
pub open spec fn attach_run(s: AttachState, events: Seq<AttachEvent>) -> AttachState
    decreases events.len(),
{
    if events.len() == 0 {
        s
    } else {
        attach_run(spec_attach_next(s, events[0]).state, events.drop_first())
    }
}

proof fn lemma_attach_run_keeps_known_version(s: AttachState, events: Seq<AttachEvent>)
    requires
        carries_known_version(s),
    ensures
        carries_known_version(attach_run(s, events)),
    decreases events.len(),
{
    if events.len() > 0 {
        lemma_attach_run_keeps_known_version(
            spec_attach_next(s, events[0]).state,
            events.drop_first(),
        );
    }
}

/// Whatever the scans and reads report, every state attaching reaches
/// carries one of the two known runtime versions, so every engine it
/// attaches with has either the newer runtime's values (simple slot hash,
/// next pointer at 0x1A0) or the Mondealy build's (complex slot hash, next
/// pointer at 0x198).
pub proof fn lemma_attached_version_is_known(events: Seq<AttachEvent>)
    ensures
        carries_known_version(attach_run(AttachState::FindVarLookupNov2023, events)),
        attach_run(AttachState::FindVarLookupNov2023, events) matches AttachState::Attached(e)
            ==> (e.version_specific.slot_to_var_map_uses_complex_hash
            && e.version_specific.c_instance_p_next_offset == 0x198) || (
        !e.version_specific.slot_to_var_map_uses_complex_hash
            && e.version_specific.c_instance_p_next_offset == 0x1A0),
{
    lemma_attach_run_keeps_known_version(AttachState::FindVarLookupNov2023, events);
}

proof fn lemma_wrapping_add_is_mod(a: u64, b: u64)
    ensures
        wrapping_add(a, b) as int == (a + b) % 0x1_0000_0000_0000_0000int,
{
    if a + b > u64::MAX {
        vstd::arithmetic::div_mod::lemma_fundamental_div_mod_converse(
            a + b,
            0x1_0000_0000_0000_0000int,
            1,
            a + b - 0x1_0000_0000_0000_0000int,
        );
    } else {
        vstd::arithmetic::div_mod::lemma_small_mod((a + b) as nat, 0x1_0000_0000_0000_0000nat);
    }
}

proof fn lemma_wrapping_add3_is_mod(a: u64, b: u64, c: u64)
    ensures
        wrapping_add(wrapping_add(a, b), c) as int == (a + b + c) % 0x1_0000_0000_0000_0000int,
{
    lemma_wrapping_add_is_mod(a, b);
    lemma_wrapping_add_is_mod(wrapping_add(a, b), c);
    vstd::arithmetic::div_mod::lemma_add_mod_noop(a + b, c as int, 0x1_0000_0000_0000_0000int);
    vstd::arithmetic::div_mod::lemma_small_mod(c as nat, 0x1_0000_0000_0000_0000nat);
}

/// Where attaching reads, and what it keeps, when its scans and reads
/// succeed. A signature found at `addr` has its displacement read at `addr
/// + 27` for the newer runtime (simple slot hash, next pointer at 0x1A0) and
/// at `addr + 7` for the Mondealy build (complex slot hash, next pointer at
/// 0x198); the lookup map's address is read where that displacement points,
/// counted from its end; the room's displacement is read 24 bytes into its
/// signature and counts from 28 bytes in; and the engine attached with holds
/// exactly the two addresses read and the version of the signature found.
/// All addresses are taken modulo 2^64.
pub proof fn lemma_attach_reads_where_signatures_point(
    addr: u64,
    disp_addr: u64,
    disp: u32,
    ptr: u64,
    value: u64,
    instance_var_lookup: u64,
    sig: u64,
    version: VersionSpecific,
)
    ensures
        spec_attach_next(AttachState::FindVarLookupNov2023, AttachEvent::Scanned(Some(addr)))
            == step_to(
            AttachState::ReadVarLookupDisp {
                disp_addr: ((addr + 27) % 0x1_0000_0000_0000_0000int) as u64,
                version: VersionSpecific {
                    slot_to_var_map_uses_complex_hash: false,
                    c_instance_p_next_offset: 0x1A0,
                },
            },
            false,
        ),
        spec_attach_next(AttachState::FindVarLookupMondealy, AttachEvent::Scanned(Some(addr)))
            == step_to(
            AttachState::ReadVarLookupDisp {
                disp_addr: ((addr + 7) % 0x1_0000_0000_0000_0000int) as u64,
                version: VersionSpecific {
                    slot_to_var_map_uses_complex_hash: true,
                    c_instance_p_next_offset: 0x198,
                },
            },
            false,
        ),
        spec_attach_action(AttachState::ReadVarLookupDisp { disp_addr, version })
            == AttachAction::ReadU32(disp_addr),
        spec_attach_next(
            AttachState::ReadVarLookupDisp { disp_addr, version },
            AttachEvent::ReadU32(Some(disp)),
        ) == step_to(
            AttachState::ReadVarLookupPtr {
                disp_addr,
                ptr: ((disp_addr + 4 + disp) % 0x1_0000_0000_0000_0000int) as u64,
                version,
            },
            false,
        ),
        spec_attach_action(AttachState::ReadVarLookupPtr { disp_addr, ptr, version })
            == AttachAction::ReadU64(ptr),
        spec_attach_next(
            AttachState::ReadVarLookupPtr { disp_addr, ptr, version },
            AttachEvent::ReadU64(Some(value)),
        ) == step_to(AttachState::FindRunRoom { instance_var_lookup: value, version }, false),
        spec_attach_action(AttachState::FindRunRoom { instance_var_lookup, version })
            == AttachAction::Scan(SignatureKind::RunRoom),
        spec_attach_next(
            AttachState::FindRunRoom { instance_var_lookup, version },
            AttachEvent::Scanned(Some(addr)),
        ) == step_to(AttachState::ReadRunRoomDisp { sig: addr, instance_var_lookup, version }, false),
        spec_attach_action(AttachState::ReadRunRoomDisp { sig, instance_var_lookup, version })
            == AttachAction::ReadU32(((sig + 24) % 0x1_0000_0000_0000_0000int) as u64),
        spec_attach_next(
            AttachState::ReadRunRoomDisp { sig, instance_var_lookup, version },
            AttachEvent::ReadU32(Some(disp)),
        ) == step_to(
            AttachState::ReadRunRoomPtr {
                sig,
                ptr: ((sig + 28 + disp) % 0x1_0000_0000_0000_0000int) as u64,
                instance_var_lookup,
                version,
            },
            false,
        ),
        spec_attach_action(AttachState::ReadRunRoomPtr { sig, ptr, instance_var_lookup, version })
            == AttachAction::ReadU64(ptr),
        spec_attach_next(
            AttachState::ReadRunRoomPtr { sig, ptr, instance_var_lookup, version },
            AttachEvent::ReadU64(Some(value)),
        ) == step_to(
            AttachState::Attached(
                Engine { instance_var_lookup, run_room: value, version_specific: version },
            ),
            false,
        ),
{
    lemma_wrapping_add_is_mod(addr, 27);
    lemma_wrapping_add_is_mod(addr, 7);
    lemma_wrapping_add3_is_mod(disp_addr, 4, disp as u64);
    lemma_wrapping_add_is_mod(sig, 24);
    lemma_wrapping_add3_is_mod(sig, 28, disp as u64);
}

/// A failed try keeps everything attaching has found so far: a failed read
/// of a displacement is repeated at the same address with the same version,
/// a failed read through it goes back to that same displacement read, a
/// missing room signature is scanned for again with the lookup map and
/// version kept, and a failed read of the room goes back to the room's
/// displacement read at the same signature. Only the two lookup-map
/// signatures alternate: the older one is tried at once when the newer one
/// is missing, and the newer one again after a tick when both are.
pub proof fn lemma_attach_failure_keeps_progress(
    disp_addr: u64,
    ptr: u64,
    instance_var_lookup: u64,
    sig: u64,
    version: VersionSpecific,
)
    ensures
        spec_attach_next(AttachState::FindVarLookupNov2023, AttachEvent::Scanned(None))
            == step_to(AttachState::FindVarLookupMondealy, false),
        spec_attach_next(AttachState::FindVarLookupMondealy, AttachEvent::Scanned(None))
            == step_to(AttachState::FindVarLookupNov2023, true),
        spec_attach_next(
            AttachState::ReadVarLookupDisp { disp_addr, version },
            AttachEvent::ReadU32(None),
        ) == step_to(AttachState::ReadVarLookupDisp { disp_addr, version }, true),
        spec_attach_next(
            AttachState::ReadVarLookupPtr { disp_addr, ptr, version },
            AttachEvent::ReadU64(None),
        ) == step_to(AttachState::ReadVarLookupDisp { disp_addr, version }, true),
        spec_attach_next(
            AttachState::FindRunRoom { instance_var_lookup, version },
            AttachEvent::Scanned(None),
        ) == step_to(AttachState::FindRunRoom { instance_var_lookup, version }, true),
        spec_attach_next(
            AttachState::ReadRunRoomDisp { sig, instance_var_lookup, version },
            AttachEvent::ReadU32(None),
        ) == step_to(AttachState::ReadRunRoomDisp { sig, instance_var_lookup, version }, true),
        spec_attach_next(
            AttachState::ReadRunRoomPtr { sig, ptr, instance_var_lookup, version },
            AttachEvent::ReadU64(None),
        ) == step_to(AttachState::ReadRunRoomDisp { sig, instance_var_lookup, version }, true),
{
}

impl AttachState {
    /// Where attaching starts, once the game's module is loaded.
    pub fn start() -> (s: AttachState)
        ensures
            s == AttachState::FindVarLookupNov2023,
    {
        AttachState::FindVarLookupNov2023
    }

    /// What to do in this state.
    pub fn action(&self) -> (a: AttachAction)
        ensures
            a == spec_attach_action(*self),
    {
        match *self {
            AttachState::FindVarLookupNov2023 => AttachAction::Scan(SignatureKind::VarLookupNov2023),
            AttachState::FindVarLookupMondealy => AttachAction::Scan(
                SignatureKind::VarLookupMondealy,
            ),
            AttachState::ReadVarLookupDisp { disp_addr, .. } => AttachAction::ReadU32(disp_addr),
            AttachState::ReadVarLookupPtr { ptr, .. } => AttachAction::ReadU64(ptr),
            AttachState::FindRunRoom { .. } => AttachAction::Scan(SignatureKind::RunRoom),
            AttachState::ReadRunRoomDisp { sig, .. } => AttachAction::ReadU32(
                sig.wrapping_add(RUN_ROOM_DISP_OFFSET),
            ),
            AttachState::ReadRunRoomPtr { ptr, .. } => AttachAction::ReadU64(ptr),
            AttachState::Attached(e) => AttachAction::Done(e),
        }
    }

    /// The state after the caller reports `event`.
    pub fn next(&self, event: AttachEvent) -> (r: AttachStep)
        ensures
            r == spec_attach_next(*self, event),
    {
        let s = *self;
        match (s, event) {
            (AttachState::FindVarLookupNov2023, AttachEvent::Scanned(Some(addr))) => AttachStep {
                state: AttachState::ReadVarLookupDisp {
                    disp_addr: addr.wrapping_add(MOV_INST_NOV_2023_OFFSET),
                    version: VersionSpecific::nov_2023(),
                },
                wait_tick: false,
            },
            (AttachState::FindVarLookupNov2023, AttachEvent::Scanned(None)) => AttachStep {
                state: AttachState::FindVarLookupMondealy,
                wait_tick: false,
            },
            (AttachState::FindVarLookupMondealy, AttachEvent::Scanned(Some(addr))) => AttachStep {
                state: AttachState::ReadVarLookupDisp {
                    disp_addr: addr.wrapping_add(MOV_INST_MONDEALY_OFFSET),
                    version: VersionSpecific::mondealy(),
                },
                wait_tick: false,
            },
            (AttachState::FindVarLookupMondealy, AttachEvent::Scanned(None)) => AttachStep {
                state: AttachState::FindVarLookupNov2023,
                wait_tick: true,
            },
            (
                AttachState::ReadVarLookupDisp { disp_addr, version },
                AttachEvent::ReadU32(Some(disp)),
            ) => AttachStep {
                state: AttachState::ReadVarLookupPtr {
                    disp_addr,
                    ptr: disp_addr.wrapping_add(4).wrapping_add(disp as u64),
                    version,
                },
                wait_tick: false,
            },
            (AttachState::ReadVarLookupDisp { .. }, AttachEvent::ReadU32(None)) => AttachStep {
                state: s,
                wait_tick: true,
            },
            (
                AttachState::ReadVarLookupPtr { disp_addr, ptr, version },
                AttachEvent::ReadU64(Some(value)),
            ) => AttachStep {
                state: AttachState::FindRunRoom { instance_var_lookup: value, version },
                wait_tick: false,
            },
            (
                AttachState::ReadVarLookupPtr { disp_addr, ptr, version },
                AttachEvent::ReadU64(None),
            ) => AttachStep {
                state: AttachState::ReadVarLookupDisp { disp_addr, version },
                wait_tick: true,
            },
            (
                AttachState::FindRunRoom { instance_var_lookup, version },
                AttachEvent::Scanned(Some(addr)),
            ) => AttachStep {
                state: AttachState::ReadRunRoomDisp { sig: addr, instance_var_lookup, version },
                wait_tick: false,
            },
            (AttachState::FindRunRoom { .. }, AttachEvent::Scanned(None)) => AttachStep {
                state: s,
                wait_tick: true,
            },
            (
                AttachState::ReadRunRoomDisp { sig, instance_var_lookup, version },
                AttachEvent::ReadU32(Some(disp)),
            ) => AttachStep {
                state: AttachState::ReadRunRoomPtr {
                    sig,
                    ptr: sig.wrapping_add(RUN_ROOM_NEXT_INST_OFFSET).wrapping_add(disp as u64),
                    instance_var_lookup,
                    version,
                },
                wait_tick: false,
            },
            (AttachState::ReadRunRoomDisp { .. }, AttachEvent::ReadU32(None)) => AttachStep {
                state: s,
                wait_tick: true,
            },
            (
                AttachState::ReadRunRoomPtr { sig, ptr, instance_var_lookup, version },
                AttachEvent::ReadU64(Some(value)),
            ) => AttachStep {
                state: AttachState::Attached(
                    Engine { instance_var_lookup, run_room: value, version_specific: version },
                ),
                wait_tick: false,
            },
            (
                AttachState::ReadRunRoomPtr { sig, ptr, instance_var_lookup, version },
                AttachEvent::ReadU64(None),
            ) => AttachStep {
                state: AttachState::ReadRunRoomDisp { sig, instance_var_lookup, version },
                wait_tick: true,
            },
            _ => AttachStep { state: s, wait_tick: false },
        }
    }
}

} // verus!
