use mondealy_splitter::engine::{
    AttachAction, AttachEvent, AttachState, Engine, SignatureKind, VersionSpecific,
    MOV_INST_MONDEALY_OFFSET, MOV_INST_NOV_2023_OFFSET, RUN_ROOM_SIG, RUN_ROOM_SIG_LEN,
    VAR_LOOKUP_SIG_MONDEALY, VAR_LOOKUP_SIG_MONDEALY_LEN, VAR_LOOKUP_SIG_NOV_2023,
    VAR_LOOKUP_SIG_NOV_2023_LEN,
};

fn pattern_len(pattern: &str) -> usize {
    let digits: Vec<char> = pattern.chars().filter(|c| !c.is_whitespace()).collect();
    assert_eq!(digits.len() % 2, 0);
    digits.len() / 2
}

#[test]
fn signature_lengths() {
    assert_eq!(pattern_len(VAR_LOOKUP_SIG_MONDEALY), VAR_LOOKUP_SIG_MONDEALY_LEN);
    assert_eq!(pattern_len(VAR_LOOKUP_SIG_NOV_2023), VAR_LOOKUP_SIG_NOV_2023_LEN);
    assert_eq!(pattern_len(RUN_ROOM_SIG), RUN_ROOM_SIG_LEN);
}

#[test]
fn displacement_offsets_point_at_wildcards() {
    let bytes = |p: &str| -> Vec<String> {
        let digits: String = p.chars().filter(|c| !c.is_whitespace()).collect();
        (0..digits.len() / 2).map(|i| digits[2 * i..2 * i + 2].to_string()).collect()
    };
    let mondealy = bytes(VAR_LOOKUP_SIG_MONDEALY);
    let at = MOV_INST_MONDEALY_OFFSET as usize;
    assert_eq!(&mondealy[at - 3..at + 4], &["48", "8b", "0d", "??", "??", "??", "??"]);
    let nov = bytes(VAR_LOOKUP_SIG_NOV_2023);
    let at = MOV_INST_NOV_2023_OFFSET as usize;
    assert_eq!(&nov[at - 3..at + 4], &["4C", "8B", "35", "??", "??", "??", "??"]);
    let room = bytes(RUN_ROOM_SIG);
    assert_eq!(&room[21..28], &["48", "8b", "05", "??", "??", "??", "??"]);
}

#[test]
fn version_specific_values() {
    let nov = VersionSpecific::nov_2023();
    assert!(!nov.slot_to_var_map_uses_complex_hash);
    assert_eq!(nov.c_instance_p_next_offset, 0x1A0);
    let mondealy = VersionSpecific::mondealy();
    assert!(mondealy.slot_to_var_map_uses_complex_hash);
    assert_eq!(mondealy.c_instance_p_next_offset, 0x198);
}

#[test]
fn attach_with_newer_runtime() {
    let s = AttachState::start();
    assert_eq!(s.action(), AttachAction::Scan(SignatureKind::VarLookupNov2023));
    let step = s.next(AttachEvent::Scanned(Some(0x1000)));
    assert!(!step.wait_tick);
    let s = step.state;
    assert_eq!(s.action(), AttachAction::ReadU32(0x1000 + 27));
    let s = s.next(AttachEvent::ReadU32(Some(0x20))).state;
    assert_eq!(s.action(), AttachAction::ReadU64(0x1000 + 27 + 4 + 0x20));
    let s = s.next(AttachEvent::ReadU64(Some(0xAAAA))).state;
    assert_eq!(s.action(), AttachAction::Scan(SignatureKind::RunRoom));
    let s = s.next(AttachEvent::Scanned(Some(0x2000))).state;
    assert_eq!(s.action(), AttachAction::ReadU32(0x2000 + 24));
    let s = s.next(AttachEvent::ReadU32(Some(0x10))).state;
    assert_eq!(s.action(), AttachAction::ReadU64(0x2000 + 28 + 0x10));
    let s = s.next(AttachEvent::ReadU64(Some(0xBBBB))).state;
    let engine = Engine {
        instance_var_lookup: 0xAAAA,
        run_room: 0xBBBB,
        version_specific: VersionSpecific::nov_2023(),
    };
    assert_eq!(s.action(), AttachAction::Done(engine));
    assert_eq!(s, AttachState::Attached(engine));
}

#[test]
fn attach_falls_back_to_mondealy_and_retries_failed_reads() {
    let s = AttachState::start();
    let step = s.next(AttachEvent::Scanned(None));
    assert!(!step.wait_tick);
    assert_eq!(step.state.action(), AttachAction::Scan(SignatureKind::VarLookupMondealy));
    let s = step.state.next(AttachEvent::Scanned(Some(0x1000))).state;
    assert_eq!(s.action(), AttachAction::ReadU32(0x1007));
    let s = s.next(AttachEvent::ReadU32(Some(0x100))).state;
    assert_eq!(s.action(), AttachAction::ReadU64(0x110B));
    // the pointer read fails: the whole try starts again after a tick
    let step = s.next(AttachEvent::ReadU64(None));
    assert!(step.wait_tick);
    assert_eq!(step.state.action(), AttachAction::ReadU32(0x1007));
    let s = step.state.next(AttachEvent::ReadU32(Some(0x100))).state;
    let s = s.next(AttachEvent::ReadU64(Some(0xAAAA))).state;
    // the room's signature is not there yet
    let step = s.next(AttachEvent::Scanned(None));
    assert!(step.wait_tick);
    assert_eq!(step.state, s);
    let s = s.next(AttachEvent::Scanned(Some(0x2000))).state;
    let step = s.next(AttachEvent::ReadU32(None));
    assert!(step.wait_tick);
    assert_eq!(step.state, s);
    let s = s.next(AttachEvent::ReadU32(Some(0x10))).state;
    let step = s.next(AttachEvent::ReadU64(None));
    assert!(step.wait_tick);
    assert_eq!(step.state.action(), AttachAction::ReadU32(0x2018));
    let s = s.next(AttachEvent::ReadU64(Some(0xBBBB))).state;
    assert_eq!(
        s,
        AttachState::Attached(Engine {
            instance_var_lookup: 0xAAAA,
            run_room: 0xBBBB,
            version_specific: VersionSpecific::mondealy(),
        })
    );
}

#[test]
fn attach_retries_both_signatures_after_a_tick() {
    let s = AttachState::start();
    let s = s.next(AttachEvent::Scanned(None)).state;
    let step = s.next(AttachEvent::Scanned(None));
    assert!(step.wait_tick);
    assert_eq!(step.state, AttachState::start());
}

#[test]
fn attach_ignores_reports_it_did_not_ask_for() {
    let s = AttachState::start();
    let step = s.next(AttachEvent::ReadU32(Some(5)));
    assert!(!step.wait_tick);
    assert_eq!(step.state, s);
    let engine = Engine {
        instance_var_lookup: 1,
        run_room: 2,
        version_specific: VersionSpecific::nov_2023(),
    };
    let done = AttachState::Attached(engine);
    let step = done.next(AttachEvent::Scanned(Some(1)));
    assert_eq!(step.state, done);
    assert!(!step.wait_tick);
}

#[test]
fn attach_addresses_wrap() {
    let s = AttachState::start()
        .next(AttachEvent::Scanned(Some(u64::MAX - 10)))
        .state;
    assert_eq!(s.action(), AttachAction::ReadU32(16));
    let s = s.next(AttachEvent::ReadU32(Some(u32::MAX))).state;
    assert_eq!(s.action(), AttachAction::ReadU64(16 + 4 + u32::MAX as u64));
}
