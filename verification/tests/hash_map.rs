use mondealy_splitter::hash_map::{
    slot_is_occupied, HashMapHeader, Probe, ProbeStep, GOLDEN_RATIO_MULTIPLIER, HASH_MASK,
};

fn header(cur_size: u32, cur_mask: u32, elements: u64) -> HashMapHeader {
    HashMapHeader { cur_size, num_used: 0, cur_mask, grow_threshold: 0, elements }
}

/// Runs a lookup over a table held in memory, as a reader of the game's
/// memory would over the slots it reads: each slot is (stored hash, key).
/// Returns the slot found, if any, and how many slots were read.
fn run_lookup(table: &[(u32, i32)], hdr: HashMapHeader, key: (i32, bool)) -> (Option<u32>, usize) {
    let mut probe = Probe::start(<i32 as mondealy_splitter::hash_map::Hash>::hash(&key), hdr, 16);
    let mut reads = 0;
    loop {
        let addr = probe.slot_address();
        assert_eq!(addr, hdr.elements + probe.pos as u64 * 16);
        let (slot_hash, slot_key) = table[probe.pos as usize];
        reads += 1;
        let key_matches = probe.needs_key(slot_hash) && <i32 as mondealy_splitter::hash_map::Hash>::matches(&slot_key, &key);
        match probe.examine(slot_hash, key_matches) {
            ProbeStep::Found => return (Some(probe.pos), reads),
            ProbeStep::NotFound => return (None, reads),
            ProbeStep::Next(next) => probe = next,
        }
    }
}

#[test]
fn slot_key_hash_simple() {
    assert_eq!(<i32 as mondealy_splitter::hash_map::Hash>::hash(&(5, false)), 6);
    assert_eq!(<i32 as mondealy_splitter::hash_map::Hash>::hash(&(0, false)), 1);
    assert_eq!(<i32 as mondealy_splitter::hash_map::Hash>::hash(&(-1, false)), 0);
}

#[test]
fn slot_key_hash_complex() {
    assert_eq!(GOLDEN_RATIO_MULTIPLIER, 0x9E37_79B1);
    assert_eq!(<i32 as mondealy_splitter::hash_map::Hash>::hash(&(5, true)), 0x17156076);
    assert_eq!(<i32 as mondealy_splitter::hash_map::Hash>::hash(&(-1, true)), 0x61c88650);
    assert_eq!(<i32 as mondealy_splitter::hash_map::Hash>::hash(&(i32::MAX, true)), 0xe1c88650);
}

#[test]
fn slot_key_matches_by_number() {
    assert!(<i32 as mondealy_splitter::hash_map::Hash>::matches(&7, &(7, true)));
    assert!(<i32 as mondealy_splitter::hash_map::Hash>::matches(&7, &(7, false)));
    assert!(!<i32 as mondealy_splitter::hash_map::Hash>::matches(&7, &(8, false)));
}

#[test]
fn probe_start_masks_hash() {
    let hdr = header(8, 7, 0x1000);
    let p = Probe::start(0xffff_fffd, hdr, 24);
    assert_eq!(HASH_MASK, 0x7fff_ffff);
    assert_eq!(p.hash, 0x7fff_fffd);
    assert_eq!(p.pos, 5);
    assert_eq!(p.step, 0);
    assert_eq!(p.slot_size, 24);
    assert_eq!(p.slot_address(), 0x1000 + 5 * 24);
}

#[test]
fn slot_addresses_wrap() {
    let hdr = header(8, 7, 0x1000);
    assert_eq!(hdr.slot_address(3, 16), 0x1030);
    let high = header(8, 7, u64::MAX - 7);
    assert_eq!(high.slot_address(1, 16), 8);
}

#[test]
fn occupied_slots() {
    assert!(!slot_is_occupied(0));
    assert!(slot_is_occupied(1));
    assert!(slot_is_occupied(0x7fff_ffff));
}

fn displaced_table() -> Vec<(u32, i32)> {
    // keys 3, 11 and 19 all hash (simply) to a value whose ideal slot is 4
    let mut table = vec![(0u32, 0i32); 8];
    table[4] = (4, 3);
    table[5] = (12, 11);
    table[6] = (20, 19);
    table
}

#[test]
fn lookup_finds_displaced_key() {
    let hdr = header(8, 7, 0x1000);
    let table = displaced_table();
    assert_eq!(run_lookup(&table, hdr, (3, false)), (Some(4), 1));
    assert_eq!(run_lookup(&table, hdr, (11, false)), (Some(5), 2));
    assert_eq!(run_lookup(&table, hdr, (19, false)), (Some(6), 3));
}

#[test]
fn lookup_stops_at_empty_slot() {
    let hdr = header(8, 7, 0x1000);
    let table = displaced_table();
    assert_eq!(run_lookup(&table, hdr, (27, false)), (None, 4));
    assert_eq!(run_lookup(&table, hdr, (4, false)), (None, 3));
}

#[test]
fn lookup_stops_when_entry_is_closer_to_home() {
    let hdr = header(8, 7, 0x1000);
    let mut table = vec![(0u32, 0i32); 8];
    table[0] = (8, 7);
    table[1] = (9, 8);
    // key 15 hashes to 16, whose ideal slot is 0; slot 1 holds an entry at
    // its own ideal slot, so key 15 cannot lie further on
    assert_eq!(run_lookup(&table, hdr, (15, false)), (None, 2));
}

#[test]
fn lookup_same_hash_other_key_goes_on() {
    let hdr = header(8, 7, 0x1000);
    let mut table = vec![(0u32, 0i32); 8];
    // the slot stores the hash of key 3 but another key
    table[4] = (4, 99);
    assert_eq!(run_lookup(&table, hdr, (3, false)), (None, 2));
    let p = Probe::start(4, hdr, 16);
    assert!(p.needs_key(4));
    assert!(!p.needs_key(5));
    assert!(!p.needs_key(0));
}

#[test]
fn lookup_of_full_table_reads_at_most_mask_plus_two_slots() {
    let hdr = header(8, 7, 0x1000);
    // every slot holds an entry lying 7 slots past its place
    let table: Vec<(u32, i32)> = (0..8u32).map(|pos| (((pos + 1) & 7) + 8, -1)).collect();
    let (found, reads) = run_lookup(&table, hdr, (100, false));
    assert_eq!(found, None);
    assert_eq!(reads, 9);
}

#[test]
fn empty_hash_slot_ends_lookup_even_for_hash_zero() {
    let hdr = header(8, 7, 0x1000);
    // key -1 hashes to 0, the hash of an empty slot
    let p = Probe::start(<i32 as mondealy_splitter::hash_map::Hash>::hash(&(-1, false)), hdr, 16);
    assert_eq!(p.hash, 0);
    assert_eq!(p.examine(0, true), ProbeStep::NotFound);
}

#[test]
fn probe_next_wraps_round_table() {
    let hdr = header(8, 7, 0x1000);
    let p = Probe { hash: 1, header: hdr, slot_size: 16, pos: 7, step: 0 };
    match p.examine(7, false) {
        ProbeStep::Next(q) => {
            assert_eq!(q.pos, 0);
            assert_eq!(q.step, 1);
            assert_eq!(q.hash, 1);
        }
        other => panic!("unexpected {:?}", other),
    }
}

#[test]
fn slot_key_hash_distinct_for_distinct_slots() {
    for complex in [false, true] {
        let mut hashes: Vec<u32> = (-200..200i32)
            .chain([i32::MIN, i32::MAX])
            .map(|k| <i32 as mondealy_splitter::hash_map::Hash>::hash(&(k, complex)))
            .collect();
        let n = hashes.len();
        hashes.sort();
        hashes.dedup();
        assert_eq!(hashes.len(), n);
    }
}

#[test]
fn lookup_finds_every_key_of_a_laid_out_table() {
    let hdr = header(8, 7, 0x1000);
    // keys 3, 11, 19 (ideal slot 4) and 5 (ideal slot 6, pushed to 7)
    let mut table = displaced_table();
    table[7] = (6, 5);
    for (key, slot) in [(3, 4), (11, 5), (19, 6), (5, 7)] {
        assert_eq!(run_lookup(&table, hdr, (key, false)).0, Some(slot));
    }
}
