
use mondealy_splitter::small_str::{SmallStr, SMALL_STR_CAPACITY};

fn small(text: &[u8]) -> SmallStr {
    let mut raw = [0u8; 255];
    raw[..text.len()].copy_from_slice(text);
    SmallStr::from_raw(raw)
}

#[test]
fn empty_small_str() {
    let s = SmallStr::new();
    assert_eq!(s.len(), 0);
    assert_eq!(s.as_bytes(), Vec::<u8>::new());
    assert!(s.matches(b""));
    assert!(!s.matches(b"a"));
}

#[test]
fn small_str_stops_at_first_nul() {
    let mut raw = [0u8; 255];
    raw[..8].copy_from_slice(b"obj_core");
    raw[9] = b'x';
    let s = SmallStr::from_raw(raw);
    assert_eq!(s.len(), 8);
    assert_eq!(s.as_bytes(), b"obj_core".to_vec());
    assert!(s.matches(b"obj_core"));
    assert!(!s.matches(b"obj_cor"));
    assert!(!s.matches(b"obj_core\0x"));
}

#[test]
fn small_str_without_nul_is_whole_buffer() {
    let raw = [b'a'; 255];
    let s = SmallStr::from_raw(raw);
    assert_eq!(s.len(), SMALL_STR_CAPACITY);
    assert_eq!(s.as_bytes(), vec![b'a'; 255]);
    assert!(s.matches(&[b'a'; 255]));
    assert!(!s.matches(&[b'a'; 254]));
}

#[test]
fn small_str_mismatch_same_length() {
    let s = small(b"Object1");
    assert!(!s.matches(b"Object2"));
    assert!(s.matches(b"Object1"));
}

#[test]
fn small_str_hash_key_is_murmur_with_seed_zero() {
    assert_eq!(<SmallStr as mondealy_splitter::hash_map::Hash>::hash("hello"), 0x248bfa47);
    assert_eq!(<SmallStr as mondealy_splitter::hash_map::Hash>::hash(""), 0);
    assert_eq!(<SmallStr as mondealy_splitter::hash_map::Hash>::hash("obj_core"), 0x10986211);
}

#[test]
fn small_str_hash_key_matches_by_bytes() {
    let s = small(b"score");
    assert!(<SmallStr as mondealy_splitter::hash_map::Hash>::matches(&s, "score"));
    assert!(!<SmallStr as mondealy_splitter::hash_map::Hash>::matches(&s, "scores"));
    assert!(!<SmallStr as mondealy_splitter::hash_map::Hash>::matches(&s, "Score"));
}
