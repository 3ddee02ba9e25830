use mondealy_splitter::hash_map::murmurhash::calculate;

#[test]
fn murmur_empty_key_seed_zero() {
    assert_eq!(calculate(b"", 0), 0);
}

#[test]
fn murmur_empty_key_seed_one() {
    assert_eq!(calculate(b"", 1), 0x514e28b7);
}

#[test]
fn murmur_tail_lengths() {
    assert_eq!(calculate(b"a", 0), 0x3c2569b2);
    assert_eq!(calculate(b"ab", 0), 0x9bbfd75f);
    assert_eq!(calculate(b"abc", 0), 0xb3dd93fa);
}

#[test]
fn murmur_whole_block() {
    assert_eq!(calculate(b"abcd", 0), 0x43ed676a);
    assert_eq!(calculate(&[0xff, 0xff, 0xff, 0xff], 0), 0x76293b50);
}

#[test]
fn murmur_longer_keys() {
    assert_eq!(calculate(b"hello", 0), 0x248bfa47);
    assert_eq!(calculate(b"Hello, world!", 0), 0xc0363e43);
    assert_eq!(calculate(b"obj_core", 0), 0x10986211);
    assert_eq!(
        calculate(b"The quick brown fox jumps over the lazy dog", 0),
        0x2e4ff723
    );
}

#[test]
fn murmur_seed_changes_hash() {
    assert_eq!(calculate(b"test", 0x9747b28c), 0x704b81dc);
    assert_ne!(calculate(b"test", 0x9747b28c), calculate(b"test", 0));
}

#[test]
fn murmur_different_seeds_differ_for_same_key() {
    for key in [&b""[..], b"a", b"abcd", b"hello", b"obj_core"] {
        let hashes: Vec<u32> = (0..64u32).map(|seed| calculate(key, seed)).collect();
        for i in 0..hashes.len() {
            for j in i + 1..hashes.len() {
                assert_ne!(hashes[i], hashes[j]);
            }
        }
    }
}

#[test]
fn murmur_short_keys_of_same_length_differ() {
    let mut two_byte: Vec<u32> = Vec::new();
    for a in 0..=255u8 {
        for b in [0u8, 1, 0x7f, 0xff] {
            two_byte.push(calculate(&[a, b], 7));
        }
    }
    let mut sorted = two_byte.clone();
    sorted.sort();
    sorted.dedup();
    assert_eq!(sorted.len(), two_byte.len());
    assert_ne!(calculate(b"abcd", 0), calculate(b"abce", 0));
    assert_ne!(calculate(b"x", 3), calculate(b"y", 3));
}
