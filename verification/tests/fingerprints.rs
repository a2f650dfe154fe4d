use mrt::change_detection::{choose_strategy, fp_leq, hash_bytes_buffered, hash_bytes_mapped,
    sort_fingerprints, FileFingerprint, FingerprintHasher, HashStrategy};

fn patterned(len: usize) -> Vec<u8> {
    let mut v = Vec::with_capacity(len);
    for i in 0..len {
        v.push((i % 251) as u8);
    }
    v
}

#[test]
fn digest_is_lowercase_hex_of_64_bytes() {
    let digest = hash_bytes_buffered(b"hello world");
    assert_eq!(digest.len(), 128);
    assert!(digest.chars().all(|c| matches!(c, '0'..='9' | 'a'..='f')));
}

#[test]
fn digest_distinguishes_contents() {
    assert_ne!(hash_bytes_buffered(b"a"), hash_bytes_buffered(b"b"));
    assert_ne!(hash_bytes_buffered(b""), hash_bytes_buffered(b"\x00"));
}

#[test]
fn mapped_and_buffered_agree_on_empty_file() {
    assert_eq!(hash_bytes_mapped(b""), hash_bytes_buffered(b""));
}

#[test]
fn mapped_and_buffered_agree_at_threshold_boundary() {
    for len in [16383usize, 16384, 16385] {
        let data = patterned(len);
        assert_eq!(hash_bytes_mapped(&data), hash_bytes_buffered(&data), "length {}", len);
    }
}

#[test]
fn incremental_feeding_matches_whole_input() {
    let data = patterned(200_000);
    let whole = hash_bytes_mapped(&data);
    let mut hasher = FingerprintHasher::new();
    for chunk in data.chunks(7777) {
        hasher.feed(chunk);
    }
    assert_eq!(hasher.finish_hex(), whole);
}

#[test]
fn strategy_choice_follows_size_and_kind() {
    assert!(matches!(choose_strategy(true, 16384), HashStrategy::Mapped));
    assert!(matches!(choose_strategy(true, 16383), HashStrategy::Buffered));
    assert!(matches!(choose_strategy(true, 0), HashStrategy::Buffered));
    assert!(matches!(choose_strategy(false, 1 << 20), HashStrategy::Buffered));
    assert!(matches!(choose_strategy(true, u64::MAX), HashStrategy::Buffered));
    assert!(matches!(choose_strategy(true, 1 << 40), HashStrategy::Mapped));
}

fn fp(path: &str, digest: &str) -> FileFingerprint {
    FileFingerprint { relative_path: String::from(path), digest: String::from(digest) }
}

fn as_pairs(v: &[FileFingerprint]) -> Vec<(String, String)> {
    v.iter().map(|f| (f.relative_path.clone(), f.digest.clone())).collect()
}

#[test]
fn sorting_orders_by_path() {
    let sorted = sort_fingerprints(vec![fp("b/x", "22"), fp("a/z", "33"), fp("a/y", "11")]);
    assert_eq!(
        as_pairs(&sorted),
        vec![
            (String::from("a/y"), String::from("11")),
            (String::from("a/z"), String::from("33")),
            (String::from("b/x"), String::from("22")),
        ]
    );
}

#[test]
fn fingerprint_set_is_order_independent() {
    let walk_one = vec![fp("pkg/src/main.c", "aa"), fp("pkg/Makefile", "bb"), fp("README", "cc")];
    let walk_two = vec![fp("README", "cc"), fp("pkg/Makefile", "bb"), fp("pkg/src/main.c", "aa")];
    let one = sort_fingerprints(walk_one);
    let two = sort_fingerprints(walk_two);
    assert_eq!(as_pairs(&one), as_pairs(&two));
}

#[test]
fn fingerprint_comparison_is_lexicographic() {
    assert!(fp_leq(&fp("a", "9"), &fp("b", "0")));
    assert!(!fp_leq(&fp("b", "0"), &fp("a", "9")));
    assert!(fp_leq(&fp("a", "1"), &fp("a", "2")));
    assert!(fp_leq(&fp("a", "1"), &fp("a", "1")));
    assert!(fp_leq(&fp("a", "1"), &fp("ab", "0")));
}
