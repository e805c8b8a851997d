use mktex::sync::{check_resource, content_hash, sync_verdict, verdict_from_digests, SyncVerdict};

#[test]
fn hash_of_known_input() {
    assert_eq!(
        content_hash(b"abc"),
        "ba7816bf8f01cfea414140de5dae2223b00361a396177a9cb410ff61f20015ad"
    );
    assert_eq!(
        content_hash(b""),
        "e3b0c44298fc1c149afbf4c8996fb92427ae41e4649b934ca495991b7852b855"
    );
}

#[test]
fn hash_is_sixty_four_lowercase_hex_digits() {
    for data in [&b""[..], &b"abc"[..], &b"\\documentclass{article}\nhello"[..]] {
        let h = content_hash(data);
        assert_eq!(h.len(), 64);
        assert!(h.chars().all(|c| c.is_ascii_digit() || ('a'..='f').contains(&c)));
    }
}

#[test]
fn hash_is_deterministic_and_distinct_on_corpus() {
    let corpus: [&[u8]; 5] = [b"old", b"new", b"\\documentclass{article}\nhello", b"", b"hello"];
    for a in corpus.iter() {
        assert_eq!(content_hash(a), content_hash(a));
        for b in corpus.iter() {
            if a != b {
                assert_ne!(content_hash(a), content_hash(b));
            }
        }
    }
}

#[test]
fn verdict_same_bytes_in_sync() {
    let c = "\\documentclass{article}\nhello";
    assert_eq!(sync_verdict(Some(c.as_bytes()), c), SyncVerdict::InSync);
    assert!(check_resource(Some(c.as_bytes()), c));
}

#[test]
fn verdict_different_bytes_stale() {
    assert_eq!(sync_verdict(Some(b"old"), "new"), SyncVerdict::Stale);
    assert!(!check_resource(Some(b"old"), "new"));
}

#[test]
fn verdict_missing_absent() {
    assert_eq!(sync_verdict(None, "new"), SyncVerdict::Absent);
    assert!(!check_resource(None, "new"));
}

#[test]
fn verdict_from_digests_compares_text() {
    let a = String::from("aa");
    let b = String::from("bb");
    assert_eq!(verdict_from_digests(Some(&a), &a), SyncVerdict::InSync);
    assert_eq!(verdict_from_digests(Some(&a), &b), SyncVerdict::Stale);
    assert_eq!(verdict_from_digests(None, &b), SyncVerdict::Absent);
}
