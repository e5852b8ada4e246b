use dicc_client::checksum::{matches_hex, Checksum};
use dicc_client::download::{CacheDecision, Download, FetchError};

const ABC_SHA256: &str = "ba7816bf8f01cfea414140de5dae2223b00361a396177a9cb410ff61f20015ad";
const EMPTY_SHA256: &str = "e3b0c44298fc1c149afbf4c8996fb92427ae41e4649b934ca495991b7852b855";

#[test]
fn sha256_checksum_accepts_matching_bytes() {
    let c = Checksum::new("sha256", ABC_SHA256);
    assert!(c.verify(b"abc"));
}

#[test]
fn sha256_checksum_ignores_case_of_hex() {
    let c = Checksum::new("sha256", &ABC_SHA256.to_uppercase());
    assert!(c.verify(b"abc"));
}

#[test]
fn sha256_checksum_rejects_other_bytes() {
    let c = Checksum::new("sha256", ABC_SHA256);
    assert!(!c.verify(b"abd"));
    assert!(!c.verify(b""));
}

#[test]
fn sha256_checksum_of_empty_input() {
    let c = Checksum::new("sha256", EMPTY_SHA256);
    assert!(c.verify(b""));
}

#[test]
fn unknown_algorithm_never_verifies() {
    let c = Checksum::new("md5", ABC_SHA256);
    assert!(!c.verify(b"abc"));
    let c = Checksum::new("SHA256", ABC_SHA256);
    assert!(!c.verify(b"abc"));
}

#[test]
fn truncated_value_does_not_verify() {
    let c = Checksum::new("sha256", &ABC_SHA256[..62]);
    assert!(!c.verify(b"abc"));
}

#[test]
fn checksum_matches_given_digest() {
    let c = Checksum::new("sha256", "00ff10Ab");
    assert!(c.matches_digest(&[0x00, 0xff, 0x10, 0xab]));
    assert!(!c.matches_digest(&[0x00, 0xff, 0x10, 0xac]));
    assert!(!c.matches_digest(&[0x00, 0xff, 0x10]));
}

#[test]
fn hex_text_against_bytes() {
    assert!(matches_hex("", &[]));
    assert!(matches_hex("0a", &[10]));
    assert!(matches_hex("FF00", &[255, 0]));
    assert!(!matches_hex("f", &[15]));
    assert!(!matches_hex("0g", &[0]));
    assert!(!matches_hex("a0", &[10]));
}

#[test]
fn download_trusts_any_matching_checksum() {
    let d = Download::new(
        "https://example.org/bin/tool",
        vec![Checksum::new("md5", "00"), Checksum::new("sha256", EMPTY_SHA256), Checksum::new("sha256", ABC_SHA256)],
    );
    assert!(d.verify(b"abc"));
    assert!(d.verify(b""));
    assert!(!d.verify(b"xyz"));
}

#[test]
fn download_without_checksums_trusts_nothing() {
    let d = Download::new("https://example.org/tool", vec![]);
    assert!(!d.verify(b"abc"));
}

#[test]
fn download_matches_digest_of_any_checksum() {
    let d = Download::new("u/x", vec![Checksum::new("sha256", "01"), Checksum::new("sha256", "02")]);
    assert!(d.matches_digest(&[2]));
    assert!(!d.matches_digest(&[3]));
}

#[test]
fn cache_decision_reuses_verified_file() {
    let d = Download::new("https://example.org/tool", vec![Checksum::new("sha256", ABC_SHA256)]);
    assert_eq!(d.cache_decision(Some(&b"abc"[..])), CacheDecision::Reuse);
    assert_eq!(d.cache_decision(Some(&b"abx"[..])), CacheDecision::Fetch);
    assert_eq!(d.cache_decision(None), CacheDecision::Fetch);
}

#[test]
fn accepted_fetch_is_reused_next_time() {
    let d = Download::new("https://example.org/tool", vec![Checksum::new("sha256", ABC_SHA256)]);
    assert_eq!(d.cache_decision(None), CacheDecision::Fetch);
    let written = d.accept_fetched(Ok(b"abc".to_vec())).unwrap();
    assert_eq!(written, b"abc".to_vec());
    assert_eq!(d.cache_decision(Some(written.as_slice())), CacheDecision::Reuse);
}

#[test]
fn corrupt_cache_is_fetched_and_replaced() {
    let d = Download::new("https://example.org/tool", vec![Checksum::new("sha256", ABC_SHA256)]);
    assert_eq!(d.cache_decision(Some(&b"corrupt"[..])), CacheDecision::Fetch);
    assert_eq!(d.accept_fetched(Ok(b"abc".to_vec())), Ok(b"abc".to_vec()));
}

#[test]
fn corrupt_fetch_is_rejected() {
    let d = Download::new("https://example.org/tool", vec![Checksum::new("sha256", ABC_SHA256)]);
    assert_eq!(d.cache_decision(Some(&b"corrupt"[..])), CacheDecision::Fetch);
    assert_eq!(d.accept_fetched(Ok(b"tampered".to_vec())), Err(FetchError::Rejected));
}

#[test]
fn transport_failure_passes_through() {
    let d = Download::new("https://example.org/tool", vec![Checksum::new("sha256", ABC_SHA256)]);
    assert_eq!(d.accept_fetched(Err(FetchError::Transport)), Err(FetchError::Transport));
}

#[test]
fn checksum_duplicate_keeps_fields() {
    let c = Checksum::new("sha256", "ab");
    let d = c.duplicate();
    assert_eq!(d.algorithm, "sha256");
    assert_eq!(d.value, "ab");
}
