use mdget::{
    acquire, digest_matches, digest_text, hex_of, settle, verify_sha512, Failure, File, Hashes,
};

const ABC_SHA512: &str = "ddaf35a193617abacc417349ae20413112e6fa4e89a97ea20a9eeee64b55d39a2192992a274fc1a836ba3c23a3feebbd454d4423643ce80e2a9ac94fa54ca49f";
const EMPTY_SHA512: &str = "cf83e1357eefb8bdf1542850d66d8007d620e4050b5715dc83f4a921d36ce9ce47d0d13c5d85f2b0ff8318d2877eec2f63b931bd47417a81a538327af927da3e";

fn file(name: &str, sha512: &str) -> File {
    File {
        hashes: Hashes { sha512: sha512.to_string(), sha1: String::new() },
        url: format!("https://cdn.example/{}", name),
        filename: name.to_string(),
        primary: true,
        size: 3,
        file_type: None,
    }
}

#[test]
fn sha512_of_known_inputs() {
    assert!(verify_sha512(b"abc", ABC_SHA512));
    assert!(verify_sha512(b"", EMPTY_SHA512));
    assert!(!verify_sha512(b"abd", ABC_SHA512));
    assert!(!verify_sha512(b"abc", EMPTY_SHA512));
}

#[test]
fn sha512_comparison_ignores_case() {
    assert!(verify_sha512(b"abc", &ABC_SHA512.to_uppercase()));
    let mixed: String = ABC_SHA512
        .chars()
        .enumerate()
        .map(|(i, c)| if i % 2 == 0 { c.to_ascii_uppercase() } else { c })
        .collect();
    assert!(verify_sha512(b"abc", &mixed));
}

#[test]
fn digest_matches_is_hex_of_the_bytes() {
    assert!(digest_matches(&[0xab, 0x01, 0xff, 0x00], "ab01ff00"));
    assert!(digest_matches(&[0xab, 0x01, 0xff, 0x00], "AB01FF00"));
    assert!(digest_matches(&[0xab, 0x01, 0xff, 0x00], "aB01Ff00"));
    assert!(digest_matches(&[], ""));
    assert!(!digest_matches(&[0xab, 0x01], "ab02"));
    assert!(!digest_matches(&[0xab, 0x01], "ab0"));
    assert!(!digest_matches(&[0xab, 0x01], "ab010"));
    assert!(!digest_matches(&[0xab, 0x01], "ab0100"));
    assert!(!digest_matches(&[0xab], ""));
    assert!(!digest_matches(&[0xab], "a\u{e9}"));
    assert!(!digest_matches(&[0x0a], "0A "));
    assert!(!digest_matches(&[0xab], "ag"));
    assert!(!digest_matches(&[0x10], "1P"));
    assert!(!digest_matches(&[0x40], "`0"));
}

#[test]
fn acquire_hands_on_matching_content() {
    let entry = file("mod.jar", ABC_SHA512);
    let artifact = acquire(&entry, b"abc".to_vec()).unwrap();
    assert_eq!(artifact.filename, "mod.jar");
    assert_eq!(artifact.bytes, b"abc".to_vec());
    assert!(verify_sha512(&artifact.bytes, &entry.hashes.sha512));
}

#[test]
fn acquire_accepts_upper_case_declaration() {
    let entry = file("mod.jar", &ABC_SHA512.to_uppercase());
    let artifact = acquire(&entry, b"abc".to_vec()).unwrap();
    assert_eq!(artifact.bytes, b"abc".to_vec());
}

#[test]
fn acquire_refuses_mismatching_content() {
    let entry = file("mod.jar", "abc123");
    let outcome = acquire(&entry, b"some downloaded bytes".to_vec());
    assert_eq!(outcome, Err(Failure::IntegrityMismatch { filename: "mod.jar".to_string() }));
    let entry = file("other.jar", ABC_SHA512);
    let outcome = acquire(&entry, b"abcd".to_vec());
    assert_eq!(outcome, Err(Failure::IntegrityMismatch { filename: "other.jar".to_string() }));
}

#[test]
fn acquire_of_empty_content() {
    let entry = file("empty.jar", EMPTY_SHA512);
    let artifact = acquire(&entry, Vec::new()).unwrap();
    assert!(artifact.bytes.is_empty());
    let entry = file("empty.jar", "");
    assert!(acquire(&entry, Vec::new()).is_err());
}

#[test]
fn settle_decides_by_the_given_digest() {
    let entry = file("a.jar", "00ff");
    let ok = settle(&entry, vec![1, 2, 3], &[0x00, 0xff]).unwrap();
    assert_eq!(ok.filename, "a.jar");
    assert_eq!(ok.bytes, vec![1, 2, 3]);
    let bad = settle(&entry, vec![1, 2, 3], &[0x00, 0xfe]);
    assert_eq!(bad, Err(Failure::IntegrityMismatch { filename: "a.jar".to_string() }));
}

#[test]
fn hex_of_writes_two_small_digits_for_each_byte() {
    assert_eq!(hex_of(&[]), "");
    assert_eq!(hex_of(&[0x00]), "00");
    assert_eq!(hex_of(&[0x0f, 0xf0]), "0ff0");
    assert_eq!(hex_of(&[0xab, 0x01, 0xff, 0x9a]), "ab01ff9a");
    assert_eq!(hex_of(&[0x12, 0x34, 0x56, 0x78, 0x9a, 0xbc, 0xde]), "123456789abcde");
    assert!(digest_matches(&[0xab, 0x01, 0xff, 0x9a], &hex_of(&[0xab, 0x01, 0xff, 0x9a])));
}

#[test]
fn digest_text_is_the_hex_of_the_sha512() {
    assert_eq!(digest_text(b"abc"), ABC_SHA512);
    assert_eq!(digest_text(b""), EMPTY_SHA512);
    assert_eq!(digest_text(b"abc").len(), 128);
    assert_ne!(digest_text(b"abd"), ABC_SHA512);
}
