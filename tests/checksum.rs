use downloader::checksum::{
    equals_ignoring_ascii_case, parse_algorithm, to_hex, ChecksumAlgorithm, ChecksumStream,
    Verification,
};

const SHA256_ABC: &str = "ba7816bf8f01cfea414140de5dae2223b00361a396177a9cb410ff61f20015ad";
const MD5_ABC: &str = "900150983cd24fb0d6963f7d28e17f72";
const SHA256_EMPTY: &str = "e3b0c44298fc1c149afbf4c8996fb92427ae41e4649b934ca495991b7852b855";
const MD5_EMPTY: &str = "d41d8cd98f00b204e9800998ecf8427e";

fn digest(alg: ChecksumAlgorithm, chunks: &[&[u8]]) -> String {
    let mut s = ChecksumStream::new(alg);
    for c in chunks {
        s.update(c);
    }
    s.finish()
}

fn verify(expected: &str, algorithm: &str, data: &[u8]) -> bool {
    let mut v = Verification::start(expected, algorithm).unwrap();
    v.feed(data);
    v.conclude()
}

#[test]
fn hex_is_lowercase_two_digits_per_byte() {
    assert_eq!(to_hex(&[0x00, 0x0f, 0xa5, 0xff]), "000fa5ff");
    assert_eq!(to_hex(&[]), "");
}

#[test]
fn known_digests() {
    assert_eq!(digest(ChecksumAlgorithm::Sha256, &[b"abc"]), SHA256_ABC);
    assert_eq!(digest(ChecksumAlgorithm::Md5, &[b"abc"]), MD5_ABC);
    assert_eq!(digest(ChecksumAlgorithm::Sha256, &[]), SHA256_EMPTY);
    assert_eq!(digest(ChecksumAlgorithm::Md5, &[]), MD5_EMPTY);
}

#[test]
fn chunking_does_not_change_the_digest() {
    assert_eq!(digest(ChecksumAlgorithm::Sha256, &[b"a", b"", b"bc"]), SHA256_ABC);
    assert_eq!(digest(ChecksumAlgorithm::Md5, &[b"ab", b"c"]), MD5_ABC);
}

#[test]
fn file_verifies_against_its_own_digest() {
    let data: Vec<u8> = (0..20000u32).map(|i| (i % 251) as u8).collect();
    let d = digest(ChecksumAlgorithm::Sha256, &[&data]);
    assert!(verify(&d, "sha256", &data));
    assert!(verify(&d.to_uppercase(), "sha256", &data));
    let mut changed = data.clone();
    changed[12345] ^= 1;
    assert!(!verify(&d, "sha256", &changed));
}

#[test]
fn md5_verification() {
    assert!(verify(MD5_ABC, "md5", b"abc"));
    assert!(verify(MD5_ABC, "MD5", b"abc"));
    assert!(!verify(MD5_ABC, "md5", b"abd"));
    assert!(!verify(SHA256_ABC, "md5", b"abc"));
}

#[test]
fn algorithm_names_ignore_case() {
    assert_eq!(parse_algorithm("SHA256").unwrap(), ChecksumAlgorithm::Sha256);
    assert_eq!(parse_algorithm("sha256").unwrap(), ChecksumAlgorithm::Sha256);
    assert_eq!(parse_algorithm("Md5").unwrap(), ChecksumAlgorithm::Md5);
    assert_eq!(verify(SHA256_ABC, "SHA256", b"abc"), verify(SHA256_ABC, "sha256", b"abc"));
}

#[test]
fn unsupported_algorithm_is_refused() {
    let e = parse_algorithm("crc32").unwrap_err();
    assert_eq!(e.name, "crc32");
    assert_eq!(e.message(), "Unsupported algorithm: crc32");
    assert!(Verification::start(SHA256_ABC, "crc32").is_err());
    assert!(parse_algorithm("sha-256").is_err());
    assert!(parse_algorithm("").is_err());
}

#[test]
fn case_insensitive_comparison() {
    assert!(equals_ignoring_ascii_case("AbC", "aBc"));
    assert!(!equals_ignoring_ascii_case("abc", "abd"));
    assert!(!equals_ignoring_ascii_case("abc", "abcd"));
    assert!(!equals_ignoring_ascii_case("[", "{"));
}
