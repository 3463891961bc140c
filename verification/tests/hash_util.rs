use reaboot::hash_util::{
    build_sha256_source_hash, parse_hash, BuildHashVerifierError, HashVerificationError, ParseHashError,
    ReabootHashVerifier,
};

#[test]
fn empty() {
    assert_eq!(
        build_sha256_source_hash("".as_bytes()),
        "1220e3b0c44298fc1c149afbf4c8996fb92427ae41e4649b934ca495991b7852b855"
    );
}

#[test]
fn digest_twice() {
    assert_eq!(build_sha256_source_hash("".as_bytes()), build_sha256_source_hash("".as_bytes()));
}

#[test]
fn single_chunk() {
    assert_eq!(
        build_sha256_source_hash("hello world".as_bytes()),
        "1220b94d27b9934d3e08a52e52d7da7dabfac484efe37a5380ee9088f7ace2efcde9"
    );
}

#[test]
fn verify_ok() {
    let mut verifier = ReabootHashVerifier::try_from_hash(
        "1220b94d27b9934d3e08a52e52d7da7dabfac484efe37a5380ee9088f7ace2efcde9",
    )
    .unwrap();
    verifier.update("hello world".as_bytes());
    verifier.verify().unwrap();
}

#[test]
fn verify_err() {
    let mut verifier = ReabootHashVerifier::try_from_hash(
        "1220b94d27b9934d3e08a52e52d7da7dabfac484efe37a5380ee9088f7ace2efcde9",
    )
    .unwrap();
    verifier.update("hello world oh no".as_bytes());
    verifier.verify().unwrap_err();
}

#[test]
fn verify_in_pieces() {
    let hash = build_sha256_source_hash("hello world".as_bytes());
    let mut verifier = ReabootHashVerifier::try_from_hash(&hash).unwrap();
    verifier.update("hello ".as_bytes());
    verifier.update("world".as_bytes());
    verifier.verify().unwrap();
}

#[test]
fn mismatch_reports_both_hashes() {
    let expected = "1220b94d27b9934d3e08a52e52d7da7dabfac484efe37a5380ee9088f7ace2efcde9";
    let verifier = ReabootHashVerifier::try_from_hash(expected).unwrap();
    match verifier.verify() {
        Err(HashVerificationError::HashesNotMatching { expected_hash, actual_hash }) => {
            assert_eq!(expected_hash, expected);
            assert_eq!(actual_hash, "e3b0c44298fc1c149afbf4c8996fb92427ae41e4649b934ca495991b7852b855");
        }
        Ok(()) => panic!("empty content must not match"),
    }
}

#[test]
fn parse_hash_reads_code_and_digest() {
    let m = parse_hash("1220b94d27b9934d3e08a52e52d7da7dabfac484efe37a5380ee9088f7ace2efcde9").unwrap();
    assert_eq!(m.code, 0x12);
    assert_eq!(m.digest.len(), 32);
    assert_eq!(m.digest[0], 0xb9);
    assert_eq!(m.digest[31], 0xe9);
}

#[test]
fn parse_hash_rejects_non_hex() {
    match parse_hash("12zz") {
        Err(ParseHashError::HashNotHexEncoded { provided_hash, .. }) => assert_eq!(provided_hash, "12zz"),
        _ => panic!("expected a hex error"),
    }
    assert!(matches!(parse_hash("123"), Err(ParseHashError::HashNotHexEncoded { .. })));
}

#[test]
fn parse_hash_rejects_invalid_multihash() {
    // Claims a digest of 32 bytes, but carries only one.
    match parse_hash("1220ab") {
        Err(ParseHashError::InvalidMultiHash { provided_hash, .. }) => assert_eq!(provided_hash, "1220ab"),
        _ => panic!("expected a multihash error"),
    }
}

#[test]
fn unsupported_algorithm_is_refused() {
    // SHA-512 (code 0x13) with a 64-byte digest of zeros.
    let hash = format!("1340{}", "00".repeat(64));
    match ReabootHashVerifier::try_from_hash(&hash) {
        Err(BuildHashVerifierError::UnsupportedHashAlgorithm { code }) => assert_eq!(code, 0x13),
        _ => panic!("expected an unsupported algorithm"),
    }
    assert!(matches!(
        ReabootHashVerifier::try_from_hash("xyz"),
        Err(BuildHashVerifierError::Parse(ParseHashError::HashNotHexEncoded { .. }))
    ));
}
