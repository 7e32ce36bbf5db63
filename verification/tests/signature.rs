use webhook_server::signature::{
    authenticate, digests_equal, judge, parse_signature_header, verify, SignatureParseError,
    Verdict, SIGNATURE_LEN,
};

const HELLO_CODE: [u8; SIGNATURE_LEN] = [
    33, 251, 221, 245, 138, 124, 128, 247, 186, 123, 12, 209, 43, 151, 131, 218, 6, 127, 212, 226,
];

#[test]
fn signature_length_is_that_of_sha1() {
    assert_eq!(SIGNATURE_LEN, 20);
}

#[test]
fn parses_a_lower_case_digest() {
    let parsed = parse_signature_header(b"sha1=21fbddf58a7c80f7ba7b0cd12b9783da067fd4e2");
    assert_eq!(parsed, Ok(HELLO_CODE));
}

#[test]
fn parses_an_upper_case_digest() {
    let parsed = parse_signature_header(b"sha1=21FBDDF58A7C80F7BA7B0CD12B9783DA067FD4E2");
    assert_eq!(parsed, Ok(HELLO_CODE));
}

#[test]
fn parses_a_digest_of_mixed_case() {
    let parsed = parse_signature_header(b"sha1=21fBdDf58A7c80F7bA7b0Cd12B9783dA067Fd4E2");
    assert_eq!(parsed, Ok(HELLO_CODE));
}

#[test]
fn decodes_each_digit_pair_high_digit_first() {
    let parsed = parse_signature_header(b"sha1=000102030405060708090a0b0c0d0e0f10fF7f80");
    assert_eq!(
        parsed,
        Ok([0, 1, 2, 3, 4, 5, 6, 7, 8, 9, 10, 11, 12, 13, 14, 15, 16, 255, 127, 128])
    );
}

#[test]
fn header_without_separator_is_malformed() {
    assert_eq!(parse_signature_header(b"sha1"), Err(SignatureParseError::Malformed));
    assert_eq!(parse_signature_header(b""), Err(SignatureParseError::Malformed));
    assert_eq!(
        parse_signature_header(b"21fbddf58a7c80f7ba7b0cd12b9783da067fd4e2"),
        Err(SignatureParseError::Malformed)
    );
}

#[test]
fn digest_with_a_digit_that_is_not_hex_is_malformed() {
    assert_eq!(
        parse_signature_header(b"sha1=21fbddf58a7c80f7ba7b0cd12b9783da067fd4eg"),
        Err(SignatureParseError::Malformed)
    );
    assert_eq!(
        parse_signature_header(b"sha1=21fbddf58a7c80f7ba7b0cd12b9783da067fd4 2"),
        Err(SignatureParseError::Malformed)
    );
}

#[test]
fn digest_of_the_wrong_length_is_malformed() {
    assert_eq!(parse_signature_header(b"sha1="), Err(SignatureParseError::Malformed));
    assert_eq!(parse_signature_header(b"sha1=abcd"), Err(SignatureParseError::Malformed));
    assert_eq!(
        parse_signature_header(b"sha1=21fbddf58a7c80f7ba7b0cd12b9783da067fd4e"),
        Err(SignatureParseError::Malformed)
    );
    assert_eq!(
        parse_signature_header(b"sha1=21fbddf58a7c80f7ba7b0cd12b9783da067fd4e2ff"),
        Err(SignatureParseError::Malformed)
    );
}

#[test]
fn header_is_split_at_its_first_separator() {
    assert_eq!(
        parse_signature_header(b"sha1=21fbddf58a7c80f7ba7b0cd12b9783da067fd4=2"),
        Err(SignatureParseError::Malformed)
    );
    assert_eq!(
        parse_signature_header(b"sha=1=21fbddf58a7c80f7ba7b0cd12b9783da067fd4e2"),
        Err(SignatureParseError::UnknownAlgorithm)
    );
}

#[test]
fn unknown_algorithm_is_reported_whatever_the_digest() {
    assert_eq!(parse_signature_header(b"foo=abcd"), Err(SignatureParseError::UnknownAlgorithm));
    assert_eq!(parse_signature_header(b"=abcd"), Err(SignatureParseError::UnknownAlgorithm));
    assert_eq!(
        parse_signature_header(b"sha256=21fbddf58a7c80f7ba7b0cd12b9783da067fd4e2"),
        Err(SignatureParseError::UnknownAlgorithm)
    );
    assert_eq!(
        parse_signature_header(b"SHA1=21fbddf58a7c80f7ba7b0cd12b9783da067fd4e2"),
        Err(SignatureParseError::UnknownAlgorithm)
    );
    assert_eq!(parse_signature_header(b"md5=zz"), Err(SignatureParseError::UnknownAlgorithm));
}

#[test]
fn equal_digests_are_equal() {
    assert!(digests_equal(&HELLO_CODE, &HELLO_CODE));
    assert!(digests_equal(&[0u8; SIGNATURE_LEN], &[0u8; SIGNATURE_LEN]));
}

#[test]
fn digests_that_differ_in_one_byte_are_not_equal() {
    for i in 0..SIGNATURE_LEN {
        let mut other = HELLO_CODE;
        other[i] ^= 0x80;
        assert!(!digests_equal(&HELLO_CODE, &other));
        assert!(!digests_equal(&other, &HELLO_CODE));
    }
}

#[test]
fn authenticates_the_code_of_the_body_under_the_secret() {
    assert!(authenticate(b"s3cr3t", b"hello", &HELLO_CODE));
}

#[test]
fn authenticates_published_test_vectors() {
    let jefe = parse_signature_header(b"sha1=effcdf6ae5eb2fa2d27416d5f184df9c259a7c79").unwrap();
    assert!(authenticate(b"Jefe", b"what do ya want for nothing?", &jefe));
    let hi = parse_signature_header(b"sha1=b617318655057264e28bc0b6fb378c8ef146be00").unwrap();
    assert!(authenticate(&[0x0b; 20], b"Hi There", &hi));
    let long = parse_signature_header(b"sha1=aa4ae5e15272d00e95705637ce8a3b55ed402112").unwrap();
    assert!(authenticate(
        &[0xaa; 80],
        b"Test Using Larger Than Block-Size Key - Hash Key First",
        &long
    ));
}

#[test]
fn authenticates_an_empty_body() {
    let code = parse_signature_header(b"sha1=319e5f42b6b9dc5daa3b1d411df1a3f7c891f358").unwrap();
    assert!(authenticate(b"s3cr3t", b"", &code));
}

#[test]
fn does_not_authenticate_another_body_or_secret() {
    assert!(!authenticate(b"s3cr3t", b"hello!", &HELLO_CODE));
    assert!(!authenticate(b"s3cr3T", b"hello", &HELLO_CODE));
    assert!(!authenticate(b"s3cr3t", b"", &HELLO_CODE));
    assert!(!authenticate(b"hello", b"s3cr3t", &HELLO_CODE));
}

#[test]
fn does_not_authenticate_the_key_or_the_body_as_the_code() {
    let mut key_as_code = [0u8; SIGNATURE_LEN];
    key_as_code[..6].copy_from_slice(b"s3cr3t");
    assert!(!authenticate(b"s3cr3t", b"hello", &key_as_code));
    let mut body_as_code = [0u8; SIGNATURE_LEN];
    body_as_code[..5].copy_from_slice(b"hello");
    assert!(!authenticate(b"s3cr3t", b"hello", &body_as_code));
}

#[test]
fn judges_a_header_against_a_code() {
    let header = b"sha1=21fbddf58a7c80f7ba7b0cd12b9783da067fd4e2";
    assert_eq!(judge(header, &HELLO_CODE), Verdict::Valid);
    assert_eq!(judge(header, &[0u8; SIGNATURE_LEN]), Verdict::Mismatch);
    assert_eq!(judge(b"sha1=abcd", &HELLO_CODE), Verdict::MalformedHeader);
    assert_eq!(judge(b"nothing", &HELLO_CODE), Verdict::MalformedHeader);
    assert_eq!(judge(b"foo=abcd", &HELLO_CODE), Verdict::UnsupportedAlgorithm);
}

#[test]
fn verifies_a_valid_signature() {
    assert_eq!(
        verify(b"sha1=21fbddf58a7c80f7ba7b0cd12b9783da067fd4e2", b"s3cr3t", b"hello"),
        Verdict::Valid
    );
    assert_eq!(
        verify(b"sha1=21FBDDF58A7C80F7BA7B0CD12B9783DA067FD4E2", b"s3cr3t", b"hello"),
        Verdict::Valid
    );
}

#[test]
fn verifies_a_mismatch() {
    assert_eq!(
        verify(b"sha1=deadbeefdeadbeefdeadbeefdeadbeefdeadbeef", b"s3cr3t", b"hello"),
        Verdict::Mismatch
    );
    assert_eq!(
        verify(b"sha1=21fbddf58a7c80f7ba7b0cd12b9783da067fd4e2", b"s3cr3t", b"hullo"),
        Verdict::Mismatch
    );
    assert_eq!(
        verify(b"sha1=21fbddf58a7c80f7ba7b0cd12b9783da067fd4e2", b"secret", b"hello"),
        Verdict::Mismatch
    );
}

#[test]
fn verifies_a_malformed_header() {
    assert_eq!(verify(b"sha1", b"s3cr3t", b"hello"), Verdict::MalformedHeader);
    assert_eq!(verify(b"sha1=deadbeef", b"s3cr3t", b"hello"), Verdict::MalformedHeader);
    assert_eq!(
        verify(b"sha1=xxfbddf58a7c80f7ba7b0cd12b9783da067fd4e2", b"s3cr3t", b"hello"),
        Verdict::MalformedHeader
    );
}

#[test]
fn verifies_an_unsupported_algorithm() {
    assert_eq!(verify(b"foo=abcd", b"s3cr3t", b"hello"), Verdict::UnsupportedAlgorithm);
    assert_eq!(
        verify(b"sha512=21fbddf58a7c80f7ba7b0cd12b9783da067fd4e2", b"s3cr3t", b"hello"),
        Verdict::UnsupportedAlgorithm
    );
}
