//! Header decoding and top-level pipeline behavior.

use mpkdb::parser::{parse_kdb_file, Error, PWM_DBSIG_1, PWM_DBSIG_2};

fn make_header(
    sig1: u32,
    sig2: u32,
    flags: u32,
    version: u32,
    group_count: u32,
    entry_count: u32,
    rounds: u32,
) -> Vec<u8> {
    let mut b: Vec<u8> = Vec::new();
    b.extend_from_slice(&sig1.to_le_bytes());
    b.extend_from_slice(&sig2.to_le_bytes());
    b.extend_from_slice(&flags.to_le_bytes());
    b.extend_from_slice(&version.to_le_bytes());
    b.extend_from_slice(&[0x11u8; 16]); // master_seed
    b.extend_from_slice(&[0x22u8; 16]); // enc_iv
    b.extend_from_slice(&group_count.to_le_bytes());
    b.extend_from_slice(&entry_count.to_le_bytes());
    b.extend_from_slice(&[0x33u8; 32]); // contents_hash
    b.extend_from_slice(&[0x44u8; 32]); // master_seed_2
    b.extend_from_slice(&rounds.to_le_bytes());
    assert_eq!(b.len(), 124);
    b
}

#[test]
fn short_input_fails_malformed() {
    assert_eq!(parse_kdb_file(&[], "pw").err(), Some(Error::MalformedHeader));
    assert_eq!(parse_kdb_file(&[0u8; 1], "pw").err(), Some(Error::MalformedHeader));
    assert_eq!(parse_kdb_file(&[0u8; 123], "pw").err(), Some(Error::MalformedHeader));
}

#[test]
fn exactly_header_sized_input_is_not_malformed() {
    // 124 zero bytes: long enough to decode, but the signature is wrong.
    let r = parse_kdb_file(&[0u8; 124], "pw");
    assert_eq!(
        r.err(),
        Some(Error::BadSignature {
            expected_1: PWM_DBSIG_1,
            expected_2: PWM_DBSIG_2,
            actual_1: 0,
            actual_2: 0,
        })
    );
}

#[test]
fn bad_signature_reported_before_other_checks() {
    // Everything else is nonsense too, but the signature failure wins.
    let b = make_header(0xDEADBEEF, PWM_DBSIG_2, 0, 0, 9, 9, 0);
    assert_eq!(
        parse_kdb_file(&b, "pw").err(),
        Some(Error::BadSignature {
            expected_1: PWM_DBSIG_1,
            expected_2: PWM_DBSIG_2,
            actual_1: 0xDEADBEEF,
            actual_2: PWM_DBSIG_2,
        })
    );
}

#[test]
fn old_version_fails_even_with_valid_signature() {
    let b = make_header(PWM_DBSIG_1, PWM_DBSIG_2, 2, 0x0002_0001, 0, 0, 1);
    assert_eq!(
        parse_kdb_file(&b, "pw").err(),
        Some(Error::UnsupportedVersion { major: 2, minor: 1 })
    );
}

#[test]
fn flags_naming_no_cipher_fail_unknown_cipher() {
    let b = make_header(PWM_DBSIG_1, PWM_DBSIG_2, 0, 0x0003_0004, 0, 0, 1);
    assert_eq!(parse_kdb_file(&b, "pw").err(), Some(Error::UnknownCipher { flags: 0 }));
}

#[test]
fn twofish_recognized_but_unsupported() {
    let b = make_header(PWM_DBSIG_1, PWM_DBSIG_2, 8, 0x0003_0004, 0, 0, 1);
    assert_eq!(parse_kdb_file(&b, "pw").err(), Some(Error::UnsupportedCipher));
}

#[test]
fn absurd_round_count_rejected() {
    let b = make_header(PWM_DBSIG_1, PWM_DBSIG_2, 2, 0x0003_0004, 0, 0, 0x7FFF_FFFF);
    assert_eq!(
        parse_kdb_file(&b, "pw").err(),
        Some(Error::KeyDerivationTooExpensive { rounds: 0x7FFF_FFFF })
    );
}

#[test]
fn ragged_ciphertext_fails_truncated() {
    let mut b = make_header(PWM_DBSIG_1, PWM_DBSIG_2, 2, 0x0003_0004, 0, 0, 1);
    b.extend_from_slice(&[0u8; 5]);
    assert_eq!(parse_kdb_file(&b, "pw").err(), Some(Error::TruncatedCiphertext { length: 5 }));
}

#[test]
fn empty_body_with_zero_counts_parses() {
    let b = make_header(PWM_DBSIG_1, PWM_DBSIG_2, 2, 0x0003_0004, 0, 0, 2);
    let f = parse_kdb_file(&b, "pw").unwrap();
    assert_eq!(f.groups.len(), 0);
    assert_eq!(f.entries.len(), 0);
    assert_eq!(f.header.signature_1, PWM_DBSIG_1);
    assert_eq!(f.header.signature_2, PWM_DBSIG_2);
    assert_eq!(f.header.flags, 2);
    assert_eq!(f.header.version, 0x0003_0004);
    assert_eq!(f.header.group_count, 0);
    assert_eq!(f.header.entry_count, 0);
    assert_eq!(f.header.key_enc_rounds, 2);
    assert_eq!(f.header.master_seed, vec![0x11u8; 16]);
    assert_eq!(f.header.enc_iv, vec![0x22u8; 16]);
    assert_eq!(f.header.contents_hash, vec![0x33u8; 32]);
    assert_eq!(f.header.master_seed_2, vec![0x44u8; 32]);
}

#[test]
fn empty_body_with_declared_group_fails_truncated_record() {
    let b = make_header(PWM_DBSIG_1, PWM_DBSIG_2, 2, 0x0003_0004, 1, 0, 1);
    assert_eq!(parse_kdb_file(&b, "pw").err(), Some(Error::TruncatedRecord));
}

#[test]
fn describe_renders_context() {
    assert_eq!(
        Error::UnknownFieldType { field_type: 255, field_size: 0 }.describe(),
        "Unknown field type: 255 (ff)"
    );
    assert_eq!(
        Error::BadSignature {
            expected_1: PWM_DBSIG_1,
            expected_2: PWM_DBSIG_2,
            actual_1: 0,
            actual_2: 0,
        }
        .describe(),
        "Invalid file signature: 0 0 (expected 9aa2d903 b54bfb65)"
    );
    assert_eq!(
        Error::UnsupportedVersion { major: 2, minor: 10 }.describe(),
        "Unsupported DB version 2.10"
    );
    assert_eq!(
        Error::InvalidDateTime { field_size: 4 }.describe(),
        "Failed to parse date-time: expected 5 bytes, got 4"
    );
}
