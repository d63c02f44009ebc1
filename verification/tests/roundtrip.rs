//! Key derivation against known digests, and a full encrypt-then-parse
//! round trip through the real cipher.

use crypto::buffer::{RefReadBuffer, RefWriteBuffer};
use crypto::symmetriccipher::Encryptor;

use mpkdb::api::PasswordDatabase;
use mpkdb::config::default_config_file_path;
use mpkdb::errors;
use mpkdb::kdb::open_bytes;
use mpkdb::keys::{password_to_master_key, transform_master_key};
use mpkdb::model::Config;
use mpkdb::parser::{parse_kdb_file, PWM_DBSIG_1, PWM_DBSIG_2};

const SEED_16: [u8; 16] = [0x11; 16];
const IV: [u8; 16] = [0x22; 16];
const SEED_32: [u8; 32] = [0x44; 32];

fn build_file(group_count: u32, entry_count: u32, rounds: u32, body: &[u8]) -> Vec<u8> {
    let mut b: Vec<u8> = Vec::new();
    b.extend_from_slice(&PWM_DBSIG_1.to_le_bytes());
    b.extend_from_slice(&PWM_DBSIG_2.to_le_bytes());
    b.extend_from_slice(&2u32.to_le_bytes()); // flags: AES
    b.extend_from_slice(&0x0003_0004u32.to_le_bytes());
    b.extend_from_slice(&SEED_16);
    b.extend_from_slice(&IV);
    b.extend_from_slice(&group_count.to_le_bytes());
    b.extend_from_slice(&entry_count.to_le_bytes());
    b.extend_from_slice(&[0x33u8; 32]); // contents_hash: unchecked
    b.extend_from_slice(&SEED_32);
    b.extend_from_slice(&rounds.to_le_bytes());
    b.extend_from_slice(body);
    b
}

fn encrypt_body(password: &str, rounds: u32, plaintext: &[u8]) -> Vec<u8> {
    let master = password_to_master_key(password);
    let key = transform_master_key(&master, &SEED_16, &SEED_32, rounds);
    let mut ct = vec![0u8; plaintext.len()];
    let mut enc = crypto::aes::cbc_encryptor(
        crypto::aes::KeySize::KeySize256,
        &key,
        &IV,
        crypto::blockmodes::NoPadding,
    );
    let mut reader = RefReadBuffer::new(plaintext);
    let mut writer = RefWriteBuffer::new(&mut ct);
    enc.encrypt(&mut reader, &mut writer, true).unwrap();
    ct
}

fn record_field(t: u16, data: &[u8]) -> Vec<u8> {
    let mut b: Vec<u8> = Vec::new();
    b.extend_from_slice(&t.to_le_bytes());
    b.extend_from_slice(&(data.len() as u32).to_le_bytes());
    b.extend_from_slice(data);
    b
}

#[test]
fn master_key_is_sha256_of_passphrase() {
    let expected: [u8; 32] = [
        186, 120, 22, 191, 143, 1, 207, 234, 65, 65, 64, 222, 93, 174, 34, 35, 176, 3, 97, 163,
        150, 23, 122, 156, 180, 16, 255, 97, 242, 0, 21, 173,
    ];
    assert_eq!(password_to_master_key("abc"), expected.to_vec());
}

#[test]
fn transform_with_zero_rounds_matches_known_digests() {
    // With no stretching the transform is sha256(seed_16 || sha256(master)).
    let master = password_to_master_key("test");
    let expected: [u8; 32] = [
        63, 115, 66, 57, 36, 79, 91, 82, 242, 205, 153, 163, 207, 207, 9, 129, 213, 153, 100, 32,
        65, 31, 152, 69, 207, 29, 100, 189, 197, 228, 124, 236,
    ];
    assert_eq!(transform_master_key(&master, &SEED_16, &SEED_32, 0), expected.to_vec());
}

#[test]
fn key_derivation_is_deterministic_and_input_sensitive() {
    let master = password_to_master_key("hunter2");
    let k1 = transform_master_key(&master, &SEED_16, &SEED_32, 6);
    let k2 = transform_master_key(&master, &SEED_16, &SEED_32, 6);
    assert_eq!(k1, k2);
    // One more round changes the key: the stretch really encrypts.
    let k3 = transform_master_key(&master, &SEED_16, &SEED_32, 7);
    assert_ne!(k1, k3);
    // A single differing seed byte changes the key.
    let mut seed16b = SEED_16;
    seed16b[0] ^= 1;
    assert_ne!(k1, transform_master_key(&master, &seed16b, &SEED_32, 6));
    let mut seed32b = SEED_32;
    seed32b[31] ^= 1;
    assert_ne!(k1, transform_master_key(&master, &SEED_16, &seed32b, 6));
    // A different passphrase changes the key.
    let other = password_to_master_key("hunter3");
    assert_ne!(k1, transform_master_key(&other, &SEED_16, &SEED_32, 6));
}

#[test]
fn encrypted_records_round_trip() {
    let uuid: Vec<u8> = (1..=16).collect();
    let mut plain: Vec<u8> = Vec::new();
    plain.extend_from_slice(&record_field(0x0001, &[42, 0, 0, 0]));
    plain.extend_from_slice(&record_field(0x0002, b"net"));
    plain.extend_from_slice(&record_field(0x0003, &[31, 134, 175, 36, 140]));
    plain.extend_from_slice(&record_field(0xFFFF, &[]));
    plain.extend_from_slice(&record_field(0x0001, &uuid));
    plain.extend_from_slice(&record_field(0x0002, &[42, 0, 0, 0]));
    plain.extend_from_slice(&record_field(0x0004, b"hello\0"));
    plain.extend_from_slice(&record_field(0x0007, b"s3cret\0"));
    plain.extend_from_slice(&record_field(0xFFFF, &[]));
    // Trailing bytes after the declared records are ignored; use them to
    // reach a whole number of cipher blocks.
    while plain.len() % 16 != 0 {
        plain.push(0);
    }
    let body = encrypt_body("letmein", 4, &plain);
    assert_ne!(body, plain);
    let file = build_file(1, 1, 4, &body);
    let parsed = parse_kdb_file(&file, "letmein").unwrap();
    assert_eq!(parsed.groups.len(), 1);
    assert_eq!(parsed.groups[0].group_id, 42);
    assert_eq!(parsed.groups[0].group_name, "net");
    assert_eq!(parsed.groups[0].created, "2017-10-23 18:18:12");
    assert_eq!(parsed.entries.len(), 1);
    assert_eq!(parsed.entries[0].entry_id, uuid);
    assert_eq!(parsed.entries[0].group_id, 42);
    assert_eq!(parsed.entries[0].title, "hello");
    assert_eq!(parsed.entries[0].password, "s3cret");
}

#[test]
fn wrong_passphrase_surfaces_as_malformed_records() {
    let mut plain: Vec<u8> = Vec::new();
    plain.extend_from_slice(&record_field(0xFFFF, &[]));
    while plain.len() % 16 != 0 {
        plain.push(0);
    }
    let body = encrypt_body("right", 4, &plain);
    let file = build_file(1, 0, 4, &body);
    assert!(parse_kdb_file(&file, "right").is_ok());
    // The wrong passphrase decrypts to garbage, and the record layer
    // rejects it; decryption itself reports nothing.
    assert!(parse_kdb_file(&file, "wrong").is_err());
}

#[test]
fn unencrypted_body_does_not_parse() {
    // If decryption handed the ciphertext back unchanged, this body would
    // be a well-formed record stream.
    let mut plain: Vec<u8> = Vec::new();
    plain.extend_from_slice(&record_field(0xFFFF, &[]));
    while plain.len() % 16 != 0 {
        plain.push(0);
    }
    let file = build_file(1, 0, 4, &plain);
    assert!(parse_kdb_file(&file, "pw").is_err());
}

#[test]
fn open_bytes_wraps_parse_and_counts_entries() {
    let db = open_bytes(&build_file(0, 0, 3, &[]), "pw").unwrap();
    assert_eq!(db.get_entry_count(), 0);
    let err = open_bytes(&[0u8; 10], "pw").err().unwrap();
    assert_eq!(
        err.desc,
        "Failed to parse file: Malformed header: fewer bytes than the fixed prefix needs"
    );
}

#[test]
fn small_helpers_answer_plainly() {
    assert_eq!(default_config_file_path(), "mpkdb.toml");
    assert!(Config::default().last_file.is_none());
    assert_eq!(errors::Error::new("boom").description(), "boom");
}
