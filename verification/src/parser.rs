//! The KDB container format: header layout, validation, and the top-level
//! parse that turns file bytes and a passphrase into a structured database.

use vstd::prelude::*;

use vstd::string::StringSliceAdditionalSpecFns;

use crate::crypt::aes256_cbc_decrypt;
use crate::crypt::spec_aes256_cbc_decrypt;
use crate::keys::derive_key;
use crate::keys::spec_derive_key;
use crate::records::read_entry;
use crate::records::read_group;
use crate::records::spec_read_entry;
use crate::records::spec_read_group;
use crate::strutil::push_dec_u64;
use crate::strutil::push_hex_u32;
use crate::strutil::spec_dec_digits;
use crate::strutil::spec_hex_digits;
use crate::tlv::bytes_to_u32;
use crate::tlv::spec_le32;
use vstd::string::StringExecFns;

verus! {

/// First fixed magic word of the format.
pub const PWM_DBSIG_1: u32 = 0x9AA2D903;

/// Second fixed magic word of the format.
pub const PWM_DBSIG_2: u32 = 0xB54BFB65;

/// Flag bit selecting the Rijndael/AES cipher.
pub const PWM_FLAG_RIJNDAEL: u32 = 2;

/// Flag bit selecting the Twofish cipher.
pub const PWM_FLAG_TWOFISH: u32 = 8;

/// Size of the fixed header prefix in the file.
pub const HEADER_SIZE: usize = 124;

/// Upper bound accepted for the key-stretching round count; the count is
/// untrusted input from the file, and an absurdly large value would make the
/// decoder spin for hours instead of failing.
pub const MAX_KEY_ENC_ROUNDS: u32 = 0x0100_0000;

/// A failure of the parse. Every stage returns its error immediately; the
/// whole parse aborts on the first one and no partial database is retained.
#[derive(Clone, Copy, Debug, PartialEq, Eq, Structural)]
pub enum Error {
    /// Reading the underlying bytes failed. Surfaced by the file-reading
    /// caller, never generated by the decoder itself.
    IoFailure,
    /// Fewer bytes were available than the fixed header prefix needs.
    MalformedHeader,
    /// The two signature words did not match the fixed magic constants.
    BadSignature { expected_1: u32, expected_2: u32, actual_1: u32, actual_2: u32 },
    /// The version word's major half is below the oldest supported revision.
    UnsupportedVersion { major: u32, minor: u32 },
    /// The flags word selects neither of the two recognized ciphers.
    UnknownCipher { flags: u32 },
    /// The flags word selects Twofish, which is recognized but not decrypted.
    UnsupportedCipher,
    /// The header asks for more key-stretching rounds than the decoder accepts.
    KeyDerivationTooExpensive { rounds: u32 },
    /// The ciphertext length is not a multiple of the cipher's block size.
    TruncatedCiphertext { length: usize },
    /// The low-level cipher reported a failure.
    DecryptionFailed,
    /// A record field declared more bytes than remain in the stream.
    TruncatedRecord,
    /// A record field carried a type code the format does not define.
    UnknownFieldType { field_type: u16, field_size: u32 },
    /// A fixed-width field (numeric identifier, entry identifier, or a
    /// terminated string) had the wrong byte count.
    InvalidFieldSize { field_type: u16, field_size: u32 },
    /// A packed date-time field was not exactly five bytes.
    InvalidDateTime { field_size: u32 },
}

/// The description each error renders to, character for character.
pub open spec fn spec_describe(e: Error) -> Seq<char> {
    match e {
        Error::IoFailure => "IO error"@,
        Error::MalformedHeader => "Malformed header: fewer bytes than the fixed prefix needs"@,
        Error::BadSignature { expected_1, expected_2, actual_1, actual_2 } => "Invalid file signature: "@
            + spec_hex_digits(actual_1 as int) + " "@ + spec_hex_digits(actual_2 as int)
            + " (expected "@ + spec_hex_digits(expected_1 as int) + " "@ + spec_hex_digits(
            expected_2 as int,
        ) + ")"@,
        Error::UnsupportedVersion { major, minor } => "Unsupported DB version "@ + spec_dec_digits(
            major as int,
        ) + "."@ + spec_dec_digits(minor as int),
        Error::UnknownCipher { flags } => "Unknown encryption algorithm, flags: "@
            + spec_hex_digits(flags as int),
        Error::UnsupportedCipher => "Unsupported cipher: Twofish"@,
        Error::KeyDerivationTooExpensive { rounds } => "Key derivation rounds too large: "@
            + spec_dec_digits(rounds as int),
        Error::TruncatedCiphertext { length } => "Ciphertext length "@ + spec_dec_digits(
            length as int,
        ) + " is not a multiple of the cipher block size"@,
        Error::DecryptionFailed => "Decrypt error"@,
        Error::TruncatedRecord => "Truncated record: fewer bytes remain than declared"@,
        Error::UnknownFieldType { field_type, field_size } => "Unknown field type: "@
            + spec_dec_digits(field_type as int) + " ("@ + spec_hex_digits(field_type as int)
            + ")"@,
        Error::InvalidFieldSize { field_type, field_size } => "Invalid field size for field type "@
            + spec_dec_digits(field_type as int) + ": "@ + spec_dec_digits(field_size as int),
        Error::InvalidDateTime { field_size } => "Failed to parse date-time: expected 5 bytes, got "@
            + spec_dec_digits(field_size as int),
    }
}

impl Error {
    /// Render the error as a human-readable description.
    pub fn describe(&self) -> (r: String)
        ensures
            r@ == spec_describe(*self),
    {
        let mut s = String::new();
        match *self {
            Error::IoFailure => {
                s.append("IO error");
            },
            Error::MalformedHeader => {
                s.append("Malformed header: fewer bytes than the fixed prefix needs");
            },
            Error::BadSignature { expected_1, expected_2, actual_1, actual_2 } => {
                s.append("Invalid file signature: ");
                push_hex_u32(&mut s, actual_1);
                s.append(" ");
                push_hex_u32(&mut s, actual_2);
                s.append(" (expected ");
                push_hex_u32(&mut s, expected_1);
                s.append(" ");
                push_hex_u32(&mut s, expected_2);
                s.append(")");
            },
            Error::UnsupportedVersion { major, minor } => {
                s.append("Unsupported DB version ");
                push_dec_u64(&mut s, major as u64);
                s.append(".");
                push_dec_u64(&mut s, minor as u64);
            },
            Error::UnknownCipher { flags } => {
                s.append("Unknown encryption algorithm, flags: ");
                push_hex_u32(&mut s, flags);
            },
            Error::UnsupportedCipher => {
                s.append("Unsupported cipher: Twofish");
            },
            Error::KeyDerivationTooExpensive { rounds } => {
                s.append("Key derivation rounds too large: ");
                push_dec_u64(&mut s, rounds as u64);
            },
            Error::TruncatedCiphertext { length } => {
                s.append("Ciphertext length ");
                push_dec_u64(&mut s, length as u64);
                s.append(" is not a multiple of the cipher block size");
            },
            Error::DecryptionFailed => {
                s.append("Decrypt error");
            },
            Error::TruncatedRecord => {
                s.append("Truncated record: fewer bytes remain than declared");
            },
            Error::UnknownFieldType { field_type, field_size: _ } => {
                s.append("Unknown field type: ");
                push_dec_u64(&mut s, field_type as u64);
                s.append(" (");
                push_hex_u32(&mut s, field_type as u32);
                s.append(")");
            },
            Error::InvalidFieldSize { field_type, field_size } => {
                s.append("Invalid field size for field type ");
                push_dec_u64(&mut s, field_type as u64);
                s.append(": ");
                push_dec_u64(&mut s, field_size as u64);
            },
            Error::InvalidDateTime { field_size } => {
                s.append("Failed to parse date-time: expected 5 bytes, got ");
                push_dec_u64(&mut s, field_size as u64);
            },
        }
        proof {
            assert(s@ =~= spec_describe(*self));
        }
        s
    }
}

/// KDB password file header: the fixed 124-byte prefix, decoded.
/// Immutable once parsed; its counts drive the record loop exactly.
#[derive(Debug)]
pub struct KdbHeader {
    pub signature_1: u32,
    pub signature_2: u32,
    pub flags: u32,
    pub version: u32,
    pub master_seed: Vec<u8>,
    pub enc_iv: Vec<u8>,
    pub group_count: u32,
    pub entry_count: u32,
    /// Hash of the encrypted file contents; carried but not yet checked.
    pub contents_hash: Vec<u8>,
    /// Used to transform the passphrase into the decryption key.
    pub master_seed_2: Vec<u8>,
    pub key_enc_rounds: u32,
}

/// Mathematical image of a header: byte fields as sequences.
#[verifier::ext_equal]
pub struct KdbHeaderView {
    pub signature_1: u32,
    pub signature_2: u32,
    pub flags: u32,
    pub version: u32,
    pub master_seed: Seq<u8>,
    pub enc_iv: Seq<u8>,
    pub group_count: u32,
    pub entry_count: u32,
    pub contents_hash: Seq<u8>,
    pub master_seed_2: Seq<u8>,
    pub key_enc_rounds: u32,
}

impl View for KdbHeader {
    type V = KdbHeaderView;

    open spec fn view(&self) -> KdbHeaderView {
        KdbHeaderView {
            signature_1: self.signature_1,
            signature_2: self.signature_2,
            flags: self.flags,
            version: self.version,
            master_seed: self.master_seed@,
            enc_iv: self.enc_iv@,
            group_count: self.group_count,
            entry_count: self.entry_count,
            contents_hash: self.contents_hash@,
            master_seed_2: self.master_seed_2@,
            key_enc_rounds: self.key_enc_rounds,
        }
    }
}

impl KdbHeader {
    /// The byte fields have the widths the fixed layout gives them.
    pub open spec fn wf(self) -> bool {
        &&& self.master_seed@.len() == 16
        &&& self.enc_iv@.len() == 16
        &&& self.contents_hash@.len() == 32
        &&& self.master_seed_2@.len() == 32
    }
}

/// One group record: numeric identifier, display name, four timestamps.
#[derive(Debug)]
pub struct KdbGroup {
    pub group_id: u32,
    pub group_name: String,
    /// Format: 2017-10-23 00:21:00
    pub created: String,
    pub modified: String,
    pub accessed: String,
    pub expires: String,
}

/// Mathematical image of a group record.
#[verifier::ext_equal]
pub struct KdbGroupView {
    pub group_id: u32,
    pub group_name: Seq<char>,
    pub created: Seq<char>,
    pub modified: Seq<char>,
    pub accessed: Seq<char>,
    pub expires: Seq<char>,
}

impl View for KdbGroup {
    type V = KdbGroupView;

    open spec fn view(&self) -> KdbGroupView {
        KdbGroupView {
            group_id: self.group_id,
            group_name: self.group_name@,
            created: self.created@,
            modified: self.modified@,
            accessed: self.accessed@,
            expires: self.expires@,
        }
    }
}

/// One entry record. The group identifier is a weak reference: a plain value
/// with no claim that the referenced group exists.
#[derive(Debug)]
pub struct KdbEntry {
    /// 16-byte UUID-shaped identifier.
    pub entry_id: Vec<u8>,
    pub group_id: u32,
    pub title: String,
    pub url: String,
    pub username: String,
    pub password: String,
    pub notes: String,
    pub created: String,
    pub modified: String,
    pub accessed: String,
    pub expires: String,
}

/// Mathematical image of an entry record.
#[verifier::ext_equal]
pub struct KdbEntryView {
    pub entry_id: Seq<u8>,
    pub group_id: u32,
    pub title: Seq<char>,
    pub url: Seq<char>,
    pub username: Seq<char>,
    pub password: Seq<char>,
    pub notes: Seq<char>,
    pub created: Seq<char>,
    pub modified: Seq<char>,
    pub accessed: Seq<char>,
    pub expires: Seq<char>,
}

impl View for KdbEntry {
    type V = KdbEntryView;

    open spec fn view(&self) -> KdbEntryView {
        KdbEntryView {
            entry_id: self.entry_id@,
            group_id: self.group_id,
            title: self.title@,
            url: self.url@,
            username: self.username@,
            password: self.password@,
            notes: self.notes@,
            created: self.created@,
            modified: self.modified@,
            accessed: self.accessed@,
            expires: self.expires@,
        }
    }
}

impl KdbEntry {
    /// The identifier always holds exactly 16 bytes.
    pub open spec fn wf(self) -> bool {
        self.entry_id@.len() == 16
    }
}

/// A fully parsed file: the header and, in file order, its groups and
/// entries. Constructed whole on success, never partially.
#[derive(Debug)]
pub struct KdbFile {
    pub header: KdbHeader,
    pub groups: Vec<KdbGroup>,
    pub entries: Vec<KdbEntry>,
}

/// Mathematical image of a parsed file.
#[verifier::ext_equal]
pub struct KdbFileView {
    pub header: KdbHeaderView,
    pub groups: Seq<KdbGroupView>,
    pub entries: Seq<KdbEntryView>,
}

impl View for KdbFile {
    type V = KdbFileView;

    open spec fn view(&self) -> KdbFileView {
        KdbFileView {
            header: self.header@,
            groups: self.groups@.map_values(|g: KdbGroup| g@),
            entries: self.entries@.map_values(|e: KdbEntry| e@),
        }
    }
}

impl KdbFile {
    /// The header's widths hold, the record counts match the header's
    /// declared counts exactly, and every entry identifier is 16 bytes.
    pub open spec fn wf(self) -> bool {
        &&& self.header.wf()
        &&& self.groups@.len() == self.header.group_count
        &&& self.entries@.len() == self.header.entry_count
        &&& (forall|i: int| 0 <= i < self.entries@.len() ==> (#[trigger] self.entries@[i]).wf())
    }
}

/// The header held by the first 124 bytes: four little-endian words, the
/// 16-byte seed, the 16-byte IV, two little-endian counts, the 32-byte
/// content hash, the 32-byte second seed, and the round count.
pub open spec fn spec_header_of(b: Seq<u8>) -> KdbHeaderView
    recommends
        b.len() >= 124,
{
    KdbHeaderView {
        signature_1: spec_le32(b.subrange(0, 4)),
        signature_2: spec_le32(b.subrange(4, 8)),
        flags: spec_le32(b.subrange(8, 12)),
        version: spec_le32(b.subrange(12, 16)),
        master_seed: b.subrange(16, 32),
        enc_iv: b.subrange(32, 48),
        group_count: spec_le32(b.subrange(48, 52)),
        entry_count: spec_le32(b.subrange(52, 56)),
        contents_hash: b.subrange(56, 88),
        master_seed_2: b.subrange(88, 120),
        key_enc_rounds: spec_le32(b.subrange(120, 124)),
    }
}

/// Decode the fixed header prefix; fails with `MalformedHeader` when fewer
/// than 124 bytes are available. No validation happens here.
pub fn kdb_header(bytes: &[u8]) -> (r: Result<KdbHeader, Error>)
    ensures
        bytes@.len() < 124 ==> r == Err::<KdbHeader, Error>(Error::MalformedHeader),
        bytes@.len() >= 124 ==> ({
            &&& r matches Ok(h)
            &&& h@ == spec_header_of(bytes@)
            &&& h.wf()
        }),
{
    if bytes.len() < HEADER_SIZE {
        return Err(Error::MalformedHeader);
    }
    let h = KdbHeader {
        signature_1: bytes_to_u32(vstd::slice::slice_subrange(bytes, 0, 4)),
        signature_2: bytes_to_u32(vstd::slice::slice_subrange(bytes, 4, 8)),
        flags: bytes_to_u32(vstd::slice::slice_subrange(bytes, 8, 12)),
        version: bytes_to_u32(vstd::slice::slice_subrange(bytes, 12, 16)),
        master_seed: vstd::slice::slice_to_vec(vstd::slice::slice_subrange(bytes, 16, 32)),
        enc_iv: vstd::slice::slice_to_vec(vstd::slice::slice_subrange(bytes, 32, 48)),
        group_count: bytes_to_u32(vstd::slice::slice_subrange(bytes, 48, 52)),
        entry_count: bytes_to_u32(vstd::slice::slice_subrange(bytes, 52, 56)),
        contents_hash: vstd::slice::slice_to_vec(vstd::slice::slice_subrange(bytes, 56, 88)),
        master_seed_2: vstd::slice::slice_to_vec(vstd::slice::slice_subrange(bytes, 88, 120)),
        key_enc_rounds: bytes_to_u32(vstd::slice::slice_subrange(bytes, 120, 124)),
    };
    proof {
        assert(h@ =~= spec_header_of(bytes@));
    }
    Ok(h)
}

/// Exactly `n` group records read back to back from `pos`.
pub open spec fn spec_read_groups(b: Seq<u8>, pos: int, n: nat) -> Result<
    (Seq<KdbGroupView>, int),
    Error,
>
    decreases n,
{
    if n == 0 {
        Ok((Seq::empty(), pos))
    } else {
        match spec_read_group(b, pos) {
            Ok(g) => match spec_read_groups(b, g.1, (n - 1) as nat) {
                Ok(rest) => Ok((seq![g.0] + rest.0, rest.1)),
                Err(e) => Err(e),
            },
            Err(e) => Err(e),
        }
    }
}

/// Exactly `n` entry records read back to back from `pos`.
pub open spec fn spec_read_entries(b: Seq<u8>, pos: int, n: nat) -> Result<
    (Seq<KdbEntryView>, int),
    Error,
>
    decreases n,
{
    if n == 0 {
        Ok((Seq::empty(), pos))
    } else {
        match spec_read_entry(b, pos) {
            Ok(en) => match spec_read_entries(b, en.1, (n - 1) as nat) {
                Ok(rest) => Ok((seq![en.0] + rest.0, rest.1)),
                Err(e) => Err(e),
            },
            Err(e) => Err(e),
        }
    }
}

/// The whole pipeline as a function of the file bytes and the passphrase's
/// UTF-8 bytes: header decode, fail-fast validation, key derivation, body
/// decryption, then exactly `group_count` groups followed by exactly
/// `entry_count` entries. Trailing plaintext after the declared records is
/// ignored.
pub open spec fn spec_parse_kdb(b: Seq<u8>, pass_bytes: Seq<u8>) -> Result<KdbFileView, Error> {
    if b.len() < 124 {
        Err(Error::MalformedHeader)
    } else {
        let h = spec_header_of(b);
        if h.signature_1 != PWM_DBSIG_1 || h.signature_2 != PWM_DBSIG_2 {
            Err(Error::BadSignature {
                expected_1: PWM_DBSIG_1,
                expected_2: PWM_DBSIG_2,
                actual_1: h.signature_1,
                actual_2: h.signature_2,
            })
        } else if h.version >> 16 < 3 {
            Err(Error::UnsupportedVersion { major: h.version >> 16, minor: h.version & 0xFFFF })
        } else if h.flags & PWM_FLAG_RIJNDAEL == 0 && h.flags & PWM_FLAG_TWOFISH == 0 {
            Err(Error::UnknownCipher { flags: h.flags })
        } else if h.key_enc_rounds > MAX_KEY_ENC_ROUNDS {
            Err(Error::KeyDerivationTooExpensive { rounds: h.key_enc_rounds })
        } else if h.flags & PWM_FLAG_RIJNDAEL == 0 {
            Err(Error::UnsupportedCipher)
        } else if (b.len() - 124) % 16 != 0 {
            Err(Error::TruncatedCiphertext { length: (b.len() - 124) as usize })
        } else {
            let key = spec_derive_key(pass_bytes, h.master_seed, h.master_seed_2,
                h.key_enc_rounds as nat);
            let plain = spec_aes256_cbc_decrypt(key, h.enc_iv, b.subrange(124, b.len() as int));
            match spec_read_groups(plain, 0, h.group_count as nat) {
                Ok(gs) => match spec_read_entries(plain, gs.1, h.entry_count as nat) {
                    Ok(es) => Ok(KdbFileView { header: h, groups: gs.0, entries: es.0 }),
                    Err(e) => Err(e),
                },
                Err(e) => Err(e),
            }
        }
    }
}

/// Parse a KDB file: bytes and passphrase in, database or first error out.
///
/// The contract pins the result to `spec_parse_kdb` exactly; the named
/// clauses after it state the header-stage behavior on their own: a short
/// input fails as malformed whatever it holds, a wrong signature fails as
/// such regardless of any other field, an old version fails even under a
/// valid signature, and a flags word naming no cipher fails before any
/// decryption work.
#[verifier::loop_isolation(false)]
pub fn parse_kdb_file(bytes: &[u8], password: &str) -> (r: Result<KdbFile, Error>)
    ensures
        match r {
            Ok(f) => ({
                &&& spec_parse_kdb(bytes@, password.spec_bytes()) == Ok::<KdbFileView, Error>(f@)
                &&& f.wf()
            }),
            Err(e) => spec_parse_kdb(bytes@, password.spec_bytes()) == Err::<KdbFileView, Error>(e),
        },
        bytes@.len() < 124 ==> r == Err::<KdbFile, Error>(Error::MalformedHeader),
        bytes@.len() >= 124 && (spec_header_of(bytes@).signature_1 != PWM_DBSIG_1 || spec_header_of(
            bytes@,
        ).signature_2 != PWM_DBSIG_2) ==> r == Err::<KdbFile, Error>(Error::BadSignature {
            expected_1: PWM_DBSIG_1,
            expected_2: PWM_DBSIG_2,
            actual_1: spec_header_of(bytes@).signature_1,
            actual_2: spec_header_of(bytes@).signature_2,
        }),
        bytes@.len() >= 124 && spec_header_of(bytes@).signature_1 == PWM_DBSIG_1 && spec_header_of(
            bytes@,
        ).signature_2 == PWM_DBSIG_2 && spec_header_of(bytes@).version >> 16 < 3 ==> r == Err::<
            KdbFile,
            Error,
        >(Error::UnsupportedVersion {
            major: spec_header_of(bytes@).version >> 16,
            minor: spec_header_of(bytes@).version & 0xFFFF,
        }),
        bytes@.len() >= 124 && spec_header_of(bytes@).signature_1 == PWM_DBSIG_1 && spec_header_of(
            bytes@,
        ).signature_2 == PWM_DBSIG_2 && spec_header_of(bytes@).version >> 16 >= 3 && spec_header_of(
            bytes@,
        ).flags & PWM_FLAG_RIJNDAEL == 0 && spec_header_of(bytes@).flags & PWM_FLAG_TWOFISH == 0
            ==> r == Err::<KdbFile, Error>(Error::UnknownCipher {
            flags: spec_header_of(bytes@).flags,
        }),
{
    let header = match kdb_header(bytes) {
        Ok(h) => h,
        Err(e) => {
            return Err(e);
        },
    };
    if header.signature_1 != PWM_DBSIG_1 || header.signature_2 != PWM_DBSIG_2 {
        return Err(Error::BadSignature {
            expected_1: PWM_DBSIG_1,
            expected_2: PWM_DBSIG_2,
            actual_1: header.signature_1,
            actual_2: header.signature_2,
        });
    }
    let file_ver_major = header.version >> 16;
    let file_ver_minor = header.version & 0x0000FFFF;
    if file_ver_major < 3 {
        return Err(Error::UnsupportedVersion { major: file_ver_major, minor: file_ver_minor });
    }
    let aes = header.flags & PWM_FLAG_RIJNDAEL != 0;
    let twofish = header.flags & PWM_FLAG_TWOFISH != 0;
    if !aes && !twofish {
        return Err(Error::UnknownCipher { flags: header.flags });
    }
    if header.key_enc_rounds > MAX_KEY_ENC_ROUNDS {
        return Err(Error::KeyDerivationTooExpensive { rounds: header.key_enc_rounds });
    }
    if !aes {
        return Err(Error::UnsupportedCipher);
    }
    let body_len = bytes.len() - HEADER_SIZE;
    if body_len % 16 != 0 {
        return Err(Error::TruncatedCiphertext { length: body_len });
    }
    let key = derive_key(
        password,
        header.master_seed.as_slice(),
        header.master_seed_2.as_slice(),
        header.key_enc_rounds,
    );
    let ciphertext = vstd::slice::slice_subrange(bytes, HEADER_SIZE, bytes.len());
    let plaintext = aes256_cbc_decrypt(key.as_slice(), header.enc_iv.as_slice(), ciphertext);
    let ghost plain = plaintext@;
    let mut pos: usize = 0;
    let mut groups: Vec<KdbGroup> = Vec::new();
    let mut i: u32 = 0;
    while i < header.group_count
        invariant
            pos <= plain.len(),
            i <= header.group_count,
            groups@.len() == i,
            plain == plaintext@,
            spec_read_groups(plain, 0, header.group_count as nat) == match spec_read_groups(
                plain,
                pos as int,
                (header.group_count - i) as nat,
            ) {
                Ok(rest) => Ok::<(Seq<KdbGroupView>, int), Error>(
                    (groups@.map_values(|g: KdbGroup| g@) + rest.0, rest.1),
                ),
                Err(e) => Err::<(Seq<KdbGroupView>, int), Error>(e),
            },
        decreases header.group_count - i,
    {
        let ghost gviews0 = groups@.map_values(|g: KdbGroup| g@);
        let g = match read_group(plaintext.as_slice(), &mut pos) {
            Ok(g) => g,
            Err(e) => {
                return Err(e);
            },
        };
        groups.push(g);
        i = i + 1;
        proof {
            let gviews1 = groups@.map_values(|g: KdbGroup| g@);
            assert(gviews1 =~= gviews0 + seq![g@]);
            match spec_read_groups(plain, pos as int, (header.group_count - i) as nat) {
                Ok(rest) => {
                    assert(gviews1 + rest.0 =~= gviews0 + (seq![g@] + rest.0));
                },
                Err(e) => {},
            }
        }
    }
    let mut entries: Vec<KdbEntry> = Vec::new();
    let mut j: u32 = 0;
    while j < header.entry_count
        invariant
            pos <= plain.len(),
            j <= header.entry_count,
            entries@.len() == j,
            plain == plaintext@,
            forall|k: int| 0 <= k < entries@.len() ==> (#[trigger] entries@[k]).wf(),
            spec_read_groups(plain, 0, header.group_count as nat) matches Ok(gs) && gs.0
                == groups@.map_values(|g: KdbGroup| g@),
            spec_read_entries(
                plain,
                (spec_read_groups(plain, 0, header.group_count as nat)->Ok_0).1,
                header.entry_count as nat,
            ) == match spec_read_entries(
                plain,
                pos as int,
                (header.entry_count - j) as nat,
            ) {
                Ok(rest) => Ok::<(Seq<KdbEntryView>, int), Error>(
                    (entries@.map_values(|e: KdbEntry| e@) + rest.0, rest.1),
                ),
                Err(e) => Err::<(Seq<KdbEntryView>, int), Error>(e),
            },
        decreases header.entry_count - j,
    {
        let ghost eviews0 = entries@.map_values(|e: KdbEntry| e@);
        let en = match read_entry(plaintext.as_slice(), &mut pos) {
            Ok(en) => en,
            Err(e) => {
                return Err(e);
            },
        };
        entries.push(en);
        j = j + 1;
        proof {
            let eviews1 = entries@.map_values(|e: KdbEntry| e@);
            assert(eviews1 =~= eviews0 + seq![en@]);
            match spec_read_entries(plain, pos as int, (header.entry_count - j) as nat) {
                Ok(rest) => {
                    assert(eviews1 + rest.0 =~= eviews0 + (seq![en@] + rest.0));
                },
                Err(e) => {},
            }
        }
    }
    let f = KdbFile { header, groups, entries };
    proof {
        let gs = spec_read_groups(plain, 0, f.header.group_count as nat)->Ok_0;
        let es = spec_read_entries(plain, gs.1, f.header.entry_count as nat)->Ok_0;
        assert(f@.groups =~= gs.0);
        assert(f@.entries =~= es.0);
        assert(f@ =~= KdbFileView { header: spec_header_of(bytes@), groups: gs.0, entries: es.0 });
    }
    Ok(f)
}

} // verus!
