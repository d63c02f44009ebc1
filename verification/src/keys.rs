//! Key derivation: a passphrase is hashed once, both halves of the digest
//! are stretched through repeated single-block encryption under the file's
//! 32-byte seed, and the result is hashed twice more, the second time behind
//! the file's 16-byte seed. Bit-for-bit compatibility with the container
//! format hangs on this exact order.

use vstd::prelude::*;

use vstd::string::StringSliceAdditionalSpecFns;

use crate::crypt::aes256_encrypt_block;
use crate::crypt::sha256;
use crate::crypt::spec_aes256_encrypt_block;
use crate::crypt::spec_sha256;

verus! {

/// `rounds` iterations of single-block AES-256 under `key`, starting from
/// `half`; each iteration re-encrypts the previous iteration's output.
pub open spec fn spec_stretch(half: Seq<u8>, key: Seq<u8>, rounds: nat) -> Seq<u8>
    decreases rounds,
{
    if rounds == 0 {
        half
    } else {
        spec_aes256_encrypt_block(key, spec_stretch(half, key, (rounds - 1) as nat))
    }
}

/// The transformed master key: both 16-byte halves of the 32-byte master key
/// stretched independently for `rounds` iterations under `seed_32`,
/// concatenated, hashed, and hashed once more behind `seed_16`.
pub open spec fn spec_transform_master_key(
    master: Seq<u8>,
    seed_16: Seq<u8>,
    seed_32: Seq<u8>,
    rounds: nat,
) -> Seq<u8> {
    spec_sha256(
        seed_16 + spec_sha256(
            spec_stretch(master.subrange(0, 16), seed_32, rounds) + spec_stretch(
                master.subrange(16, 32),
                seed_32,
                rounds,
            ),
        ),
    )
}

/// The final decryption key for a passphrase: its UTF-8 bytes hashed to the
/// master key, then transformed under the header's seeds and round count.
pub open spec fn spec_derive_key(
    pass_bytes: Seq<u8>,
    seed_16: Seq<u8>,
    seed_32: Seq<u8>,
    rounds: nat,
) -> Seq<u8> {
    spec_transform_master_key(spec_sha256(pass_bytes), seed_16, seed_32, rounds)
}

/// Key derivation is deterministic: the derived key is a function of the
/// passphrase bytes, the two seeds and the round count, and of nothing
/// else, so equal inputs always yield the equal key.
pub proof fn lemma_derive_key_deterministic(
    pass_a: Seq<u8>,
    seed_16_a: Seq<u8>,
    seed_32_a: Seq<u8>,
    rounds_a: nat,
    pass_b: Seq<u8>,
    seed_16_b: Seq<u8>,
    seed_32_b: Seq<u8>,
    rounds_b: nat,
)
    requires
        pass_a == pass_b,
        seed_16_a == seed_16_b,
        seed_32_a == seed_32_b,
        rounds_a == rounds_b,
    ensures
        spec_derive_key(pass_a, seed_16_a, seed_32_a, rounds_a) == spec_derive_key(
            pass_b,
            seed_16_b,
            seed_32_b,
            rounds_b,
        ),
{
}

/// Hash the passphrase's UTF-8 bytes once to the 32-byte master key.
pub fn password_to_master_key(password: &str) -> (r: Vec<u8>)
    ensures
        r@ == spec_sha256(password.spec_bytes()),
        r@.len() == 32,
{
    sha256(password.as_bytes())
}

/// One half of the master key run through the key-stretching rounds.
fn stretch_half(half: &[u8], key: &[u8], rounds: u32) -> (r: Vec<u8>)
    requires
        half@.len() == 16,
        key@.len() == 32,
    ensures
        r@ == spec_stretch(half@, key@, rounds as nat),
        r@.len() == 16,
{
    let mut block: Vec<u8> = vstd::slice::slice_to_vec(half);
    let mut i: u32 = 0;
    while i < rounds
        invariant
            i <= rounds,
            key@.len() == 32,
            block@.len() == 16,
            block@ == spec_stretch(half@, key@, i as nat),
        decreases rounds - i,
    {
        block = aes256_encrypt_block(key, block.as_slice());
        i = i + 1;
        proof {
            assert(spec_stretch(half@, key@, i as nat) == spec_aes256_encrypt_block(
                key@,
                spec_stretch(half@, key@, (i - 1) as nat),
            ));
        }
    }
    block
}

/// Transform the master key with the two seeds loaded from the file and the
/// configured round count. Deterministic: the result is a function of the
/// four arguments and nothing else.
pub fn transform_master_key(
    master_key: &[u8],
    master_seed: &[u8],
    master_seed_2: &[u8],
    key_enc_rounds: u32,
) -> (r: Vec<u8>)
    requires
        master_key@.len() == 32,
        master_seed@.len() == 16,
        master_seed_2@.len() == 32,
    ensures
        r@ == spec_transform_master_key(
            master_key@,
            master_seed@,
            master_seed_2@,
            key_enc_rounds as nat,
        ),
        r@.len() == 32,
{
    let left = stretch_half(
        vstd::slice::slice_subrange(master_key, 0, 16),
        master_seed_2,
        key_enc_rounds,
    );
    let right = stretch_half(
        vstd::slice::slice_subrange(master_key, 16, 32),
        master_seed_2,
        key_enc_rounds,
    );
    let mut combined: Vec<u8> = Vec::new();
    combined.extend_from_slice(left.as_slice());
    combined.extend_from_slice(right.as_slice());
    let hashed = sha256(combined.as_slice());
    let mut seeded: Vec<u8> = Vec::new();
    seeded.extend_from_slice(master_seed);
    seeded.extend_from_slice(hashed.as_slice());
    proof {
        assert(combined@ =~= spec_stretch(master_key@.subrange(0, 16), master_seed_2@,
            key_enc_rounds as nat) + spec_stretch(master_key@.subrange(16, 32), master_seed_2@,
            key_enc_rounds as nat));
        assert(seeded@ =~= master_seed@ + spec_sha256(combined@));
    }
    sha256(seeded.as_slice())
}

/// Derive the final decryption key for a passphrase and a header's seeds.
pub fn derive_key(
    password: &str,
    master_seed: &[u8],
    master_seed_2: &[u8],
    key_enc_rounds: u32,
) -> (r: Vec<u8>)
    requires
        master_seed@.len() == 16,
        master_seed_2@.len() == 32,
    ensures
        r@ == spec_derive_key(
            password.spec_bytes(),
            master_seed@,
            master_seed_2@,
            key_enc_rounds as nat,
        ),
        r@.len() == 32,
{
    let master_key = password_to_master_key(password);
    transform_master_key(master_key.as_slice(), master_seed, master_seed_2, key_enc_rounds)
}

} // verus!
