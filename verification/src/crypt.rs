//! Trusted boundary to the outside cryptography: the SHA-256 digest and the
//! AES-256 primitives that key stretching and body decryption rest on. Each
//! function here makes one outside call; everything around them is verified.

use vstd::prelude::*;

use crypto::digest::Digest;
use crypto::symmetriccipher::Decryptor;
use crypto::symmetriccipher::Encryptor;

verus! {

/// The SHA-256 digest of a byte sequence: a function of the bytes alone.
pub uninterp spec fn spec_sha256(data: Seq<u8>) -> Seq<u8>;

/// AES-256 applied to one 16-byte block under a 32-byte key: a function of
/// key and block alone.
pub uninterp spec fn spec_aes256_encrypt_block(key: Seq<u8>, block: Seq<u8>) -> Seq<u8>;

/// AES-256 cipher-block-chaining decryption of a whole-block ciphertext
/// under a 32-byte key and 16-byte initialization vector: a function of the
/// three arguments alone. No padding is stripped.
pub uninterp spec fn spec_aes256_cbc_decrypt(key: Seq<u8>, iv: Seq<u8>, ct: Seq<u8>) -> Seq<u8>;

/// Relies on crypto's `sha2::Sha256` (`Digest::input` / `Digest::result`):
/// the 32-byte digest of the input bytes.
#[verifier::external_body]
pub(crate) fn sha256(data: &[u8]) -> (r: Vec<u8>)
    ensures
        r@ == spec_sha256(data@),
        r@.len() == 32,
{
    let mut sha = crypto::sha2::Sha256::new();
    sha.input(data);
    let mut rb: [u8; 32] = [0; 32];
    sha.result(&mut rb);
    rb.to_vec()
}

/// Relies on crypto's `aes::ecb_encryptor` with `NoPadding`: one block
/// encrypted under a 256-bit key. With exactly one full block in and no
/// padding the call writes 16 bytes and cannot fail.
#[verifier::external_body]
pub(crate) fn aes256_encrypt_block(key: &[u8], block: &[u8]) -> (r: Vec<u8>)
    requires
        key@.len() == 32,
        block@.len() == 16,
    ensures
        r@ == spec_aes256_encrypt_block(key@, block@),
        r@.len() == 16,
{
    let mut out: [u8; 16] = [0; 16];
    {
        let mut reader = crypto::buffer::RefReadBuffer::new(block);
        let mut writer = crypto::buffer::RefWriteBuffer::new(&mut out);
        let mut enc = crypto::aes::ecb_encryptor(
            crypto::aes::KeySize::KeySize256,
            key,
            crypto::blockmodes::NoPadding,
        );
        enc.encrypt(&mut reader, &mut writer, true).unwrap();
    }
    out.to_vec()
}

/// Relies on crypto's `aes::cbc_decryptor` with `NoPadding`: the ciphertext
/// decrypted block by block, as many bytes out as in. With a whole number of
/// blocks and no padding the call cannot fail.
#[verifier::external_body]
pub(crate) fn aes256_cbc_decrypt(key: &[u8], iv: &[u8], ct: &[u8]) -> (r: Vec<u8>)
    requires
        key@.len() == 32,
        iv@.len() == 16,
        ct@.len() % 16 == 0,
    ensures
        r@ == spec_aes256_cbc_decrypt(key@, iv@, ct@),
        r@.len() == ct@.len(),
{
    let mut out: Vec<u8> = vec![0; ct.len()];
    {
        let mut reader = crypto::buffer::RefReadBuffer::new(ct);
        let mut writer = crypto::buffer::RefWriteBuffer::new(&mut out);
        let mut dec = crypto::aes::cbc_decryptor(
            crypto::aes::KeySize::KeySize256,
            key,
            iv,
            crypto::blockmodes::NoPadding,
        );
        dec.decrypt(&mut reader, &mut writer, true).unwrap();
    }
    out
}

} // verus!
