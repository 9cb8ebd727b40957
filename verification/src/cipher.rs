//! Encrypted image copies: AES-256-GCM under a key derived from the user's
//! passphrase.
//!
//! The key is the SHA-256 digest of the passphrase's UTF-8 bytes. The nonce
//! is synthetic: the first 12 bytes of the SHA-256 digest of the key followed
//! by the plaintext, so two different images share a nonce under one key only
//! if those 12 bytes of their digests collide, which is unlikely but not
//! impossible. Encryption is deterministic: the same image under the same
//! passphrase always gives the same encrypted file, so equal copies can be
//! told apart from unequal ones. An encrypted copy is the nonce followed by
//! the AES-256-GCM output (ciphertext and 16-byte tag).
use vstd::prelude::*;
use aes_gcm::aead::generic_array::GenericArray;
use aes_gcm::aead::{Aead, KeyInit};
use crate::digest::{sha256, sha256_digest};

verus! {

/// AES-256-GCM encryption, without associated data, of `plaintext` under a
/// 32-byte key and a 12-byte nonce: the ciphertext followed by the tag.
pub uninterp spec fn aes256gcm_seal(key: Seq<u8>, nonce: Seq<u8>, plaintext: Seq<u8>) -> Seq<u8>;

/// AES-256-GCM decryption, without associated data: the plaintext when the
/// tag checks out, `None` otherwise.
pub uninterp spec fn aes256gcm_open(key: Seq<u8>, nonce: Seq<u8>, sealed: Seq<u8>) -> Option<Seq<u8>>;

/// The longest plaintext AES-GCM accepts: 2^36 bytes.
pub open spec fn max_plaintext_len() -> int {
    0x10_0000_0000
}

/// The view of an optional byte vector.
pub open spec fn opt_bytes(v: Option<Vec<u8>>) -> Option<Seq<u8>> {
    match v {
        Some(b) => Some(b@),
        None => None,
    }
}

/// Encrypts with AES-256-GCM.
///
/// Trusted: calls `aes_gcm::Aes256Gcm::new` and `Aead::encrypt`. The `aead`
/// and `aes-gcm` sources return the ciphertext exactly when the plaintext is
/// at most 2^36 bytes (`P_MAX`), with no associated data; the claim is that
/// the result is `aes256gcm_seal` of the arguments and that decrypting it
/// under the same key and nonce gives back the plaintext, which AEAD
/// decryption promises.
#[verifier::external_body]
fn seal(key: &[u8], nonce: &[u8], plaintext: &[u8]) -> (res: Option<Vec<u8>>)
    requires
        key@.len() == 32,
        nonce@.len() == 12,
    ensures
        res is Some <==> plaintext@.len() <= max_plaintext_len(),
        res matches Some(c) ==> c@ == aes256gcm_seal(key@, nonce@, plaintext@),
        res matches Some(c) ==> aes256gcm_open(key@, nonce@, c@) == Some(plaintext@),
{
    aes_gcm::Aes256Gcm::new(GenericArray::from_slice(key)).encrypt(GenericArray::from_slice(nonce), plaintext).ok()
}

/// Decrypts with AES-256-GCM.
///
/// Trusted: calls `aes_gcm::Aes256Gcm::new` and `Aead::decrypt`; the claim is
/// that the result is `aes256gcm_open` of the arguments.
#[verifier::external_body]
fn open(key: &[u8], nonce: &[u8], sealed: &[u8]) -> (res: Option<Vec<u8>>)
    requires
        key@.len() == 32,
        nonce@.len() == 12,
    ensures
        opt_bytes(res) == aes256gcm_open(key@, nonce@, sealed@),
{
    aes_gcm::Aes256Gcm::new(GenericArray::from_slice(key)).decrypt(GenericArray::from_slice(nonce), sealed).ok()
}

/// The 32-byte key derived from a passphrase.
pub open spec fn image_key(passphrase: Seq<char>) -> Seq<u8> {
    sha256_digest(vstd::utf8::encode_utf8(passphrase))
}

/// The nonce for a plaintext under a key.
pub open spec fn image_nonce(key: Seq<u8>, plaintext: Seq<u8>) -> Seq<u8> {
    sha256_digest(key + plaintext).subrange(0, 12)
}

/// The encrypted copy of `plaintext` under `passphrase`: nonce, then
/// ciphertext and tag.
pub open spec fn encrypted_image_spec(plaintext: Seq<u8>, passphrase: Seq<char>) -> Seq<u8> {
    let k = image_key(passphrase);
    let n = image_nonce(k, plaintext);
    n + aes256gcm_seal(k, n, plaintext)
}

/// What decrypting a file under `passphrase` gives: `None` for a file shorter
/// than a nonce or whose tag does not check out.
pub open spec fn decrypted_image_spec(file: Seq<u8>, passphrase: Seq<char>) -> Option<Seq<u8>> {
    if file.len() < 12 {
        None
    } else {
        aes256gcm_open(image_key(passphrase), file.subrange(0, 12), file.subrange(12, file.len() as int))
    }
}

fn concat_bytes(a: &[u8], b: &[u8]) -> (res: Vec<u8>)
    ensures
        res@ == a@ + b@,
{
    let mut out: Vec<u8> = Vec::new();
    let mut i: usize = 0;
    while i < a.len()
        invariant
            i <= a@.len(),
            out@ == a@.subrange(0, i as int),
        decreases a@.len() - i,
    {
        out.push(a[i]);
        assert(a@.subrange(0, i + 1) =~= a@.subrange(0, i as int).push(a@[i as int]));
        i = i + 1;
    }
    let mut j: usize = 0;
    while j < b.len()
        invariant
            j <= b@.len(),
            i == a@.len(),
            out@ == a@.subrange(0, i as int) + b@.subrange(0, j as int),
        decreases b@.len() - j,
    {
        out.push(b[j]);
        assert(b@.subrange(0, j + 1) =~= b@.subrange(0, j as int).push(b@[j as int]));
        assert(a@.subrange(0, i as int) + b@.subrange(0, j + 1) =~= (a@.subrange(0, i as int)
            + b@.subrange(0, j as int)).push(b@[j as int]));
        j = j + 1;
    }
    assert(a@.subrange(0, a@.len() as int) =~= a@);
    assert(b@.subrange(0, b@.len() as int) =~= b@);
    out
}

/// Encrypts an image file's bytes under `passphrase`. It fails only for
/// more than 2^36 bytes; what it gives decrypts back to the bytes.
pub fn encrypt_image(plaintext: &[u8], passphrase: &str) -> (res: Option<Vec<u8>>)
    ensures
        res is Some <==> plaintext@.len() <= max_plaintext_len(),
        res matches Some(c) ==> c@ == encrypted_image_spec(plaintext@, passphrase@),
        res matches Some(c) ==> decrypted_image_spec(c@, passphrase@) == Some(plaintext@),
{
    let key = sha256(passphrase.as_bytes());
    let keyed = concat_bytes(key.as_slice(), plaintext);
    let digest = sha256(keyed.as_slice());
    let nonce = vstd::slice::slice_subrange(digest.as_slice(), 0, 12);
    match seal(key.as_slice(), nonce, plaintext) {
        Some(sealed) => {
            let out = concat_bytes(nonce, sealed.as_slice());
            assert(out@.subrange(0, 12) =~= nonce@);
            assert(out@.subrange(12, out@.len() as int) =~= sealed@);
            Some(out)
        },
        None => None,
    }
}

/// Decrypts an encrypted copy under `passphrase`: `None` when the file is
/// shorter than a nonce or was not made under this passphrase (its tag does
/// not check out).
pub fn decrypt_image(file: &[u8], passphrase: &str) -> (res: Option<Vec<u8>>)
    ensures
        opt_bytes(res) == decrypted_image_spec(file@, passphrase@),
{
    if file.len() < 12 {
        return None;
    }
    let key = sha256(passphrase.as_bytes());
    let nonce = vstd::slice::slice_subrange(file, 0, 12);
    let sealed = vstd::slice::slice_subrange(file, 12, file.len());
    open(key.as_slice(), nonce, sealed)
}

} // verus!
