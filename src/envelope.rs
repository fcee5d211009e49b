use vstd::prelude::*;
use vstd::slice::{slice_subrange, slice_to_vec};

use aes_gcm::aead::{Aead, AeadCore, KeyInit, OsRng};
use aes_gcm::Aes256Gcm;
use chacha20poly1305::ChaCha20Poly1305;

use crate::cipher::Cipher;
use crate::error::ShareError;

verus! {

/// Length in bytes of a key, for every supported cipher.
pub const KEY_LEN: usize = 32;

/// Length in bytes of a nonce, for every supported cipher.
pub const NONCE_LEN: usize = 12;

/// Length in bytes of the authentication tag appended to a ciphertext.
pub const TAG_LEN: usize = 16;

/// Longest plaintext that AES-256-GCM seals, in bytes.
pub const AES_MAX_PLAINTEXT: u64 = 68719476736;

/// Longest plaintext that ChaCha20-Poly1305 seals, in bytes: the keystream
/// has 2^32 - 2 blocks of 64 bytes left once the first one keyed the tag.
pub const CHAPOLY_MAX_PLAINTEXT: u64 = 274877906816;

/// The error of the `aead` traits, returned by `Aead::encrypt` of aes-gcm and
/// of chacha20poly1305; it carries nothing.
#[verifier::external_type_specification]
#[verifier::external_body]
pub struct ExAeadError(aes_gcm::aead::Error);

/// What AES-256-GCM makes of a plaintext under a key and a nonce.
pub uninterp spec fn aes256gcm_sealed_of(key: Seq<u8>, nonce: Seq<u8>, plaintext: Seq<u8>) -> Seq<u8>;

/// What ChaCha20-Poly1305 makes of a plaintext under a key and a nonce.
pub uninterp spec fn chacha20poly1305_sealed_of(
    key: Seq<u8>,
    nonce: Seq<u8>,
    plaintext: Seq<u8>,
) -> Seq<u8>;

/// Relies on `KeyInit::generate_key` of aes-gcm with `OsRng`: a key of 32
/// bytes from the operating system's secure generator, which panics where the
/// system offers no randomness.
#[verifier::external_body]
fn aes256gcm_generate_key() -> (r: Vec<u8>)
    ensures
        r@.len() == KEY_LEN,
{
    Aes256Gcm::generate_key(&mut OsRng).to_vec()
}

/// Relies on `KeyInit::generate_key` of chacha20poly1305 with `OsRng`: a key
/// of 32 bytes from the operating system's secure generator, which panics where the
/// system offers no randomness.
#[verifier::external_body]
fn chacha20poly1305_generate_key() -> (r: Vec<u8>)
    ensures
        r@.len() == KEY_LEN,
{
    ChaCha20Poly1305::generate_key(&mut OsRng).to_vec()
}

/// Relies on `AeadCore::generate_nonce` of aes-gcm with `OsRng`: a nonce of
/// 12 bytes from the operating system's secure generator, which panics where the
/// system offers no randomness.
#[verifier::external_body]
fn aes256gcm_generate_nonce() -> (r: Vec<u8>)
    ensures
        r@.len() == NONCE_LEN,
{
    Aes256Gcm::generate_nonce(&mut OsRng).to_vec()
}

/// Relies on `AeadCore::generate_nonce` of chacha20poly1305 with `OsRng`: a
/// nonce of 12 bytes from the operating system's secure generator, which panics where the
/// system offers no randomness.
#[verifier::external_body]
fn chacha20poly1305_generate_nonce() -> (r: Vec<u8>)
    ensures
        r@.len() == NONCE_LEN,
{
    ChaCha20Poly1305::generate_nonce(&mut OsRng).to_vec()
}

/// Relies on `Aead::encrypt` of aes-gcm with empty associated data: the
/// ciphertext with the 16-byte tag after it, determined by key, nonce and
/// plaintext; plaintexts over 2^36 bytes are refused.
#[verifier::external_body]
fn aes256gcm_encrypt(key: &[u8], nonce: &[u8], plaintext: &[u8]) -> (r: Result<
    Vec<u8>,
    aes_gcm::aead::Error,
>)
    requires
        key@.len() == KEY_LEN,
        nonce@.len() == NONCE_LEN,
    ensures
        r is Ok <==> plaintext@.len() <= AES_MAX_PLAINTEXT,
        r matches Ok(c) ==> c@ == aes256gcm_sealed_of(key@, nonce@, plaintext@),
        r matches Ok(c) ==> c@.len() == plaintext@.len() + TAG_LEN,
{
    let cipher = Aes256Gcm::new(aes_gcm::Key::<Aes256Gcm>::from_slice(key));
    cipher.encrypt(aes_gcm::Nonce::from_slice(nonce), plaintext)
}

/// Relies on `Aead::encrypt` of chacha20poly1305 with empty associated data:
/// the ciphertext with the 16-byte tag after it, determined by key, nonce and
/// plaintext. Longer plaintexts than the keystream covers make it panic or
/// fail, so they are kept out.
#[verifier::external_body]
fn chacha20poly1305_encrypt(key: &[u8], nonce: &[u8], plaintext: &[u8]) -> (r: Result<
    Vec<u8>,
    aes_gcm::aead::Error,
>)
    requires
        key@.len() == KEY_LEN,
        nonce@.len() == NONCE_LEN,
        plaintext@.len() <= CHAPOLY_MAX_PLAINTEXT,
    ensures
        r is Ok,
        r matches Ok(c) ==> c@ == chacha20poly1305_sealed_of(key@, nonce@, plaintext@),
        r matches Ok(c) ==> c@.len() == plaintext@.len() + TAG_LEN,
{
    let cipher = ChaCha20Poly1305::new(chacha20poly1305::Key::from_slice(key));
    cipher.encrypt(chacha20poly1305::Nonce::from_slice(nonce), plaintext)
}

/// What a cipher makes of a plaintext under a key and a nonce.
pub open spec fn sealed_of(cipher: Cipher, key: Seq<u8>, nonce: Seq<u8>, plaintext: Seq<u8>) -> Seq<
    u8,
> {
    match cipher {
        Cipher::Aes256gcm => aes256gcm_sealed_of(key, nonce, plaintext),
        Cipher::Chapoly => chacha20poly1305_sealed_of(key, nonce, plaintext),
    }
}

/// Longest plaintext that a cipher seals.
pub open spec fn max_plaintext_len(cipher: Cipher) -> nat {
    match cipher {
        Cipher::Aes256gcm => AES_MAX_PLAINTEXT as nat,
        Cipher::Chapoly => CHAPOLY_MAX_PLAINTEXT as nat,
    }
}

/// The bytes handed to the storage service: the nonce, then the sealed secret.
pub open spec fn envelope_of(nonce: Seq<u8>, sealed: Seq<u8>) -> Seq<u8> {
    nonce + sealed
}

/// An envelope taken apart into its nonce and its sealed secret.
pub open spec fn split_envelope(bytes: Seq<u8>) -> Option<(Seq<u8>, Seq<u8>)> {
    if bytes.len() < NONCE_LEN {
        None
    } else {
        Some((bytes.subrange(0, NONCE_LEN as int), bytes.subrange(NONCE_LEN as int, bytes.len() as int)))
    }
}

/// A fresh random key for the cipher.
pub fn generate_key(cipher: Cipher) -> (r: Vec<u8>)
    ensures
        r@.len() == KEY_LEN,
{
    match cipher {
        Cipher::Aes256gcm => aes256gcm_generate_key(),
        Cipher::Chapoly => chacha20poly1305_generate_key(),
    }
}

/// A fresh random nonce for the cipher.
pub fn generate_nonce(cipher: Cipher) -> (r: Vec<u8>)
    ensures
        r@.len() == NONCE_LEN,
{
    match cipher {
        Cipher::Aes256gcm => aes256gcm_generate_nonce(),
        Cipher::Chapoly => chacha20poly1305_generate_nonce(),
    }
}

/// Seals a plaintext, with no associated data.
pub fn seal(cipher: Cipher, key: &[u8], nonce: &[u8], plaintext: &[u8]) -> (r: Result<
    Vec<u8>,
    ShareError,
>)
    requires
        key@.len() == KEY_LEN,
        nonce@.len() == NONCE_LEN,
    ensures
        r is Ok <==> plaintext@.len() <= max_plaintext_len(cipher),
        r matches Ok(c) ==> c@ == sealed_of(cipher, key@, nonce@, plaintext@),
        r matches Ok(c) ==> c@.len() == plaintext@.len() + TAG_LEN,
        r matches Err(e) ==> e == ShareError::CryptoFailure,
{
    let sealed = match cipher {
        Cipher::Aes256gcm => aes256gcm_encrypt(key, nonce, plaintext),
        Cipher::Chapoly => {
            if plaintext.len() as u64 > CHAPOLY_MAX_PLAINTEXT {
                return Err(ShareError::CryptoFailure);
            }
            chacha20poly1305_encrypt(key, nonce, plaintext)
        },
    };
    match sealed {
        Ok(c) => Ok(c),
        Err(_) => Err(ShareError::CryptoFailure),
    }
}

/// Joins a nonce and a sealed secret into one envelope.
pub fn encode_envelope(nonce: &[u8], sealed: &[u8]) -> (r: Vec<u8>)
    ensures
        r@ == envelope_of(nonce@, sealed@),
{
    let mut bytes = slice_to_vec(nonce);
    let mut rest = slice_to_vec(sealed);
    bytes.append(&mut rest);
    bytes
}

/// Takes an envelope apart into its nonce and its sealed secret.
pub fn decode_envelope(bytes: &[u8]) -> (r: Result<(Vec<u8>, Vec<u8>), ShareError>)
    ensures
        r matches Ok(parts) ==> split_envelope(bytes@) == Some((parts.0@, parts.1@)),
        r matches Err(e) ==> split_envelope(bytes@) is None && e == ShareError::MalformedEnvelope,
{
    if bytes.len() < NONCE_LEN {
        return Err(ShareError::MalformedEnvelope);
    }
    let nonce = slice_to_vec(slice_subrange(bytes, 0, NONCE_LEN));
    let sealed = slice_to_vec(slice_subrange(bytes, NONCE_LEN, bytes.len()));
    Ok((nonce, sealed))
}

/// Splitting an envelope at the nonce length gives back exactly the nonce and
/// the sealed secret it was made of.
pub proof fn lemma_envelope_round_trip(nonce: Seq<u8>, sealed: Seq<u8>)
    requires
        nonce.len() == NONCE_LEN,
    ensures
        split_envelope(envelope_of(nonce, sealed)) == Some((nonce, sealed)),
{
    let bytes = envelope_of(nonce, sealed);
    assert(bytes.subrange(0, NONCE_LEN as int) =~= nonce);
    assert(bytes.subrange(NONCE_LEN as int, bytes.len() as int) =~= sealed);
}

/// Overwrites every byte of a buffer that held key or secret material with zero.
pub fn wipe(buf: &mut Vec<u8>)
    ensures
        final(buf)@.len() == old(buf)@.len(),
        forall|i: int| 0 <= i < final(buf)@.len() ==> final(buf)@[i] == 0,
{
    let n = buf.len();
    let mut i: usize = 0;
    while i < n
        invariant
            buf@.len() == n,
            i <= n,
            forall|j: int| 0 <= j < i ==> buf@[j] == 0,
        decreases n - i,
    {
        buf.set(i, 0);
        i = i + 1;
    }
}

} // verus!
