//! The file cipher: authenticated encryption and decryption of a whole
//! buffer with XChaCha20-Poly1305, a single fixed cipher suite. The
//! ciphertext is the transformed plaintext followed by a 16-byte
//! authentication tag; decryption verifies the tag and recovers the
//! plaintext, or fails when the key, nonce or buffer do not match.

use vstd::prelude::*;
use crate::keys::{KEY_LEN, NONCE_LEN};
use chacha20poly1305::aead::Aead;
use chacha20poly1305::{KeyInit, XChaCha20Poly1305};

verus! {

/// One message may hold at most this many bytes: 2^32 - 2 blocks of 64
/// bytes. The stream cipher's 32-bit block counter spends one block on the
/// authentication key, leaving that much keystream for the payload.
pub const MSG_LIMIT: u64 = 274877906816;

/// The authentication tag appended to every ciphertext, in bytes.
pub const TAG_LEN: usize = 16;

/// Why a cipher transform failed. I/O failures belong to the caller that
/// reads and writes files; they never arise here.
#[derive(Clone, Copy, Debug, PartialEq, Eq, Structural)]
pub enum CryptoError {
    /// The buffer is too long for one message of the cipher.
    TooLong,
    /// Tag verification failed on decrypt: wrong key, wrong nonce, or a
    /// corrupted or tampered ciphertext — indistinguishable to the caller.
    AuthenticationFailed,
}

/// The ciphertext-with-tag that XChaCha20-Poly1305 produces for a key, a
/// nonce and a plaintext: a function of those three alone.
pub uninterp spec fn xchacha_seal(key: Seq<u8>, nonce: Seq<u8>, plaintext: Seq<u8>) -> Seq<u8>;

/// What XChaCha20-Poly1305 decryption returns for a key, a nonce and a
/// buffer: the recovered plaintext, or `None` when the tag does not verify.
/// A function of the three alone.
pub uninterp spec fn xchacha_open(key: Seq<u8>, nonce: Seq<u8>, data: Seq<u8>) -> Option<Seq<u8>>;

#[verifier::external_type_specification]
#[verifier::external_body]
pub struct ExAeadError(chacha20poly1305::Error);

/// Relies on chacha20poly1305's `XChaCha20Poly1305` with `aead::Aead::encrypt`:
/// the ciphertext is the encrypted plaintext followed by the 16-byte tag, a
/// deterministic function of key, nonce and plaintext; encryption succeeds on
/// every plaintext within the cipher's one-message limit (past it the
/// keystream runs out and the call does not return, so the caller checks the
/// length first); and decrypting the result under the same key and nonce
/// returns the plaintext.
#[verifier::external_body]
fn xchacha_encrypt(key: &Vec<u8>, nonce: &Vec<u8>, data: &Vec<u8>) -> (r: Result<
    Vec<u8>,
    chacha20poly1305::Error,
>)
    requires
        key@.len() == KEY_LEN,
        nonce@.len() == NONCE_LEN,
        data@.len() <= MSG_LIMIT,
    ensures
        r is Ok,
        r matches Ok(c) ==> c@ == xchacha_seal(key@, nonce@, data@),
        r matches Ok(c) ==> c@.len() == data@.len() + TAG_LEN,
        r matches Ok(c) ==> xchacha_open(key@, nonce@, c@) == Some(data@),
{
    let key_arr: &chacha20poly1305::Key = key.as_slice().try_into().unwrap();
    let nonce_arr: &chacha20poly1305::XNonce = nonce.as_slice().try_into().unwrap();
    let cipher = XChaCha20Poly1305::new(key_arr);
    cipher.encrypt(nonce_arr, data.as_slice())
}

/// Relies on chacha20poly1305's `XChaCha20Poly1305` with `aead::Aead::decrypt`:
/// the result is a deterministic function of key, nonce and buffer; it is the
/// plaintext exactly when the buffer is a well-formed message whose tag
/// verifies under this key and nonce, and a failure otherwise. A buffer whose
/// body exceeds the cipher's one-message limit would exhaust the keystream
/// after a verifying tag and not return, so the caller checks the length
/// first.
#[verifier::external_body]
fn xchacha_decrypt(key: &Vec<u8>, nonce: &Vec<u8>, data: &Vec<u8>) -> (r: Result<
    Vec<u8>,
    chacha20poly1305::Error,
>)
    requires
        key@.len() == KEY_LEN,
        nonce@.len() == NONCE_LEN,
        data@.len() <= MSG_LIMIT + TAG_LEN,
    ensures
        r is Ok <==> xchacha_open(key@, nonce@, data@) is Some,
        r matches Ok(p) ==> xchacha_open(key@, nonce@, data@) == Some(p@),
        r matches Ok(p) ==> data@.len() == p@.len() + TAG_LEN,
{
    let key_arr: &chacha20poly1305::Key = key.as_slice().try_into().unwrap();
    let nonce_arr: &chacha20poly1305::XNonce = nonce.as_slice().try_into().unwrap();
    let cipher = XChaCha20Poly1305::new(key_arr);
    cipher.decrypt(nonce_arr, data.as_slice())
}

/// The file cipher. Both operations work on the whole buffer in memory, with
/// no associated data; callers do the file reading and writing.
pub struct Crypto {}

impl Crypto {
    /// Encrypts the buffer under the key and nonce. Succeeds on every buffer
    /// within the cipher's one-message limit; the ciphertext is the sealed
    /// buffer with its tag, and decrypting it under the same key and nonce
    /// gives the buffer back.
    pub fn encrypt(data: &Vec<u8>, key: &Vec<u8>, nonce: &Vec<u8>) -> (r: Result<
        Vec<u8>,
        CryptoError,
    >)
        requires
            key@.len() == KEY_LEN,
            nonce@.len() == NONCE_LEN,
        ensures
            r is Ok <==> data@.len() <= MSG_LIMIT,
            r matches Ok(c) ==> c@ == xchacha_seal(key@, nonce@, data@),
            r matches Ok(c) ==> c@.len() == data@.len() + TAG_LEN,
            r matches Ok(c) ==> xchacha_open(key@, nonce@, c@) == Some(data@),
            r matches Err(e) ==> e == CryptoError::TooLong,
    {
        if data.len() as u64 > MSG_LIMIT {
            return Err(CryptoError::TooLong);
        }
        match xchacha_encrypt(key, nonce, data) {
            Ok(c) => Ok(c),
            Err(_) => Err(CryptoError::TooLong),
        }
    }

    /// Decrypts and verifies the buffer under the key and nonce. Succeeds
    /// exactly when the buffer fits one message of the cipher and the tag
    /// verifies, returning the recovered plaintext; fails with an
    /// authentication error otherwise, or a length error on a buffer no
    /// message of the cipher could fill.
    pub fn decrypt(data: &Vec<u8>, key: &Vec<u8>, nonce: &Vec<u8>) -> (r: Result<
        Vec<u8>,
        CryptoError,
    >)
        requires
            key@.len() == KEY_LEN,
            nonce@.len() == NONCE_LEN,
        ensures
            r is Ok <==> data@.len() <= MSG_LIMIT + TAG_LEN && xchacha_open(key@, nonce@, data@)
                is Some,
            r matches Ok(p) ==> xchacha_open(key@, nonce@, data@) == Some(p@),
            r matches Ok(p) ==> data@.len() == p@.len() + TAG_LEN,
            r matches Err(e) ==> e == (if data@.len() > MSG_LIMIT + TAG_LEN {
                CryptoError::TooLong
            } else {
                CryptoError::AuthenticationFailed
            }),
    {
        if data.len() as u64 > MSG_LIMIT + (TAG_LEN as u64) {
            return Err(CryptoError::TooLong);
        }
        match xchacha_decrypt(key, nonce, data) {
            Ok(p) => Ok(p),
            Err(_) => Err(CryptoError::AuthenticationFailed),
        }
    }
}

} // verus!
