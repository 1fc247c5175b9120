//! Key-material derivation: a password's bytes become a fixed-size key and
//! nonce by truncating or zero-padding on the right.
//!
//! Both values are deterministic functions of the password alone, so reusing
//! a password reuses the same (key, nonce) pair — an inherited weakness of
//! this scheme, kept as designed.

use vstd::prelude::*;

verus! {

/// The key is exactly this many bytes long.
pub const KEY_LEN: usize = 32;

/// The nonce is exactly this many bytes long.
pub const NONCE_LEN: usize = 24;

/// The password bytes truncated to `n` bytes, or zero-padded on the right up
/// to `n` bytes, whichever applies.
pub open spec fn padded_to(password: Seq<u8>, n: nat) -> Seq<u8> {
    if password.len() >= n {
        password.subrange(0, n as int)
    } else {
        password + Seq::new((n - password.len()) as nat, |i: int| 0u8)
    }
}

/// The 32-byte key derived from a password.
pub open spec fn derived_key(password: Seq<u8>) -> Seq<u8> {
    padded_to(password, KEY_LEN as nat)
}

/// The 24-byte nonce derived from a password.
pub open spec fn derived_nonce(password: Seq<u8>) -> Seq<u8> {
    padded_to(password, NONCE_LEN as nat)
}

/// Truncates or right-pads the password bytes with zeros to exactly `n` bytes.
/// Total over every password, any length: long passwords lose their tail.
fn pad_truncate(password: &[u8], n: usize) -> (out: Vec<u8>)
    ensures
        out@ == padded_to(password@, n as nat),
{
    let mut out: Vec<u8> = Vec::new();
    let mut i: usize = 0;
    while i < n
        invariant
            i <= n,
            out@.len() == i as nat,
            forall|j: int|
                0 <= j < i ==> out@[j] == (if j < password@.len() {
                    password@[j]
                } else {
                    0u8
                }),
        decreases n - i,
    {
        if i < password.len() {
            out.push(password[i]);
        } else {
            out.push(0u8);
        }
        i = i + 1;
    }
    assert(out@ =~= padded_to(password@, n as nat));
    out
}

/// Derives the (key, nonce) pair from a password's bytes. Total: no password
/// is rejected, and a password longer than the key or nonce is truncated.
pub fn derive_key_nonce(password: &[u8]) -> (r: (Vec<u8>, Vec<u8>))
    ensures
        r.0@ == derived_key(password@),
        r.1@ == derived_nonce(password@),
        r.0@.len() == KEY_LEN,
        r.1@.len() == NONCE_LEN,
{
    let key = pad_truncate(password, KEY_LEN);
    let nonce = pad_truncate(password, NONCE_LEN);
    (key, nonce)
}

/// Derivation is deterministic: equal passwords yield equal key-material
/// pairs, across any two derivations.
pub proof fn lemma_derivation_deterministic(w1: Seq<u8>, w2: Seq<u8>)
    requires
        w1 == w2,
    ensures
        derived_key(w1) == derived_key(w2),
        derived_nonce(w1) == derived_nonce(w2),
{
}

/// A password longer than the key is truncated to the key's length, never
/// rejected; the same holds of the nonce.
pub proof fn lemma_long_password_truncated(w: Seq<u8>)
    requires
        w.len() >= KEY_LEN,
    ensures
        derived_key(w) == w.subrange(0, KEY_LEN as int),
        derived_nonce(w) == w.subrange(0, NONCE_LEN as int),
{
}

} // verus!
