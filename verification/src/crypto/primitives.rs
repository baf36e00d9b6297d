//! The cryptographic primitives, which *ring* computes. This module states
//! what the envelope relies on.

use vstd::prelude::*;
use std::num::NonZeroU32;
use ring::aead::{Aad, LessSafeKey, Nonce, UnboundKey, CHACHA20_POLY1305};
use ring::pbkdf2;
use ring::rand::{SecureRandom, SystemRandom};

verus! {

/// Length of a ChaCha20-Poly1305 key.
pub const KEY_LEN: usize = 32;

/// Length of a ChaCha20-Poly1305 nonce.
pub const NONCE_LEN: usize = 12;

/// Length of a ChaCha20-Poly1305 authentication tag.
pub const TAG_LEN: usize = 16;

/// The longest message ChaCha20-Poly1305 seals under one nonce.
pub const MAX_MESSAGE_LEN: u64 = 274_877_906_880;

/// The longest input, in bytes, that SHA-256 takes.
pub const MAX_HASH_INPUT_LEN: u64 = 0x1fff_ffff_ffff_ffff;

/// The key that PBKDF2 with HMAC-SHA256 derives: `len` bytes from `secret`
/// and `salt` after `iterations` rounds.
pub uninterp spec fn pbkdf2_hmac_sha256(iterations: u32, salt: Seq<u8>, secret: Seq<u8>, len: nat) -> Seq<u8>;

/// What ChaCha20-Poly1305 makes of `message` under `key` and `nonce`, with
/// no associated data: the ciphertext followed by the authentication tag.
pub uninterp spec fn chacha20_poly1305(key: Seq<u8>, nonce: Seq<u8>, message: Seq<u8>) -> Seq<u8>;

/// The key, nonce and message are ones ChaCha20-Poly1305 seals.
pub open spec fn sealable(key: Seq<u8>, nonce: Seq<u8>, message: Seq<u8>) -> bool {
    &&& key.len() == KEY_LEN
    &&& nonce.len() == NONCE_LEN
    &&& message.len() <= MAX_MESSAGE_LEN
}

/// Sealing `message` under `key` and `nonce` gives `sealed`.
pub open spec fn seals_to(key: Seq<u8>, nonce: Seq<u8>, message: Seq<u8>, sealed: Seq<u8>) -> bool {
    sealable(key, nonce, message) && chacha20_poly1305(key, nonce, message) == sealed
}

/// The bytes of an optional buffer.
pub open spec fn bytes_of(buffer: Option<Vec<u8>>) -> Option<Seq<u8>> {
    match buffer {
        Some(buffer) => Some(buffer@),
        None => None,
    }
}

/// `ring::pbkdf2::derive` with `PBKDF2_HMAC_SHA256`: the derived key, of
/// the length asked for. The bounds keep away from the inputs on which
/// `derive` panics.
#[verifier::external_body]
pub(crate) fn derive_key(iterations: u32, salt: &[u8], secret: &[u8], len: usize) -> (key: Vec<u8>)
    requires
        iterations >= 1,
        salt@.len() <= 0xffff_ffff,
        secret@.len() <= MAX_HASH_INPUT_LEN,
        len <= 0xffff_ffff,
    ensures
        key@ == pbkdf2_hmac_sha256(iterations, salt@, secret@, len as nat),
        key@.len() == len,
{
    let mut key = vec![0u8; len];
    pbkdf2::derive(pbkdf2::PBKDF2_HMAC_SHA256, NonZeroU32::new(iterations).unwrap(), salt, secret, &mut key);
    key
}

/// `ring::rand::SystemRandom::fill`: `len` bytes from the system's random
/// source, or nothing when the source fails.
#[verifier::external_body]
pub(crate) fn random_bytes(len: usize) -> (bytes: Option<Vec<u8>>)
    ensures
        bytes matches Some(b) ==> b@.len() == len,
{
    let mut bytes = vec![0u8; len];
    SystemRandom::new().fill(&mut bytes).ok()?;
    Some(bytes)
}

/// `ring::aead::LessSafeKey::seal_in_place_append_tag` with
/// `CHACHA20_POLY1305` and no associated data. It seals exactly when the
/// key has 32 bytes, the nonce 12 and the message is no longer than the
/// cipher allows; the result is as long as the message and the tag.
#[verifier::external_body]
pub(crate) fn seal(key: &[u8], nonce: &[u8], message: &[u8]) -> (sealed: Option<Vec<u8>>)
    ensures
        sealed is Some <==> sealable(key@, nonce@, message@),
        sealed matches Some(s) ==> s@ == chacha20_poly1305(key@, nonce@, message@),
        sealed matches Some(s) ==> s@.len() == message@.len() + TAG_LEN,
{
    let key = LessSafeKey::new(UnboundKey::new(&CHACHA20_POLY1305, key).ok()?);
    let nonce = Nonce::try_assume_unique_for_key(nonce).ok()?;
    let mut in_out = message.to_vec();
    key.seal_in_place_append_tag(nonce, Aad::empty(), &mut in_out).ok()?;
    Some(in_out)
}

/// `ring::aead::LessSafeKey::open_in_place` with `CHACHA20_POLY1305` and no
/// associated data. Opening recomputes the tag over the ciphertext and
/// undoes the cipher, so it gives a message exactly when `sealed` is what
/// sealing that message under the same key and nonce gives, and then it
/// gives that message.
#[verifier::external_body]
pub(crate) fn open(key: &[u8], nonce: &[u8], sealed: &[u8]) -> (opened: Option<Vec<u8>>)
    ensures
        opened matches Some(m) ==> seals_to(key@, nonce@, m@, sealed@),
        opened matches Some(m) ==> m@.len() + TAG_LEN == sealed@.len(),
        forall|m: Seq<u8>| #[trigger] seals_to(key@, nonce@, m, sealed@) ==> bytes_of(opened) == Some(m),
{
    let key = LessSafeKey::new(UnboundKey::new(&CHACHA20_POLY1305, key).ok()?);
    let nonce = Nonce::try_assume_unique_for_key(nonce).ok()?;
    let mut in_out = sealed.to_vec();
    let opened = key.open_in_place(nonce, Aad::empty(), &mut in_out).ok()?;
    Some(opened.to_vec())
}

} // verus!
