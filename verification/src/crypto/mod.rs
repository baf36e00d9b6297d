//! The crypto envelope: every packet that crosses the wire is sealed into a
//! frame of its own, and opened only if it authenticates.

pub mod chacha20_poly1305;
pub mod frame;
pub mod primitives;

use vstd::prelude::*;
use crate::error::Error;
use vstd::string::StringSliceAdditionalSpecFns;
use crate::crypto::chacha20_poly1305::{spec_key_of, ChaCha20Poly1305};
use crate::crypto::frame::{frame_body, frame_nonce};
use crate::crypto::primitives::MAX_HASH_INPUT_LEN;

verus! {

/// What a cipher is to the envelope: the lengths it fixes, and what it
/// makes of a message.
pub struct Envelope {
    /// Length of the nonce that starts every frame.
    pub nonce_len: nat,
    /// Length of the authentication tag that ends every frame.
    pub tag_len: nat,
    /// The longest message the cipher seals.
    pub max_message_len: nat,
    /// What sealing a message under a nonce and the cipher's key gives: the
    /// ciphertext followed by the tag.
    pub sealed: spec_fn(Seq<u8>, Seq<u8>) -> Seq<u8>,
}

/// `frame` is a frame of `message`: a nonce, followed by what sealing
/// `message` under that nonce gives, which is as long as the message and
/// the tag.
pub open spec fn is_frame_of(envelope: Envelope, frame: Seq<u8>, message: Seq<u8>) -> bool {
    &&& message.len() <= envelope.max_message_len
    &&& frame.len() == envelope.nonce_len + message.len() + envelope.tag_len
    &&& frame_body(frame, envelope.nonce_len as int) == (envelope.sealed)(
        frame_nonce(frame, envelope.nonce_len as int),
        message,
    )
}

/// The result is the message `message`.
pub open spec fn gives(result: Result<Vec<u8>, Error>, message: Seq<u8>) -> bool {
    match result {
        Ok(bytes) => bytes@ == message,
        Err(_) => false,
    }
}

/// What sealing `message` into a frame comes to. A message longer than the
/// cipher allows is refused; any other gives a frame of the message,
/// unless the random source fails.
pub open spec fn sealing(envelope: Envelope, message: Seq<u8>, outcome: Result<Vec<u8>, Error>) -> bool {
    if message.len() > envelope.max_message_len {
        outcome == Err::<Vec<u8>, Error>(Error::MessageTooLong)
    } else {
        match outcome {
            Ok(frame) => is_frame_of(envelope, frame@, message),
            Err(e) => e == Error::RandomFailed,
        }
    }
}

/// What opening `frame` comes to. It gives a message exactly when the
/// frame is a frame of that message, and then it gives that message; every
/// other frame fails with the one error `InvalidMessage`.
pub open spec fn opening(envelope: Envelope, frame: Seq<u8>, outcome: Result<Vec<u8>, Error>) -> bool {
    &&& match outcome {
        Ok(message) => is_frame_of(envelope, frame, message@),
        Err(e) => e == Error::InvalidMessage,
    }
    &&& forall|message: Seq<u8>| #[trigger] is_frame_of(envelope, frame, message) ==> gives(outcome, message)
}

/// An authenticated cipher behind the envelope. The nonce and tag lengths
/// belong to the cipher: callers ask for them.
pub trait Crypto {
    /// The cipher's name.
    spec fn spec_name(&self) -> Seq<char>;

    /// The cipher's lengths and what it makes of a message under its key.
    spec fn envelope(&self) -> Envelope;

    /// The cipher's name.
    fn name(&self) -> (name: String)
        ensures
            name@ == self.spec_name(),
    ;

    /// Length of the nonce that starts every frame.
    fn nonce_len(&self) -> (len: usize)
        ensures
            len == self.envelope().nonce_len,
    ;

    /// Length of the authentication tag that ends every frame.
    fn tag_len(&self) -> (len: usize)
        ensures
            len == self.envelope().tag_len,
    ;

    /// Seals `message` into a frame under a nonce drawn fresh from the
    /// system's random source.
    fn encrypt(&self, message: &[u8]) -> (frame: Result<Vec<u8>, Error>)
        ensures
            sealing(self.envelope(), message@, frame),
    ;

    /// Opens a frame. A frame too short to hold a nonce and a tag is among
    /// those that fail.
    fn decrypt(&self, cipher_text: &[u8]) -> (message: Result<Vec<u8>, Error>)
        ensures
            opening(self.envelope(), cipher_text@, message),
    ;
}

/// The ciphers the tunnel knows by name.
#[allow(non_camel_case_types)]
#[derive(Clone, Copy, Debug, PartialEq, Eq, Structural)]
pub enum Ciphers {
    CHACHA20_POLY1305,
}

impl Ciphers {
    /// The cipher's envelope under the key that `password` is stretched
    /// into. The password must not be longer than the hash takes.
    pub fn init(self, password: &str) -> (crypto: Box<ChaCha20Poly1305>)
        requires
            password.spec_bytes().len() <= MAX_HASH_INPUT_LEN,
        ensures
            crypto.key() == spec_key_of(password.spec_bytes()),
    {
        match self {
            Ciphers::CHACHA20_POLY1305 => chacha20_poly1305::init_crypto(password),
        }
    }
}

impl<'a> From<&'a str> for Ciphers {
    /// The cipher of that name; a name that is not known selects
    /// ChaCha20-Poly1305.
    fn from(name: &str) -> (cipher: Self) {
        Ciphers::CHACHA20_POLY1305
    }
}

impl<'a> vstd::std_specs::convert::FromSpecImpl<&'a str> for Ciphers {
    open spec fn obeys_from_spec() -> bool {
        true
    }

    open spec fn from_spec(name: &'a str) -> Ciphers {
        Ciphers::CHACHA20_POLY1305
    }
}

/// Opening what was sealed gives the message back: whatever frame sealing
/// `message` gave, opening that frame gives `message`.
pub proof fn lemma_round_trip(
    envelope: Envelope,
    message: Seq<u8>,
    frame: Vec<u8>,
    opened: Result<Vec<u8>, Error>,
)
    requires
        sealing(envelope, message, Ok(frame)),
        opening(envelope, frame@, opened),
    ensures
        gives(opened, message),
{
    assert(is_frame_of(envelope, frame@, message));
}

/// Opening never gives a message of which the frame is not a frame: a
/// frame that was altered is either refused or is, as it stands, a frame of
/// what opening it gives.
pub proof fn lemma_opening_is_sound(envelope: Envelope, frame: Seq<u8>, opened: Result<Vec<u8>, Error>)
    requires
        opening(envelope, frame, opened),
    ensures
        match opened {
            Ok(message) => is_frame_of(envelope, frame, message@),
            Err(e) => e == Error::InvalidMessage && forall|message: Seq<u8>| !is_frame_of(envelope, frame, message),
        },
{
    if opened is Err {
        assert forall|message: Seq<u8>| !is_frame_of(envelope, frame, message) by {
            if is_frame_of(envelope, frame, message) {
                assert(gives(opened, message));
            }
        }
    }
}

/// A frame that differs from a frame of `message` somewhere after the nonce
/// is not a frame of `message`: opening it never gives `message`.
pub proof fn lemma_altered_frame_is_no_frame(
    envelope: Envelope,
    frame: Seq<u8>,
    altered: Seq<u8>,
    message: Seq<u8>,
    opened: Result<Vec<u8>, Error>,
)
    requires
        is_frame_of(envelope, frame, message),
        altered.len() == frame.len(),
        altered != frame,
        frame_nonce(altered, envelope.nonce_len as int) == frame_nonce(frame, envelope.nonce_len as int),
        opening(envelope, altered, opened),
    ensures
        !is_frame_of(envelope, altered, message),
        !gives(opened, message),
{
    let n = envelope.nonce_len as int;
    if is_frame_of(envelope, altered, message) {
        assert(frame_body(altered, n) == frame_body(frame, n));
        assert forall|i: int| 0 <= i < frame.len() implies altered[i] == frame[i] by {
            if i < n {
                assert(frame_nonce(altered, n)[i] == frame_nonce(frame, n)[i]);
            } else {
                assert(frame_body(altered, n)[i - n] == frame_body(frame, n)[i - n]);
            }
        }
        assert(altered =~= frame);
    }
}

/// A frame shorter than a nonce and a tag is a frame of nothing, so
/// opening it fails.
pub proof fn lemma_short_frame_fails(envelope: Envelope, frame: Seq<u8>, opened: Result<Vec<u8>, Error>)
    requires
        frame.len() < envelope.nonce_len + envelope.tag_len,
        opening(envelope, frame, opened),
    ensures
        opened == Err::<Vec<u8>, Error>(Error::InvalidMessage),
{
}

} // verus!
