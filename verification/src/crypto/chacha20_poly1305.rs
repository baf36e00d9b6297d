//! ChaCha20-Poly1305 under a key derived from a password.

use vstd::prelude::*;
use vstd::string::StringSliceAdditionalSpecFns;
use crate::crypto::frame::{assemble_frame, lemma_split_assembled, spec_frame, split_frame};
use crate::crypto::primitives::{
    bytes_of, chacha20_poly1305, derive_key, open, pbkdf2_hmac_sha256, random_bytes, seal, seals_to,
    KEY_LEN,
    MAX_HASH_INPUT_LEN, MAX_MESSAGE_LEN, NONCE_LEN, TAG_LEN,
};
use crate::crypto::{is_frame_of, Crypto, Envelope};
use crate::error::Error;

verus! {

/// Rounds of PBKDF2 that stretch the password into the key.
pub const KEY_ITERATIONS: u32 = 1024;

/// The key a password is stretched into: PBKDF2 with HMAC-SHA256, an empty
/// salt and `KEY_ITERATIONS` rounds.
pub open spec fn spec_key_of(password: Seq<u8>) -> Seq<u8> {
    pbkdf2_hmac_sha256(KEY_ITERATIONS, Seq::empty(), password, KEY_LEN as nat)
}

/// Why sealing `message` under `nonce` is refused, if it is: the message is
/// too long, or there is no nonce of the cipher's length.
pub open spec fn seal_refusal(nonce: Option<Seq<u8>>, message: Seq<u8>) -> Option<Error> {
    if message.len() > MAX_MESSAGE_LEN {
        Some(Error::MessageTooLong)
    } else if nonce is None || nonce->0.len() != NONCE_LEN {
        Some(Error::RandomFailed)
    } else {
        None
    }
}

/// The ChaCha20-Poly1305 envelope under the key that `password` is
/// stretched into. The password must not be longer than the hash takes.
pub fn init_crypto(password: &str) -> (crypto: Box<ChaCha20Poly1305>)
    requires
        password.spec_bytes().len() <= MAX_HASH_INPUT_LEN,
    ensures
        crypto.key() == spec_key_of(password.spec_bytes()),
{
    let crypto = ChaCha20Poly1305::new(password.as_bytes()).unwrap();
    Box::new(crypto)
}

/// The ChaCha20-Poly1305 envelope.
pub struct ChaCha20Poly1305 {
    key: Vec<u8>,
}

impl ChaCha20Poly1305 {
    #[verifier::type_invariant]
    closed spec fn well_formed(self) -> bool {
        self.key@.len() == KEY_LEN
    }

    /// The key the envelope seals and opens under.
    pub closed spec fn key(&self) -> Seq<u8> {
        self.key@
    }

    /// The envelope under the key that `password` is stretched into. It
    /// fails exactly when the password is longer than the hash takes.
    pub fn new(password: &[u8]) -> (crypto: Result<Self, Error>)
        ensures
            match crypto {
                Ok(crypto) => password@.len() <= MAX_HASH_INPUT_LEN && crypto.key() == spec_key_of(password@),
                Err(e) => password@.len() > MAX_HASH_INPUT_LEN && e == Error::InitCryptoFailed,
            },
    {
        if password.len() as u64 > MAX_HASH_INPUT_LEN {
            return Err(Error::InitCryptoFailed);
        }
        let salt: [u8; 0] = [];
        assert(salt@ =~= Seq::<u8>::empty());
        let key = derive_key(KEY_ITERATIONS, salt.as_slice(), password, KEY_LEN);
        Ok(ChaCha20Poly1305 { key })
    }

    /// The cipher's name.
    #[inline]
    pub fn name() -> (name: String)
        ensures
            name@ == "chacha20_poly1305"@,
    {
        "chacha20_poly1305".to_string()
    }

    /// Seals `message` into a frame under the nonce given: the nonce,
    /// followed by the ciphertext and the tag. A message longer than the
    /// cipher allows is refused; so is a nonce that is missing or not
    /// `NONCE_LEN` long.
    pub fn seal_with(&self, nonce: Option<Vec<u8>>, message: &[u8]) -> (frame: Result<Vec<u8>, Error>)
        ensures
            match seal_refusal(bytes_of(nonce), message@) {
                Some(e) => frame == Err::<Vec<u8>, Error>(e),
                None => {
                    &&& frame is Ok
                    &&& frame->Ok_0@ == spec_frame(nonce->0@, chacha20_poly1305(self.key(), nonce->0@, message@))
                    &&& is_frame_of(self.envelope(), frame->Ok_0@, message@)
                },
            },
    {
        proof {
            use_type_invariant(self);
        }
        if message.len() as u64 > MAX_MESSAGE_LEN {
            return Err(Error::MessageTooLong);
        }
        let nonce = match nonce {
            Some(nonce) => nonce,
            None => {
                return Err(Error::RandomFailed);
            },
        };
        if nonce.len() != NONCE_LEN {
            return Err(Error::RandomFailed);
        }
        match seal(self.key.as_slice(), nonce.as_slice(), message) {
            Some(sealed) => {
                let frame = assemble_frame(nonce.as_slice(), sealed.as_slice());
                proof {
                    lemma_split_assembled(nonce@, sealed@);
                }
                Ok(frame)
            },
            None => Err(Error::MessageTooLong),
        }
    }
}

impl Crypto for ChaCha20Poly1305 {
    open spec fn spec_name(&self) -> Seq<char> {
        "chacha20_poly1305"@
    }

    open spec fn envelope(&self) -> Envelope {
        Envelope {
            nonce_len: NONCE_LEN as nat,
            tag_len: TAG_LEN as nat,
            max_message_len: MAX_MESSAGE_LEN as nat,
            sealed: |nonce: Seq<u8>, message: Seq<u8>| chacha20_poly1305(self.key(), nonce, message),
        }
    }

    fn name(&self) -> (name: String) {
        Self::name()
    }

    fn nonce_len(&self) -> (len: usize) {
        NONCE_LEN
    }

    fn tag_len(&self) -> (len: usize) {
        TAG_LEN
    }

    fn encrypt(&self, message: &[u8]) -> (frame: Result<Vec<u8>, Error>) {
        let nonce = random_bytes(NONCE_LEN);
        self.seal_with(nonce, message)
    }

    fn decrypt(&self, cipher_text: &[u8]) -> (message: Result<Vec<u8>, Error>) {
        proof {
            use_type_invariant(self);
        }
        match split_frame(cipher_text, NONCE_LEN, TAG_LEN) {
            Some((nonce, body)) => {
                let opened = open(self.key.as_slice(), nonce, body);
                assert forall|m: Seq<u8>| #[trigger] is_frame_of(self.envelope(), cipher_text@, m) implies bytes_of(
                    opened,
                ) == Some(m) by {
                    assert(seals_to(self.key@, nonce@, m, body@));
                }
                match opened {
                    Some(message) => Ok(message),
                    None => Err(Error::InvalidMessage),
                }
            },
            None => Err(Error::InvalidMessage),
        }
    }
}

} // verus!
