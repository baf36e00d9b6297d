//! The layout of a frame on the wire: the nonce, then the ciphertext, then
//! the authentication tag.

use vstd::prelude::*;
use vstd::slice::{slice_subrange, slice_to_vec};

verus! {

/// The frame made of a nonce and of what the cipher sealed under it.
pub open spec fn spec_frame(nonce: Seq<u8>, sealed: Seq<u8>) -> Seq<u8> {
    nonce + sealed
}

/// The nonce of a frame whose nonces are `nonce_len` long.
pub open spec fn frame_nonce(frame: Seq<u8>, nonce_len: int) -> Seq<u8> {
    frame.subrange(0, nonce_len)
}

/// What follows the nonce in a frame: the ciphertext and the tag.
pub open spec fn frame_body(frame: Seq<u8>, nonce_len: int) -> Seq<u8> {
    frame.subrange(nonce_len, frame.len() as int)
}

/// A frame is long enough to hold a nonce and a tag.
pub open spec fn frame_fits(frame: Seq<u8>, nonce_len: int, tag_len: int) -> bool {
    frame.len() >= nonce_len + tag_len
}

/// Puts a frame together.
pub fn assemble_frame(nonce: &[u8], sealed: &[u8]) -> (frame: Vec<u8>)
    ensures
        frame@ == spec_frame(nonce@, sealed@),
{
    let mut frame: Vec<u8> = slice_to_vec(nonce);
    frame.extend_from_slice(sealed);
    frame
}

/// Takes a frame apart at the lengths the cipher fixes. A frame too short
/// to hold a nonce and a tag has no parts.
pub fn split_frame(frame: &[u8], nonce_len: usize, tag_len: usize) -> (parts: Option<(&[u8], &[u8])>)
    ensures
        match parts {
            Some((nonce, body)) => {
                &&& frame_fits(frame@, nonce_len as int, tag_len as int)
                &&& nonce@ == frame_nonce(frame@, nonce_len as int)
                &&& body@ == frame_body(frame@, nonce_len as int)
            },
            None => !frame_fits(frame@, nonce_len as int, tag_len as int),
        },
{
    let len = frame.len();
    if len < nonce_len || len - nonce_len < tag_len {
        return None;
    }
    let nonce = slice_subrange(frame, 0, nonce_len);
    let body = slice_subrange(frame, nonce_len, len);
    Some((nonce, body))
}

/// Taking apart what was put together gives the parts back.
pub proof fn lemma_split_assembled(nonce: Seq<u8>, sealed: Seq<u8>)
    ensures
        frame_nonce(spec_frame(nonce, sealed), nonce.len() as int) == nonce,
        frame_body(spec_frame(nonce, sealed), nonce.len() as int) == sealed,
        spec_frame(nonce, sealed).len() == nonce.len() + sealed.len(),
{
    assert(frame_nonce(spec_frame(nonce, sealed), nonce.len() as int) =~= nonce);
    assert(frame_body(spec_frame(nonce, sealed), nonce.len() as int) =~= sealed);
}

} // verus!
