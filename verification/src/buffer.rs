//! Packet buffers shared by the two forwarding directions.

use vstd::prelude::*;

verus! {

/// Bytes of a buffer set aside for the envelope: the nonce and the tag.
pub const AKARIN_ZERO_BYTES: usize = 32;

/// Offset of the packet inside a payload: it follows the token.
pub const AKARIN_PACKET_OFFSET: usize = 8;

/// Length of the client token that travels with every packet.
pub const AKARIN_USERTOKEN_LEN: usize = 8;

/// Length of a buffer that holds one packet of `mtu` bytes together with
/// the client token and the envelope.
pub open spec fn spec_buff_len(mtu: int) -> int {
    mtu + AKARIN_ZERO_BYTES as int + AKARIN_USERTOKEN_LEN as int
}

/// A zeroed buffer for one packet of at most `mtu` bytes.
pub fn new_buff(mtu: usize) -> (buff: Vec<u8>)
    requires
        spec_buff_len(mtu as int) <= usize::MAX,
    ensures
        buff@.len() == spec_buff_len(mtu as int),
        forall|i: int| 0 <= i < buff@.len() ==> buff@[i] == 0u8,
{
    let len: usize = mtu + AKARIN_ZERO_BYTES + AKARIN_USERTOKEN_LEN;
    let mut buff: Vec<u8> = Vec::new();
    let mut i: usize = 0;
    while i < len
        invariant
            i <= len,
            buff@.len() == i,
            forall|j: int| 0 <= j < buff@.len() ==> buff@[j] == 0u8,
        decreases len - i,
    {
        buff.push(0u8);
        i = i + 1;
    }
    buff
}

} // verus!
