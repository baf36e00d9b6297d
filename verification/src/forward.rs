//! The forwarding decisions: where a packet read from the virtual interface
//! goes, and whether a datagram received from a peer is let in.
//!
//! On the wire every sealed payload is the client's token, eight bytes with
//! the most significant first, followed by the whole IPv4 packet. The
//! client's identifier is the address of its end of the tunnel: the source
//! of the packets it sends and the destination of those sent to it.

use vstd::prelude::*;
use vstd::slice::{slice_subrange, slice_to_vec};
use crate::address::{ClientId, ClientMetadata, ClientToken, SocketAddress};
use crate::buffer::{spec_buff_len, AKARIN_PACKET_OFFSET, AKARIN_USERTOKEN_LEN, AKARIN_ZERO_BYTES};
use crate::crypto::frame::assemble_frame;
use crate::crypto::{is_frame_of, Crypto, Envelope};
use crate::error::Error;
use crate::registry::Registry;
use crate::server::ClientStorage;
use crate::transport::network::{
    read_u64_be, spec_header, spec_u64_be, write_u64_be, IPv4Header, IPV4_HEADER_LEN,
};

verus! {

/// Why a packet or a datagram went no further. None of these ends the
/// tunnel.
#[derive(Clone, Copy, Debug, PartialEq, Eq, Structural)]
pub enum Dropped {
    /// It is too short to hold what it must.
    Malformed,
    /// Its destination is not a live client.
    NoRoute,
    /// The cipher could not seal it.
    SealFailed,
    /// It does not authenticate under the key.
    Unauthenticated,
    /// Its claim is turned away: the identifier is another's, or the token
    /// is not the receiver's own.
    Rejected,
}

/// What to do with a packet read from the virtual interface.
#[derive(Debug)]
pub enum Outbound {
    /// Send the frame to the peer.
    Send { frame: Vec<u8>, peer: SocketAddress },
    /// Send nothing.
    Drop(Dropped),
}

/// What to do with a datagram received from a peer.
#[derive(Debug)]
pub enum Inbound {
    /// Write the packet to the virtual interface.
    Deliver(Vec<u8>),
    /// Write nothing.
    Drop(Dropped),
}

/// `payload` carries `token` and `packet`.
pub open spec fn is_payload_of(payload: Seq<u8>, token: ClientToken, packet: Seq<u8>) -> bool {
    &&& payload.len() == AKARIN_USERTOKEN_LEN + packet.len()
    &&& spec_u64_be(payload) == token
    &&& payload.skip(AKARIN_PACKET_OFFSET as int) == packet
}

/// The packet a payload carries.
pub open spec fn payload_packet(payload: Seq<u8>) -> Seq<u8> {
    payload.skip(AKARIN_PACKET_OFFSET as int)
}

/// The identifier and the metadata that a payload received from `sender`
/// claims: the source address of its packet, its token, and the sender.
/// A payload too short for a token and an IPv4 header claims nothing.
pub open spec fn spec_claim(payload: Seq<u8>, sender: SocketAddress) -> Option<(ClientId, ClientMetadata)> {
    if payload.len() < AKARIN_USERTOKEN_LEN + IPV4_HEADER_LEN {
        None
    } else {
        Some((spec_header(payload_packet(payload)).source_address, (spec_u64_be(payload), sender)))
    }
}

/// Where a packet read from the virtual interface goes: to the live client
/// whose identifier is the packet's destination address.
pub open spec fn spec_route(registry: Registry, packet: Seq<u8>) -> Result<ClientMetadata, Dropped> {
    if packet.len() < IPV4_HEADER_LEN {
        Err(Dropped::Malformed)
    } else if registry.is_live(spec_header(packet).destination_address) {
        Ok(registry.bindings[spec_header(packet).destination_address])
    } else {
        Err(Dropped::NoRoute)
    }
}

/// A claim is let in when the identifier is live with exactly the metadata
/// presented, and when the identifier is free: a first contact.
pub open spec fn authorizes(registry: Registry, id: ClientId, meta: ClientMetadata) -> bool {
    registry.matches(id, meta) || registry.free.contains(id)
}

/// What becomes of a payload that authenticated, received from `sender`
/// while the registry was `before`: the outcome and the registry after.
pub open spec fn spec_accept(
    before: Registry,
    after: Registry,
    payload: Seq<u8>,
    sender: SocketAddress,
    outcome: Inbound,
) -> bool {
    match spec_claim(payload, sender) {
        None => outcome == Inbound::Drop(Dropped::Malformed) && after == before,
        Some((id, meta)) => if authorizes(before, id, meta) {
            &&& outcome matches Inbound::Deliver(packet)
            &&& outcome->Deliver_0@ == payload_packet(payload)
            &&& after == before.bound(id, meta, after.stamps[id])
        } else {
            outcome == Inbound::Drop(Dropped::Rejected) && after == before
        },
    }
}

/// What becomes of a packet read from the virtual interface. With a route,
/// it is sent to the client's address in a frame of the payload that
/// carries the client's token and the packet, or dropped where the cipher
/// could not seal it; without one, it is dropped for the reason
/// `spec_route` gives.
pub open spec fn spec_send(crypto: Envelope, registry: Registry, packet: Seq<u8>, action: Outbound) -> bool {
    match spec_route(registry, packet) {
        Ok(meta) => match action {
            Outbound::Send { frame, peer } => {
                &&& peer == meta.1
                &&& exists|payload: Seq<u8>|
                    is_payload_of(payload, meta.0, packet) && #[trigger] is_frame_of(crypto, frame@, payload)
            },
            Outbound::Drop(reason) => reason == Dropped::SealFailed,
        },
        Err(reason) => action == Outbound::Drop(reason),
    }
}

/// What becomes, at a client, of a payload that authenticated: its packet
/// is delivered where the payload holds a token and an IPv4 header and the
/// token is the client's own.
pub open spec fn spec_receive(token: ClientToken, payload: Seq<u8>, outcome: Inbound) -> bool {
    if payload.len() < AKARIN_USERTOKEN_LEN + IPV4_HEADER_LEN {
        outcome == Inbound::Drop(Dropped::Malformed)
    } else if spec_u64_be(payload) != token {
        outcome == Inbound::Drop(Dropped::Rejected)
    } else {
        outcome matches Inbound::Deliver(packet) && outcome->Deliver_0@ == payload_packet(payload)
    }
}

/// What becomes, at a client, of a packet read from the virtual interface:
/// it is sent to the server in a frame of the payload that carries the
/// client's token and the packet, or dropped where it is shorter than an
/// IPv4 header or the cipher could not seal it.
pub open spec fn spec_upload(
    crypto: Envelope,
    token: ClientToken,
    server: SocketAddress,
    packet: Seq<u8>,
    action: Outbound,
) -> bool {
    if packet.len() < IPV4_HEADER_LEN {
        action == Outbound::Drop(Dropped::Malformed)
    } else {
        match action {
            Outbound::Send { frame, peer } => {
                &&& peer == server
                &&& exists|payload: Seq<u8>|
                    is_payload_of(payload, token, packet) && #[trigger] is_frame_of(crypto, frame@, payload)
            },
            Outbound::Drop(reason) => reason == Dropped::SealFailed,
        }
    }
}

/// A buffer made for an MTU holds the frame of every packet up to that
/// size, under any cipher whose nonce and tag fit the bytes set aside for
/// the envelope.
pub proof fn lemma_frame_fits_buffer(
    envelope: Envelope,
    mtu: nat,
    token: ClientToken,
    packet: Seq<u8>,
    payload: Seq<u8>,
    frame: Seq<u8>,
)
    requires
        packet.len() <= mtu,
        is_payload_of(payload, token, packet),
        is_frame_of(envelope, frame, payload),
        envelope.nonce_len + envelope.tag_len <= AKARIN_ZERO_BYTES,
    ensures
        frame.len() <= spec_buff_len(mtu as int),
{
}

/// The payload that carries `token` and `packet`.
pub fn wrap_packet(token: ClientToken, packet: &[u8]) -> (payload: Vec<u8>)
    ensures
        is_payload_of(payload@, token, packet@),
{
    let head = write_u64_be(token);
    let payload = assemble_frame(head.as_slice(), packet);
    proof {
        assert(payload@.skip(4).take(4) =~= head@.skip(4).take(4));
        assert(payload@.skip(AKARIN_PACKET_OFFSET as int) =~= packet@);
        assert(spec_u64_be(payload@) == spec_u64_be(head@));
    }
    payload
}

/// The token and the packet a payload carries, or nothing where the
/// payload is too short to hold a token.
pub fn unwrap_packet(payload: &[u8]) -> (parts: Option<(ClientToken, &[u8])>)
    ensures
        match parts {
            Some((token, packet)) => is_payload_of(payload@, token, packet@),
            None => payload@.len() < AKARIN_USERTOKEN_LEN,
        },
{
    if payload.len() < AKARIN_USERTOKEN_LEN {
        return None;
    }
    let token = read_u64_be(payload);
    let packet = slice_subrange(payload, AKARIN_PACKET_OFFSET, payload.len());
    Some((token, packet))
}

/// Where a packet read from the virtual interface goes. A packet shorter
/// than an IPv4 header is malformed; one whose destination is not a live
/// client has no route.
pub fn route(clients: &ClientStorage, packet: &[u8]) -> (target: Result<ClientMetadata, Dropped>)
    ensures
        target == spec_route(clients@, packet@),
{
    let header = match IPv4Header::parse(packet) {
        Some(header) => header,
        None => {
            return Err(Dropped::Malformed);
        },
    };
    match clients.get(header.destination_address) {
        Some(meta) => Ok(*meta),
        None => Err(Dropped::NoRoute),
    }
}

/// What to do with a packet once the cipher has had it: send the frame to
/// the peer, or drop the packet where the cipher gave no frame.
pub fn send_frame(sealed: Result<Vec<u8>, Error>, peer: SocketAddress) -> (action: Outbound)
    ensures
        match sealed {
            Ok(frame) => action == (Outbound::Send { frame, peer }),
            Err(_) => action == Outbound::Drop(Dropped::SealFailed),
        },
{
    match sealed {
        Ok(frame) => Outbound::Send { frame, peer },
        Err(_) => Outbound::Drop(Dropped::SealFailed),
    }
}

/// The path from the virtual interface to the peers. A packet with a route
/// is sealed whole, together with the client's token, and sent to the
/// client's address; it is dropped only where the cipher cannot seal it.
/// Every other packet is dropped for the reason `spec_route` gives.
pub fn tun_to_udp<C: Crypto>(clients: &ClientStorage, crypto: &C, packet: &[u8]) -> (action: Outbound)
    ensures
        spec_send(crypto.envelope(), clients@, packet@, action),
{
    let (token, peer) = match route(clients, packet) {
        Ok(meta) => meta,
        Err(reason) => {
            return Outbound::Drop(reason);
        },
    };
    let payload = wrap_packet(token, packet);
    let sealed = crypto.encrypt(payload.as_slice());
    assert(sealed is Ok ==> is_frame_of(crypto.envelope(), sealed->Ok_0@, payload@));
    let action = send_frame(sealed, peer);
    assert(action matches Outbound::Send { frame, peer: to } ==> to == peer && is_frame_of(
        crypto.envelope(),
        frame@,
        payload@,
    ));
    action
}

/// Lets a claim in or turns it away. A claim that is let in binds the
/// identifier to the metadata and restarts its expiry clock; one that is
/// turned away changes nothing.
pub fn authorize(clients: &mut ClientStorage, id: ClientId, meta: &ClientMetadata) -> (authorized: bool)
    ensures
        old(clients)@.wf() ==> {
            &&& final(clients)@.wf()
            &&& authorized == authorizes(old(clients)@, id, *meta)
            &&& authorized ==> final(clients)@ == old(clients)@.bound(id, *meta, final(clients)@.stamps[id])
            &&& !authorized ==> final(clients)@ == old(clients)@
        },
{
    if !clients.compare_client(id, meta) {
        if clients.reserve_id(id).is_err() {
            return false;
        }
    }
    let refreshed = clients.refresh_client(id, meta);
    proof {
        if old(clients)@.wf() {
            assert(refreshed is Ok);
            assert(clients@ =~= old(clients)@.bound(id, *meta, clients@.stamps[id]));
        }
    }
    refreshed.is_ok()
}

/// Takes in a payload that authenticated: reads the claim it makes, and
/// delivers its packet where the claim is let in.
pub fn accept_payload(clients: &mut ClientStorage, payload: &[u8], sender: SocketAddress) -> (outcome: Inbound)
    ensures
        old(clients)@.wf() ==> final(clients)@.wf() && spec_accept(
            old(clients)@,
            final(clients)@,
            payload@,
            sender,
            outcome,
        ),
{
    let (token, packet) = match unwrap_packet(payload) {
        Some(parts) => parts,
        None => {
            return Inbound::Drop(Dropped::Malformed);
        },
    };
    let header = match IPv4Header::parse(packet) {
        Some(header) => header,
        None => {
            return Inbound::Drop(Dropped::Malformed);
        },
    };
    let meta: ClientMetadata = (token, sender);
    if !authorize(clients, header.source_address, &meta) {
        return Inbound::Drop(Dropped::Rejected);
    }
    Inbound::Deliver(slice_to_vec(packet))
}

/// The path from the peers to the virtual interface. A datagram that does
/// not authenticate is dropped and changes nothing; one that does is taken
/// in as `spec_accept` says of the payload it was sealed from.
pub fn udp_to_tun<C: Crypto>(
    clients: &mut ClientStorage,
    crypto: &C,
    datagram: &[u8],
    sender: SocketAddress,
) -> (outcome: Inbound)
    ensures
        old(clients)@.wf() ==> final(clients)@.wf(),
        (forall|payload: Seq<u8>| !is_frame_of(crypto.envelope(), datagram@, payload)) ==> outcome == Inbound::Drop(
            Dropped::Unauthenticated,
        ) && final(clients)@ == old(clients)@,
        old(clients)@.wf() ==> forall|payload: Seq<u8>| #[trigger]
            is_frame_of(crypto.envelope(), datagram@, payload) ==> spec_accept(
                old(clients)@,
                final(clients)@,
                payload,
                sender,
                outcome,
            ),
{
    match crypto.decrypt(datagram) {
        Ok(payload) => {
            assert(is_frame_of(crypto.envelope(), datagram@, payload@));
            accept_payload(clients, payload.as_slice(), sender)
        },
        Err(_) => Inbound::Drop(Dropped::Unauthenticated),
    }
}

/// A client's path from the virtual interface to the server.
pub fn client_to_server<C: Crypto>(
    crypto: &C,
    token: ClientToken,
    server: SocketAddress,
    packet: &[u8],
) -> (action: Outbound)
    ensures
        spec_upload(crypto.envelope(), token, server, packet@, action),
{
    if packet.len() < IPV4_HEADER_LEN {
        return Outbound::Drop(Dropped::Malformed);
    }
    let payload = wrap_packet(token, packet);
    let sealed = crypto.encrypt(payload.as_slice());
    assert(sealed is Ok ==> is_frame_of(crypto.envelope(), sealed->Ok_0@, payload@));
    let action = send_frame(sealed, server);
    assert(action matches Outbound::Send { frame, peer } ==> peer == server && is_frame_of(
        crypto.envelope(),
        frame@,
        payload@,
    ));
    action
}

/// Takes in, at a client, a payload that authenticated.
pub fn receive_payload(token: ClientToken, payload: &[u8]) -> (outcome: Inbound)
    ensures
        spec_receive(token, payload@, outcome),
{
    let (sent_to, packet) = match unwrap_packet(payload) {
        Some(parts) => parts,
        None => {
            return Inbound::Drop(Dropped::Malformed);
        },
    };
    if packet.len() < IPV4_HEADER_LEN {
        return Inbound::Drop(Dropped::Malformed);
    }
    if sent_to != token {
        return Inbound::Drop(Dropped::Rejected);
    }
    Inbound::Deliver(slice_to_vec(packet))
}

/// A client's path from the server to the virtual interface. A datagram
/// that does not authenticate is dropped; one that does is taken in as
/// `spec_receive` says of the payload it was sealed from.
pub fn server_to_client<C: Crypto>(crypto: &C, token: ClientToken, datagram: &[u8]) -> (outcome: Inbound)
    ensures
        (forall|payload: Seq<u8>| !is_frame_of(crypto.envelope(), datagram@, payload)) ==> outcome == Inbound::Drop(
            Dropped::Unauthenticated,
        ),
        forall|payload: Seq<u8>| #[trigger]
            is_frame_of(crypto.envelope(), datagram@, payload) ==> spec_receive(token, payload, outcome),
{
    match crypto.decrypt(datagram) {
        Ok(payload) => {
            assert(is_frame_of(crypto.envelope(), datagram@, payload@));
            receive_payload(token, payload.as_slice())
        },
        Err(_) => Inbound::Drop(Dropped::Unauthenticated),
    }
}

} // verus!
