use akarin::address::{ClientMetadata, SocketAddress};
use akarin::buffer::{new_buff, AKARIN_PACKET_OFFSET, AKARIN_USERTOKEN_LEN, AKARIN_ZERO_BYTES};
use akarin::configuration::{
    ClientConfiguration, ServerConfiguration, DEFAULT_CLIENT_TIMEOUT, DEFAULT_MTU,
};
use akarin::crypto::chacha20_poly1305::ChaCha20Poly1305;
use akarin::crypto::Crypto;
use akarin::error::Error;
use akarin::forward::{
    accept_payload, authorize, client_to_server, receive_payload, route, send_frame, server_to_client, tun_to_udp,
    udp_to_tun, unwrap_packet, wrap_packet, Dropped, Inbound, Outbound,
};
use akarin::server::ClientStorage;
use akarin::state::{Mode, State};

const SUBNET: std::ops::Range<u32> = 0x0A00_0000..0x0A00_0100;
const CLIENT: u32 = 0x0A00_0005;
const SERVER: u32 = 0x0A00_0001;

fn cipher() -> ChaCha20Poly1305 {
    ChaCha20Poly1305::new(b"realityone").unwrap()
}

fn first_sender() -> SocketAddress {
    SocketAddress::V4 { ip: 0xCB00_7101, port: 40_000 }
}

fn second_sender() -> SocketAddress {
    SocketAddress::V4 { ip: 0xC633_6402, port: 40_001 }
}

/// An IPv4 packet of `source` and `destination` with a few bytes of data.
fn packet(source: u32, destination: u32) -> Vec<u8> {
    let mut bytes = vec![0x45, 0, 0, 24, 0, 0, 0x40, 0, 64, 17, 0, 0];
    bytes.extend_from_slice(&source.to_be_bytes());
    bytes.extend_from_slice(&destination.to_be_bytes());
    bytes.extend_from_slice(&[0xDE, 0xAD, 0xBE, 0xEF]);
    bytes
}

fn datagram(crypto: &ChaCha20Poly1305, token: u64, packet: &[u8]) -> Vec<u8> {
    crypto.encrypt(&wrap_packet(token, packet)).unwrap()
}

fn delivered(outcome: Inbound) -> Vec<u8> {
    match outcome {
        Inbound::Deliver(packet) => packet,
        Inbound::Drop(reason) => panic!("dropped: {:?}", reason),
    }
}

fn dropped(outcome: Inbound) -> Dropped {
    match outcome {
        Inbound::Deliver(packet) => panic!("delivered: {:?}", packet),
        Inbound::Drop(reason) => reason,
    }
}

#[test]
fn payload_is_token_then_packet() {
    let payload = wrap_packet(0x0102_0304_0506_0708, &[9, 10, 11]);
    assert_eq!(payload, vec![1, 2, 3, 4, 5, 6, 7, 8, 9, 10, 11]);
    assert_eq!(wrap_packet(0xAABB, &[]), vec![0, 0, 0, 0, 0, 0, 0xAA, 0xBB]);
    assert_eq!(AKARIN_PACKET_OFFSET, 8);
    assert_eq!(AKARIN_USERTOKEN_LEN, 8);
}

#[test]
fn payload_is_taken_apart() {
    let payload = [1u8, 2, 3, 4, 5, 6, 7, 8, 9, 10, 11];
    assert_eq!(unwrap_packet(&payload), Some((0x0102_0304_0506_0708, &payload[8..])));
    assert_eq!(unwrap_packet(&payload[..8]), Some((0x0102_0304_0506_0708, &payload[8..8])));
    assert_eq!(unwrap_packet(&payload[..7]), None);
    assert_eq!(unwrap_packet(&[]), None);
    assert_eq!(unwrap_packet(&[0xFF; 8]), Some((u64::MAX, &[][..])));
}

#[test]
fn registration_binds_the_claimed_id() {
    let crypto = cipher();
    let mut clients = ClientStorage::new(SUBNET, 60);
    let sent = packet(CLIENT, SERVER);
    let outcome = udp_to_tun(&mut clients, &crypto, &datagram(&crypto, 0xAABB, &sent), first_sender());
    assert_eq!(delivered(outcome), sent);
    assert_eq!(clients.get(CLIENT), Some(&(0xAABB, first_sender())));
    assert!(!clients.available_ids().contains(&CLIENT));
    assert_eq!(clients.available_ids().len(), 255);
}

#[test]
fn spoofed_claim_is_dropped() {
    let crypto = cipher();
    let mut clients = ClientStorage::new(SUBNET, 60);
    let sent = packet(CLIENT, SERVER);
    delivered(udp_to_tun(&mut clients, &crypto, &datagram(&crypto, 0xAABB, &sent), first_sender()));

    let spoofed = udp_to_tun(&mut clients, &crypto, &datagram(&crypto, 0xCCDD, &sent), second_sender());
    assert_eq!(dropped(spoofed), Dropped::Rejected);
    assert_eq!(clients.get(CLIENT), Some(&(0xAABB, first_sender())));

    // the right token from another address is no match either
    let moved = udp_to_tun(&mut clients, &crypto, &datagram(&crypto, 0xAABB, &sent), second_sender());
    assert_eq!(dropped(moved), Dropped::Rejected);
    // nor the right address with another token
    let guessed = udp_to_tun(&mut clients, &crypto, &datagram(&crypto, 0xAABC, &sent), first_sender());
    assert_eq!(dropped(guessed), Dropped::Rejected);
    assert_eq!(clients.get(CLIENT), Some(&(0xAABB, first_sender())));

    // the owner still gets through
    let again = udp_to_tun(&mut clients, &crypto, &datagram(&crypto, 0xAABB, &sent), first_sender());
    assert_eq!(delivered(again), sent);
}

#[test]
fn short_tun_read_is_dropped_and_the_next_packet_goes_on() {
    let crypto = cipher();
    let mut clients = ClientStorage::new(SUBNET, 60);
    clients.reserve_id(CLIENT).unwrap();
    clients.refresh_client(CLIENT, &(0xAABB, first_sender())).unwrap();

    let whole = packet(SERVER, CLIENT);
    match tun_to_udp(&clients, &crypto, &whole[..10]) {
        Outbound::Drop(reason) => assert_eq!(reason, Dropped::Malformed),
        Outbound::Send { .. } => panic!("a short packet was sent"),
    }
    assert_eq!(clients.get(CLIENT), Some(&(0xAABB, first_sender())));
    match tun_to_udp(&clients, &crypto, &whole) {
        Outbound::Send { frame, peer } => {
            assert_eq!(peer, first_sender());
            assert_eq!(crypto.decrypt(&frame), Ok(wrap_packet(0xAABB, &whole)));
        },
        Outbound::Drop(reason) => panic!("dropped: {:?}", reason),
    }
}

#[test]
fn route_follows_the_destination_address() {
    let mut clients = ClientStorage::new(SUBNET, 60);
    let meta: ClientMetadata = (7, first_sender());
    clients.reserve_id(CLIENT).unwrap();
    clients.refresh_client(CLIENT, &meta).unwrap();
    assert_eq!(route(&clients, &packet(SERVER, CLIENT)), Ok(meta));
    // the source address plays no part
    assert_eq!(route(&clients, &packet(CLIENT, SERVER)), Err(Dropped::NoRoute));
    assert_eq!(route(&clients, &packet(SERVER, CLIENT + 1)), Err(Dropped::NoRoute));
    assert_eq!(route(&clients, &packet(SERVER, CLIENT)[..19]), Err(Dropped::Malformed));
    assert_eq!(route(&clients, &[]), Err(Dropped::Malformed));
    // a header alone is a packet
    assert_eq!(route(&clients, &packet(SERVER, CLIENT)[..20]), Ok(meta));
    clients.remove_client(CLIENT);
    assert_eq!(route(&clients, &packet(SERVER, CLIENT)), Err(Dropped::NoRoute));
}

#[test]
fn packet_for_an_unbound_client_is_dropped() {
    let crypto = cipher();
    let mut clients = ClientStorage::new(SUBNET, 60);
    clients.reserve_id(CLIENT).unwrap();
    match tun_to_udp(&clients, &crypto, &packet(SERVER, CLIENT)) {
        Outbound::Drop(reason) => assert_eq!(reason, Dropped::NoRoute),
        Outbound::Send { .. } => panic!("sent to a client without an address"),
    }
}

#[test]
fn unauthenticated_datagram_is_dropped() {
    let crypto = cipher();
    let stranger = ChaCha20Poly1305::new(b"someone else").unwrap();
    let mut clients = ClientStorage::new(SUBNET, 60);
    let sent = packet(CLIENT, SERVER);
    let outcome = udp_to_tun(&mut clients, &crypto, &datagram(&stranger, 0xAABB, &sent), first_sender());
    assert_eq!(dropped(outcome), Dropped::Unauthenticated);
    let outcome = udp_to_tun(&mut clients, &crypto, &[0u8; 64], first_sender());
    assert_eq!(dropped(outcome), Dropped::Unauthenticated);
    let outcome = udp_to_tun(&mut clients, &crypto, &[], first_sender());
    assert_eq!(dropped(outcome), Dropped::Unauthenticated);
    assert_eq!(clients.get(CLIENT), None);
    assert_eq!(clients.available_ids().len(), 256);
}

#[test]
fn authenticated_payload_too_short_for_a_claim_is_dropped() {
    let crypto = cipher();
    let mut clients = ClientStorage::new(SUBNET, 60);
    let sent = packet(CLIENT, SERVER);
    for len in [0usize, 7, 8, 27] {
        let payload = wrap_packet(0xAABB, &sent);
        let frame = crypto.encrypt(&payload[..len]).unwrap();
        let outcome = udp_to_tun(&mut clients, &crypto, &frame, first_sender());
        assert_eq!(dropped(outcome), Dropped::Malformed);
        assert_eq!(dropped(accept_payload(&mut clients, &payload[..len], first_sender())), Dropped::Malformed);
    }
    assert_eq!(clients.available_ids().len(), 256);
    let payload = wrap_packet(0xAABB, &sent);
    assert_eq!(delivered(accept_payload(&mut clients, &payload[..28], first_sender())), &sent[..20]);
}

#[test]
fn claim_outside_the_range_is_rejected() {
    let crypto = cipher();
    let mut clients = ClientStorage::new(SUBNET, 60);
    let sent = packet(0x0B00_0005, SERVER);
    let outcome = udp_to_tun(&mut clients, &crypto, &datagram(&crypto, 1, &sent), first_sender());
    assert_eq!(dropped(outcome), Dropped::Rejected);
    assert_eq!(clients.get(0x0B00_0005), None);
    assert_eq!(clients.available_ids().len(), 256);
}

#[test]
fn claim_of_a_reserved_id_is_rejected() {
    let mut clients = ClientStorage::new(SUBNET, 60);
    clients.reserve_id(CLIENT).unwrap();
    assert!(!authorize(&mut clients, CLIENT, &(1, first_sender())));
    assert_eq!(clients.get(CLIENT), None);
    assert!(authorize(&mut clients, CLIENT + 1, &(1, first_sender())));
    assert!(authorize(&mut clients, CLIENT + 1, &(1, first_sender())));
    assert!(!authorize(&mut clients, CLIENT + 1, &(2, first_sender())));
    assert_eq!(clients.get(CLIENT + 1), Some(&(1, first_sender())));
}

#[test]
fn every_authenticated_packet_refreshes_the_binding() {
    let crypto = cipher();
    let mut clients = ClientStorage::new(SUBNET, 4);
    let sent = packet(CLIENT, SERVER);
    let start = std::time::Instant::now();
    delivered(udp_to_tun(&mut clients, &crypto, &datagram(&crypto, 9, &sent), first_sender()));
    while start.elapsed().as_millis() < 3100 {
        std::hint::spin_loop();
    }
    delivered(udp_to_tun(&mut clients, &crypto, &datagram(&crypto, 9, &sent), first_sender()));
    while start.elapsed().as_millis() < 5100 {
        std::hint::spin_loop();
    }
    clients.prune();
    assert_eq!(clients.get(CLIENT), Some(&(9, first_sender())));
}

#[test]
fn packet_the_cipher_could_not_seal_is_dropped() {
    match send_frame(Err(Error::RandomFailed), first_sender()) {
        Outbound::Drop(reason) => assert_eq!(reason, Dropped::SealFailed),
        Outbound::Send { .. } => panic!("sent without a frame"),
    }
    match send_frame(Err(Error::MessageTooLong), first_sender()) {
        Outbound::Drop(reason) => assert_eq!(reason, Dropped::SealFailed),
        Outbound::Send { .. } => panic!("sent without a frame"),
    }
    match send_frame(Ok(vec![1, 2, 3]), second_sender()) {
        Outbound::Send { frame, peer } => {
            assert_eq!(frame, vec![1, 2, 3]);
            assert_eq!(peer, second_sender());
        },
        Outbound::Drop(reason) => panic!("dropped: {:?}", reason),
    }
}

#[test]
fn both_directions_meet() {
    let crypto = cipher();
    let mut clients = ClientStorage::new(SUBNET, 60);
    let up = packet(CLIENT, SERVER);
    delivered(udp_to_tun(&mut clients, &crypto, &datagram(&crypto, 0xAABB, &up), first_sender()));
    let down = packet(SERVER, CLIENT);
    let frame = match tun_to_udp(&clients, &crypto, &down) {
        Outbound::Send { frame, peer } => {
            assert_eq!(peer, first_sender());
            frame
        },
        Outbound::Drop(reason) => panic!("dropped: {:?}", reason),
    };
    assert_eq!(frame.len(), 12 + 8 + down.len() + 16);
    let payload = crypto.decrypt(&frame).unwrap();
    assert_eq!(unwrap_packet(&payload), Some((0xAABB, &down[..])));
}

#[test]
fn client_and_server_talk_both_ways() {
    let crypto = cipher();
    let mut clients = ClientStorage::new(SUBNET, 60);
    let server_address = second_sender();

    // up: the client's packet registers it at the server
    let up = packet(CLIENT, SERVER);
    let frame = match client_to_server(&crypto, 0xAABB, server_address, &up) {
        Outbound::Send { frame, peer } => {
            assert_eq!(peer, server_address);
            frame
        },
        Outbound::Drop(reason) => panic!("dropped: {:?}", reason),
    };
    assert_eq!(delivered(udp_to_tun(&mut clients, &crypto, &frame, first_sender())), up);
    assert_eq!(clients.get(CLIENT), Some(&(0xAABB, first_sender())));

    // down: the server's answer reaches the client
    let down = packet(SERVER, CLIENT);
    let frame = match tun_to_udp(&clients, &crypto, &down) {
        Outbound::Send { frame, .. } => frame,
        Outbound::Drop(reason) => panic!("dropped: {:?}", reason),
    };
    assert_eq!(delivered(server_to_client(&crypto, 0xAABB, &frame)), down);
    // another client turns it away
    assert_eq!(dropped(server_to_client(&crypto, 0xAABC, &frame)), Dropped::Rejected);
}

#[test]
fn client_drops_what_it_cannot_use() {
    let crypto = cipher();
    let stranger = ChaCha20Poly1305::new(b"someone else").unwrap();
    let whole = packet(CLIENT, SERVER);
    match client_to_server(&crypto, 1, first_sender(), &whole[..19]) {
        Outbound::Drop(reason) => assert_eq!(reason, Dropped::Malformed),
        Outbound::Send { .. } => panic!("a short packet was sent"),
    }
    assert_eq!(dropped(server_to_client(&crypto, 1, &datagram(&stranger, 1, &whole))), Dropped::Unauthenticated);
    assert_eq!(dropped(server_to_client(&crypto, 1, &[0u8; 11])), Dropped::Unauthenticated);
    assert_eq!(dropped(server_to_client(&crypto, 1, &crypto.encrypt(&[0u8; 27]).unwrap())), Dropped::Malformed);
    assert_eq!(dropped(receive_payload(1, &wrap_packet(1, &whole[..19]))), Dropped::Malformed);
    assert_eq!(dropped(receive_payload(1, &wrap_packet(2, &whole))), Dropped::Rejected);
    assert_eq!(dropped(receive_payload(1, &[])), Dropped::Malformed);
    assert_eq!(delivered(receive_payload(1, &wrap_packet(1, &whole))), whole);
    assert_eq!(delivered(receive_payload(1, &wrap_packet(1, &whole[..20]))), &whole[..20]);
}

#[test]
fn buffers_hold_a_packet_and_its_overhead() {
    assert_eq!(AKARIN_ZERO_BYTES, 32);
    assert_eq!(new_buff(1432), vec![0u8; 1472]);
    assert_eq!(new_buff(0), vec![0u8; 40]);
    assert_eq!(new_buff(1).len(), 41);
}

#[test]
fn configuration_defaults_and_setters() {
    let mut server = ServerConfiguration::default();
    assert_eq!(server.mtu_or_default(), 1432);
    assert_eq!(server.client_timeout_or_default(), 60);
    assert_eq!(DEFAULT_MTU, 1432);
    assert_eq!(DEFAULT_CLIENT_TIMEOUT, 60);
    server.mtu(1400).client_timeout(30);
    assert_eq!(server.mtu_or_default(), 1400);
    assert_eq!(server.client_timeout_or_default(), 30);
    server.client_timeout(5);
    assert_eq!(server.mtu_or_default(), 1400);
    assert_eq!(server.client_timeout_or_default(), 5);

    let mut client = ClientConfiguration::default();
    assert_eq!(client.get_server_address(), None);
    assert_eq!(client.mtu_or_default(), 1432);
    client.server_address(first_sender()).mtu(1300);
    assert_eq!(client.get_server_address(), Some(first_sender()));
    assert_eq!(client.mtu_or_default(), 1300);
}

#[test]
fn errors_describe_themselves() {
    assert_eq!(Error::CapacityExceeded.description(), "max client exceed");
    assert_eq!(Error::UnknownClient.description(), "no such client id");
    assert_eq!(Error::ReserveFailed.description(), "reserve client id failed");
    assert_eq!(Error::InvalidMessage.description(), "invalid message");
    assert_eq!(Error::RandomFailed.description(), "random source failed");
    assert_eq!(Error::MessageTooLong.description(), "message too long");
    assert_eq!(Error::InitCryptoFailed.description(), "init crypto failed");
    assert_eq!(Error::TunNameTooLong.description(), "tun name too long");
    assert_eq!(Error::InvalidTunName.description(), "invalid tun name");
    assert_ne!(Mode::Server, Mode::Client);
    assert_ne!(State::Running, State::Down);
}
