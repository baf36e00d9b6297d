use akarin::transport::network::{IPv4Header, IPV4_HEADER_LEN};

const PING: [u8; 20] = [69, 0, 0, 84, 223, 18, 64, 0, 64, 1, 143, 234, 10, 0, 0, 2, 192, 168, 1, 2];

#[test]
fn test_ipv4_header() {
    assert_eq!(std::mem::size_of::<IPv4Header>(), 20);

    let data = [69, 0, 0, 84, 223, 18, 64, 0, 64, 1, 143, 234, 10, 0, 0, 2, 192, 168, 1, 2];
    let h = IPv4Header::from(data);
    assert_eq!(h.protocol, 0x01);
    // 10.0.0.2
    assert_eq!(h.source_address, u32::from_be_bytes([10, 0, 0, 2]));
}

#[test]
fn header_fields_are_read_in_network_order() {
    let h = IPv4Header::from(PING);
    assert_eq!(
        h,
        IPv4Header {
            version_ihl: 0x45,
            type_of_service: 0,
            total_length: 84,
            identification: 0xDF12,
            flags_fragment_offset: 0x4000,
            time_to_live: 64,
            protocol: 1,
            header_checksum: 0x8FEA,
            source_address: 0x0A00_0002,
            destination_address: 0xC0A8_0102,
        }
    );
}

#[test]
fn header_length_is_twenty() {
    assert_eq!(IPV4_HEADER_LEN, 20);
}

#[test]
fn parse_needs_a_whole_header() {
    assert_eq!(IPv4Header::parse(&[]), None);
    assert_eq!(IPv4Header::parse(&PING[..10]), None);
    assert_eq!(IPv4Header::parse(&PING[..19]), None);
    assert_eq!(IPv4Header::parse(&PING), Some(IPv4Header::from(PING)));
}

#[test]
fn parse_reads_only_the_header() {
    let mut packet = PING.to_vec();
    packet.extend_from_slice(&[0xFF; 64]);
    assert_eq!(IPv4Header::parse(&packet), Some(IPv4Header::from(PING)));
    assert_eq!(IPv4Header::read(&packet), IPv4Header::from(PING));
}

#[test]
fn default_header_is_all_zero() {
    assert_eq!(IPv4Header::default(), IPv4Header::from([0u8; 20]));
    assert_eq!(IPv4Header::default().destination_address, 0);
}

#[test]
fn high_bytes_do_not_overflow() {
    let h = IPv4Header::from([0xFF; 20]);
    assert_eq!(h.total_length, 0xFFFF);
    assert_eq!(h.source_address, 0xFFFF_FFFF);
    assert_eq!(h.destination_address, 0xFFFF_FFFF);
    assert_eq!(h.version_ihl, 0xFF);
}
