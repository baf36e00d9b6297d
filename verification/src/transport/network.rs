//! The IPv4 header of a packet, read from its first twenty bytes.

use vstd::prelude::*;
use vstd::slice::slice_subrange;
use byteorder::{BigEndian, ByteOrder};

verus! {

/// Length of an IPv4 header without options: the least a packet can be.
pub const IPV4_HEADER_LEN: usize = 20;

/// The fields of an IPv4 header, multi-byte ones in host order.
#[derive(Clone, Copy, Debug, PartialEq, Eq, Structural)]
pub struct IPv4Header {
    /// IP version (= 4) and internet header length.
    pub version_ihl: u8,
    /// Type of service.
    pub type_of_service: u8,
    /// Total length in octets.
    pub total_length: u16,
    /// Identification.
    pub identification: u16,
    /// Three bits of flags and the fragment offset.
    pub flags_fragment_offset: u16,
    /// Time to live.
    pub time_to_live: u8,
    /// Protocol.
    pub protocol: u8,
    /// Checksum of the header.
    pub header_checksum: u16,
    /// Source address.
    pub source_address: u32,
    /// Destination address.
    pub destination_address: u32,
}

/// The number whose big-endian form is the first two bytes.
pub open spec fn spec_u16_be(bytes: Seq<u8>) -> u16 {
    (bytes[0] as int * 0x100 + bytes[1] as int) as u16
}

/// The number whose big-endian form is the first four bytes.
pub open spec fn spec_u32_be(bytes: Seq<u8>) -> u32 {
    (bytes[0] as int * 0x100_0000 + bytes[1] as int * 0x1_0000 + bytes[2] as int * 0x100 + bytes[3] as int) as u32
}

/// The number whose big-endian form is the first eight bytes.
pub open spec fn spec_u64_be(bytes: Seq<u8>) -> u64 {
    (spec_u32_be(bytes) as int * 0x1_0000_0000 + spec_u32_be(bytes.skip(4)) as int) as u64
}

/// The header that the first twenty bytes of a packet spell.
pub open spec fn spec_header(bytes: Seq<u8>) -> IPv4Header {
    IPv4Header {
        version_ihl: bytes[0],
        type_of_service: bytes[1],
        total_length: spec_u16_be(bytes.subrange(2, 4)),
        identification: spec_u16_be(bytes.subrange(4, 6)),
        flags_fragment_offset: spec_u16_be(bytes.subrange(6, 8)),
        time_to_live: bytes[8],
        protocol: bytes[9],
        header_checksum: spec_u16_be(bytes.subrange(10, 12)),
        source_address: spec_u32_be(bytes.subrange(12, 16)),
        destination_address: spec_u32_be(bytes.subrange(16, 20)),
    }
}

/// `byteorder::BigEndian::read_u16`: the number that the first two bytes
/// spell, most significant byte first.
#[verifier::external_body]
pub(crate) fn read_u16_be(bytes: &[u8]) -> (value: u16)
    requires
        bytes@.len() >= 2,
    ensures
        value == spec_u16_be(bytes@),
{
    BigEndian::read_u16(bytes)
}

/// `byteorder::BigEndian::read_u32`: the number that the first four bytes
/// spell, most significant byte first.
#[verifier::external_body]
pub(crate) fn read_u32_be(bytes: &[u8]) -> (value: u32)
    requires
        bytes@.len() >= 4,
    ensures
        value == spec_u32_be(bytes@),
{
    BigEndian::read_u32(bytes)
}

/// `byteorder::BigEndian::read_u64`: the number that the first eight bytes
/// spell, most significant byte first.
#[verifier::external_body]
pub(crate) fn read_u64_be(bytes: &[u8]) -> (value: u64)
    requires
        bytes@.len() >= 8,
    ensures
        value == spec_u64_be(bytes@),
{
    BigEndian::read_u64(bytes)
}

/// `byteorder::BigEndian::write_u64`: the eight bytes that spell `value`,
/// most significant byte first.
#[verifier::external_body]
pub(crate) fn write_u64_be(value: u64) -> (bytes: [u8; 8])
    ensures
        spec_u64_be(bytes@) == value,
{
    let mut bytes = [0u8; 8];
    BigEndian::write_u64(&mut bytes, value);
    bytes
}

impl IPv4Header {
    /// The header at the start of a packet that is long enough to have one.
    pub fn read(packet: &[u8]) -> (header: IPv4Header)
        requires
            packet@.len() >= IPV4_HEADER_LEN,
        ensures
            header == spec_header(packet@),
    {
        IPv4Header {
            version_ihl: packet[0],
            type_of_service: packet[1],
            total_length: read_u16_be(slice_subrange(packet, 2, 4)),
            identification: read_u16_be(slice_subrange(packet, 4, 6)),
            flags_fragment_offset: read_u16_be(slice_subrange(packet, 6, 8)),
            time_to_live: packet[8],
            protocol: packet[9],
            header_checksum: read_u16_be(slice_subrange(packet, 10, 12)),
            source_address: read_u32_be(slice_subrange(packet, 12, 16)),
            destination_address: read_u32_be(slice_subrange(packet, 16, 20)),
        }
    }

    /// The header of a packet, or nothing where the packet is shorter than
    /// a header.
    pub fn parse(packet: &[u8]) -> (header: Option<IPv4Header>)
        ensures
            header == if packet@.len() >= IPV4_HEADER_LEN {
                Some(spec_header(packet@))
            } else {
                None
            },
    {
        if packet.len() < IPV4_HEADER_LEN {
            return None;
        }
        Some(IPv4Header::read(packet))
    }
}

impl Default for IPv4Header {
    /// The header whose fields are all zero.
    fn default() -> (header: Self)
        ensures
            header == spec_header(Seq::new(20, |i: int| 0u8)),
    {
        IPv4Header {
            version_ihl: 0,
            type_of_service: 0,
            total_length: 0,
            identification: 0,
            flags_fragment_offset: 0,
            time_to_live: 0,
            protocol: 0,
            header_checksum: 0,
            source_address: 0,
            destination_address: 0,
        }
    }
}

impl From<[u8; 20]> for IPv4Header {
    /// The header that twenty bytes spell.
    fn from(bytes: [u8; 20]) -> (header: Self) {
        IPv4Header::read(bytes.as_slice())
    }
}

impl vstd::std_specs::convert::FromSpecImpl<[u8; 20]> for IPv4Header {
    open spec fn obeys_from_spec() -> bool {
        true
    }

    open spec fn from_spec(bytes: [u8; 20]) -> IPv4Header {
        spec_header(bytes@)
    }
}

} // verus!
