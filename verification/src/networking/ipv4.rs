//! The IPv4 header: addresses, the fixed 20-byte layout, and its checksum.

use vstd::prelude::*;
use pnet::packet::ipv4::Ipv4Packet;
use crate::errors::ScannerError;
use crate::networking::checksum::{
    checksum_verifies, internet_checksum, lemma_stored_checksum_verifies, with_word,
};

verus! {

/// Size in bytes of an IPv4 header without options.
pub const IPV4_HEADER_SIZE: usize = 20;

/// The protocol number of TCP.
pub const IP_PROTOCOL_TCP: u8 = 6;

/// The "don't fragment" bit of the three header flags.
pub const IPV4_FLAG_DONT_FRAGMENT: u8 = 2;

/// An IPv4 address, most significant octet first.
#[derive(Clone, Copy, Debug, PartialEq, Eq, Structural)]
pub struct Ipv4Address(pub u8, pub u8, pub u8, pub u8);

/// An IPv6 address as one 128-bit number.
#[derive(Clone, Copy, Debug, PartialEq, Eq, Structural)]
pub struct Ipv6Address(pub u128);

/// A network-layer address of either protocol version.
#[derive(Clone, Copy, Debug, PartialEq, Eq, Structural)]
pub enum IpAddress {
    V4(Ipv4Address),
    V6(Ipv6Address),
}

impl Ipv4Address {
    /// The address `a.b.c.d`.
    pub fn new(a: u8, b: u8, c: u8, d: u8) -> (address: Ipv4Address)
        ensures
            address == Ipv4Address(a, b, c, d),
    {
        Ipv4Address(a, b, c, d)
    }
}

impl IpAddress {
    /// The IPv4 address this is, if it is one.
    pub open spec fn as_ipv4(self) -> Result<Ipv4Address, ScannerError> {
        match self {
            IpAddress::V4(address) => Ok(address),
            IpAddress::V6(_) => Err(ScannerError::UnsupportedIpVersion),
        }
    }

    /// Admits an address to the probe builder, which speaks IPv4 only: an
    /// IPv6 address is reported as unsupported.
    pub fn ipv4(self) -> (address: Result<Ipv4Address, ScannerError>)
        ensures
            address == self.as_ipv4(),
    {
        match self {
            IpAddress::V4(address) => Ok(address),
            IpAddress::V6(_) => Err(ScannerError::UnsupportedIpVersion),
        }
    }
}

/// The fields of an IPv4 header. Options are not held: a header longer than
/// five words is described by its `header_length` alone.
#[derive(Clone, Copy, Debug, PartialEq, Eq, Structural)]
pub struct Ipv4Header {
    /// Protocol version, 4 bits.
    pub version: u8,
    /// Header length in 32-bit words, 4 bits.
    pub header_length: u8,
    /// Differentiated services code point, 6 bits.
    pub dscp: u8,
    /// Explicit congestion notification, 2 bits.
    pub ecn: u8,
    /// Length of header and payload in bytes.
    pub total_length: u16,
    pub identification: u16,
    /// Fragmentation flags, 3 bits.
    pub flags: u8,
    /// Fragment offset in units of eight bytes, 13 bits.
    pub fragment_offset: u16,
    pub ttl: u8,
    pub next_level_protocol: u8,
    pub checksum: u16,
    pub source: Ipv4Address,
    pub destination: Ipv4Address,
}

impl Ipv4Header {
    /// Every field fits the number of bits the layout gives it.
    pub open spec fn fits(self) -> bool {
        &&& self.version < 16
        &&& self.header_length < 16
        &&& self.dscp < 64
        &&& self.ecn < 4
        &&& self.flags < 8
        &&& self.fragment_offset < 8192
    }

    /// The 20 bytes of the header on the wire.
    pub open spec fn bytes(self) -> Seq<u8> {
        seq![
            (self.version * 16 + self.header_length) as u8,
            (self.dscp * 4 + self.ecn) as u8,
            (self.total_length / 256) as u8,
            (self.total_length % 256) as u8,
            (self.identification / 256) as u8,
            (self.identification % 256) as u8,
            (self.flags * 32 + self.fragment_offset / 256) as u8,
            (self.fragment_offset % 256) as u8,
            self.ttl,
            self.next_level_protocol,
            (self.checksum / 256) as u8,
            (self.checksum % 256) as u8,
            self.source.0,
            self.source.1,
            self.source.2,
            self.source.3,
            self.destination.0,
            self.destination.1,
            self.destination.2,
            self.destination.3,
        ]
    }

    /// The fields read from the first 20 bytes of `packet`, whatever they hold.
    pub open spec fn fields_of(packet: Seq<u8>) -> Ipv4Header {
        Ipv4Header {
            version: packet[0] / 16,
            header_length: packet[0] % 16,
            dscp: packet[1] / 4,
            ecn: packet[1] % 4,
            total_length: (packet[2] * 256 + packet[3]) as u16,
            identification: (packet[4] * 256 + packet[5]) as u16,
            flags: packet[6] / 32,
            fragment_offset: ((packet[6] % 32) * 256 + packet[7]) as u16,
            ttl: packet[8],
            next_level_protocol: packet[9],
            checksum: (packet[10] * 256 + packet[11]) as u16,
            source: Ipv4Address(packet[12], packet[13], packet[14], packet[15]),
            destination: Ipv4Address(packet[16], packet[17], packet[18], packet[19]),
        }
    }

    /// Whether `packet` starts with a header that can be relied on: version
    /// 4, at least five words long, and a total length that covers the header
    /// and does not run past the bytes at hand.
    pub open spec fn decodes(packet: Seq<u8>) -> bool {
        &&& packet.len() >= 20
        &&& packet[0] / 16 == 4
        &&& packet[0] % 16 >= 5
        &&& (packet[0] % 16) * 4 <= packet[2] * 256 + packet[3]
        &&& packet[2] * 256 + packet[3] <= packet.len()
    }

    /// The header of `packet`, if it decodes.
    pub open spec fn parse(packet: Seq<u8>) -> Option<Ipv4Header> {
        if Self::decodes(packet) {
            Some(Self::fields_of(packet))
        } else {
            None
        }
    }

    /// What `packet` carries behind its header and options, up to its total
    /// length. Meant for a packet that decodes.
    pub open spec fn payload_of(packet: Seq<u8>) -> Seq<u8> {
        packet.subrange((packet[0] % 16) * 4, packet[2] * 256 + packet[3])
    }

    /// The header with zero in place of its checksum.
    pub open spec fn unsealed(self) -> Ipv4Header {
        Ipv4Header { checksum: 0, ..self }
    }

    /// The header with the checksum that its other fields call for.
    pub open spec fn sealed(self) -> Ipv4Header {
        Ipv4Header { checksum: internet_checksum(self.unsealed().bytes()), ..self }
    }

    /// Lays the header out in wire order.
    pub fn encode(&self) -> (bytes: [u8; 20])
        requires
            self.fits(),
        ensures
            bytes@ == self.bytes(),
    {
        let bytes: [u8; 20] = [
            self.version * 16 + self.header_length,
            self.dscp * 4 + self.ecn,
            (self.total_length / 256) as u8,
            (self.total_length % 256) as u8,
            (self.identification / 256) as u8,
            (self.identification % 256) as u8,
            self.flags * 32 + (self.fragment_offset / 256) as u8,
            (self.fragment_offset % 256) as u8,
            self.ttl,
            self.next_level_protocol,
            (self.checksum / 256) as u8,
            (self.checksum % 256) as u8,
            self.source.0,
            self.source.1,
            self.source.2,
            self.source.3,
            self.destination.0,
            self.destination.1,
            self.destination.2,
            self.destination.3,
        ];
        bytes
    }

    /// Reads the header at the start of `packet`. Nothing is read from a
    /// packet that is too short, of another version, or whose lengths do not
    /// agree with the bytes at hand.
    pub fn decode(packet: &[u8]) -> (header: Option<Ipv4Header>)
        ensures
            header == Self::parse(packet@),
    {
        if packet.len() < 20 {
            return None;
        }
        let version: u8 = packet[0] / 16;
        let header_length: u8 = packet[0] % 16;
        let total_length: u16 = (packet[2] as u16) * 256 + (packet[3] as u16);
        if version != 4 || header_length < 5 {
            return None;
        }
        if (header_length as u16) * 4 > total_length || (total_length as usize) > packet.len() {
            return None;
        }
        Some(
            Ipv4Header {
                version,
                header_length,
                dscp: packet[1] / 4,
                ecn: packet[1] % 4,
                total_length,
                identification: (packet[4] as u16) * 256 + (packet[5] as u16),
                flags: packet[6] / 32,
                fragment_offset: ((packet[6] % 32) as u16) * 256 + (packet[7] as u16),
                ttl: packet[8],
                next_level_protocol: packet[9],
                checksum: (packet[10] as u16) * 256 + (packet[11] as u16),
                source: Ipv4Address(packet[12], packet[13], packet[14], packet[15]),
                destination: Ipv4Address(packet[16], packet[17], packet[18], packet[19]),
            },
        )
    }

    /// The payload of a packet whose header was decoded.
    pub fn payload<'a>(&self, packet: &'a [u8]) -> (payload: &'a [u8])
        requires
            Self::parse(packet@) == Some(*self),
        ensures
            payload@ == Self::payload_of(packet@),
    {
        let start: usize = (self.header_length as usize) * 4;
        let end: usize = self.total_length as usize;
        &packet[start..end]
    }
}

/// The checksum of a 20-byte IPv4 header, computed by pnet's
/// `ipv4::checksum`. For a buffer of exactly 20 bytes pnet sums the whole
/// buffer as big-endian words, whatever header length it names, leaves out
/// the word at bytes 10 and 11 where the checksum itself lives, folds the
/// carries back in and returns the complement. The contract states that
/// result; nothing here proves it of pnet.
#[verifier::external_body]
fn pnet_header_checksum(header: &[u8; 20]) -> (sum: u16)
    ensures
        sum == internet_checksum(header@.update(10, 0u8).update(11, 0u8)),
{
    pnet::packet::ipv4::checksum(&Ipv4Packet::new(header).unwrap())
}

impl Ipv4Header {
    /// Computes the header checksum over the other fields and stores it.
    /// The result passes the test a receiver applies to the header.
    pub fn seal(self) -> (sealed: Ipv4Header)
        requires
            self.fits(),
        ensures
            sealed == self.sealed(),
            checksum_verifies(sealed.bytes()),
    {
        let blank = Ipv4Header { checksum: 0, ..self };
        let bytes = blank.encode();
        let sum = pnet_header_checksum(&bytes);
        proof {
            assert(bytes@.update(10, 0u8).update(11, 0u8) =~= bytes@);
            lemma_sealed_header_verifies(self);
        }
        Ipv4Header { checksum: sum, ..self }
    }
}

/// A header that carries the checksum of its other fields passes the test a
/// receiver applies to it.
pub proof fn lemma_sealed_header_verifies(header: Ipv4Header)
    ensures
        checksum_verifies(header.sealed().bytes()),
{
    let blank = header.unsealed().bytes();
    lemma_stored_checksum_verifies(blank, 5);
    assert(header.sealed().bytes() =~= with_word(blank, 5, internet_checksum(blank)));
}

/// A header that fits its layout is read back field for field from its own
/// bytes, whatever follows them.
pub proof fn lemma_fields_of_bytes(header: Ipv4Header, rest: Seq<u8>)
    requires
        header.fits(),
    ensures
        Ipv4Header::fields_of(header.bytes() + rest) == header,
{
}

/// A version 4 header whose lengths agree with the bytes that follow it
/// decodes to itself, and what follows it up to the total length is its
/// payload.
pub proof fn lemma_parse_of_bytes(header: Ipv4Header, rest: Seq<u8>)
    requires
        header.fits(),
        header.version == 4,
        header.header_length == 5,
        20 <= header.total_length <= 20 + rest.len(),
    ensures
        Ipv4Header::parse(header.bytes() + rest) == Some(header),
        Ipv4Header::payload_of(header.bytes() + rest) == rest.subrange(
            0,
            header.total_length - 20,
        ),
{
    lemma_fields_of_bytes(header, rest);
}

} // verus!
