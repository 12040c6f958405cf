//! The TCP header: the fixed 20-byte layout and its checksum over the IPv4
//! pseudo-header.

use vstd::prelude::*;
use pnet::packet::tcp::TcpPacket;
use pnet::util::core_net::Ipv4Addr;
use crate::networking::checksum::{
    checksum_verifies, internet_checksum, lemma_stored_checksum_verifies, with_word,
};
use crate::networking::ipv4::{Ipv4Address, IP_PROTOCOL_TCP};

verus! {

/// Size in bytes of a TCP header without options.
pub const TCP_HEADER_SIZE: usize = 20;

/// The flag that opens a connection.
pub const TCP_FLAG_SYN: u8 = 0x02;

/// The flag that refuses a connection.
pub const TCP_FLAG_RST: u8 = 0x04;

/// The flag that acknowledges what was received.
pub const TCP_FLAG_ACK: u8 = 0x10;

/// The fields of a TCP header. Options are not held: a header longer than
/// five words is described by its `data_offset` alone.
#[derive(Clone, Copy, Debug, PartialEq, Eq, Structural)]
pub struct TcpHeader {
    pub source: u16,
    pub destination: u16,
    pub sequence: u32,
    pub acknowledgement: u32,
    /// Header length in 32-bit words, 4 bits.
    pub data_offset: u8,
    /// Reserved bits, 4 bits.
    pub reserved: u8,
    pub flags: u8,
    pub window: u16,
    pub checksum: u16,
    pub urgent_ptr: u16,
}

/// The twelve bytes that TCP sums in front of a segment carried by IPv4:
/// both addresses, a zero byte, the protocol number and the segment length.
pub open spec fn pseudo_header(
    source: Ipv4Address,
    destination: Ipv4Address,
    protocol: u8,
    length: u16,
) -> Seq<u8> {
    seq![
        source.0,
        source.1,
        source.2,
        source.3,
        destination.0,
        destination.1,
        destination.2,
        destination.3,
        0u8,
        protocol,
        (length / 256) as u8,
        (length % 256) as u8,
    ]
}

impl TcpHeader {
    /// Every field fits the number of bits the layout gives it.
    pub open spec fn fits(self) -> bool {
        &&& self.data_offset < 16
        &&& self.reserved < 16
    }

    /// The 20 bytes of the header on the wire.
    pub open spec fn bytes(self) -> Seq<u8> {
        seq![
            (self.source / 256) as u8,
            (self.source % 256) as u8,
            (self.destination / 256) as u8,
            (self.destination % 256) as u8,
            (self.sequence / 0x100_0000) as u8,
            (self.sequence / 0x1_0000 % 256) as u8,
            (self.sequence / 0x100 % 256) as u8,
            (self.sequence % 256) as u8,
            (self.acknowledgement / 0x100_0000) as u8,
            (self.acknowledgement / 0x1_0000 % 256) as u8,
            (self.acknowledgement / 0x100 % 256) as u8,
            (self.acknowledgement % 256) as u8,
            (self.data_offset * 16 + self.reserved) as u8,
            self.flags,
            (self.window / 256) as u8,
            (self.window % 256) as u8,
            (self.checksum / 256) as u8,
            (self.checksum % 256) as u8,
            (self.urgent_ptr / 256) as u8,
            (self.urgent_ptr % 256) as u8,
        ]
    }

    /// The fields read from the first 20 bytes of `segment`, whatever they
    /// hold.
    pub open spec fn fields_of(segment: Seq<u8>) -> TcpHeader {
        TcpHeader {
            source: (segment[0] * 256 + segment[1]) as u16,
            destination: (segment[2] * 256 + segment[3]) as u16,
            sequence: (segment[4] * 0x100_0000 + segment[5] * 0x1_0000 + segment[6] * 0x100
                + segment[7]) as u32,
            acknowledgement: (segment[8] * 0x100_0000 + segment[9] * 0x1_0000 + segment[10] * 0x100
                + segment[11]) as u32,
            data_offset: segment[12] / 16,
            reserved: segment[12] % 16,
            flags: segment[13],
            window: (segment[14] * 256 + segment[15]) as u16,
            checksum: (segment[16] * 256 + segment[17]) as u16,
            urgent_ptr: (segment[18] * 256 + segment[19]) as u16,
        }
    }

    /// Whether `segment` starts with a header that can be relied on: at least
    /// five words long and wholly within the bytes at hand.
    pub open spec fn decodes(segment: Seq<u8>) -> bool {
        &&& segment.len() >= 20
        &&& segment[12] / 16 >= 5
        &&& (segment[12] / 16) * 4 <= segment.len()
    }

    /// The header of `segment`, if it decodes.
    pub open spec fn parse(segment: Seq<u8>) -> Option<TcpHeader> {
        if Self::decodes(segment) {
            Some(Self::fields_of(segment))
        } else {
            None
        }
    }

    /// The header with zero in place of its checksum.
    pub open spec fn unsealed(self) -> TcpHeader {
        TcpHeader { checksum: 0, ..self }
    }

    /// The header with the checksum that its other fields and the two
    /// addresses call for, as a segment that carries no data.
    pub open spec fn sealed(self, source: Ipv4Address, destination: Ipv4Address) -> TcpHeader {
        TcpHeader {
            checksum: internet_checksum(
                pseudo_header(source, destination, IP_PROTOCOL_TCP, 20) + self.unsealed().bytes(),
            ),
            ..self
        }
    }

    /// Lays the header out in wire order.
    pub fn encode(&self) -> (bytes: [u8; 20])
        requires
            self.fits(),
        ensures
            bytes@ == self.bytes(),
    {
        let bytes: [u8; 20] = [
            (self.source / 256) as u8,
            (self.source % 256) as u8,
            (self.destination / 256) as u8,
            (self.destination % 256) as u8,
            (self.sequence / 0x100_0000) as u8,
            (self.sequence / 0x1_0000 % 256) as u8,
            (self.sequence / 0x100 % 256) as u8,
            (self.sequence % 256) as u8,
            (self.acknowledgement / 0x100_0000) as u8,
            (self.acknowledgement / 0x1_0000 % 256) as u8,
            (self.acknowledgement / 0x100 % 256) as u8,
            (self.acknowledgement % 256) as u8,
            self.data_offset * 16 + self.reserved,
            self.flags,
            (self.window / 256) as u8,
            (self.window % 256) as u8,
            (self.checksum / 256) as u8,
            (self.checksum % 256) as u8,
            (self.urgent_ptr / 256) as u8,
            (self.urgent_ptr % 256) as u8,
        ];
        bytes
    }

    /// Reads the header at the start of `segment`. Nothing is read from a
    /// segment that is too short or whose data offset does not agree with the
    /// bytes at hand.
    pub fn decode(segment: &[u8]) -> (header: Option<TcpHeader>)
        ensures
            header == Self::parse(segment@),
    {
        if segment.len() < 20 {
            return None;
        }
        let data_offset: u8 = segment[12] / 16;
        if data_offset < 5 || (data_offset as usize) * 4 > segment.len() {
            return None;
        }
        Some(
            TcpHeader {
                source: (segment[0] as u16) * 256 + (segment[1] as u16),
                destination: (segment[2] as u16) * 256 + (segment[3] as u16),
                sequence: (segment[4] as u32) * 0x100_0000 + (segment[5] as u32) * 0x1_0000 + (
                segment[6] as u32) * 0x100 + (segment[7] as u32),
                acknowledgement: (segment[8] as u32) * 0x100_0000 + (segment[9] as u32) * 0x1_0000
                    + (segment[10] as u32) * 0x100 + (segment[11] as u32),
                data_offset,
                reserved: segment[12] % 16,
                flags: segment[13],
                window: (segment[14] as u16) * 256 + (segment[15] as u16),
                checksum: (segment[16] as u16) * 256 + (segment[17] as u16),
                urgent_ptr: (segment[18] as u16) * 256 + (segment[19] as u16),
            },
        )
    }
}

/// The checksum of a 20-byte TCP segment between two IPv4 addresses, computed
/// by pnet's `tcp::ipv4_checksum`. pnet adds up the words of both addresses,
/// the protocol number of TCP, the length of the segment and the words of the
/// segment but the one at bytes 16 and 17, where the checksum itself lives;
/// it folds the carries back in and returns the complement. The contract
/// states that result; nothing here proves it of pnet.
#[verifier::external_body]
fn pnet_segment_checksum(segment: &[u8; 20], source: Ipv4Address, destination: Ipv4Address) -> (sum:
    u16)
    ensures
        sum == internet_checksum(
            pseudo_header(source, destination, IP_PROTOCOL_TCP, 20) + segment@.update(
                16,
                0u8,
            ).update(17, 0u8),
        ),
{
    let source = Ipv4Addr::new(source.0, source.1, source.2, source.3);
    let destination = Ipv4Addr::new(destination.0, destination.1, destination.2, destination.3);
    pnet::packet::tcp::ipv4_checksum(&TcpPacket::new(segment).unwrap(), &source, &destination)
}

impl TcpHeader {
    /// Computes the checksum of the header, sent without data from `source`
    /// to `destination`, and stores it. The result passes the test a receiver
    /// applies to the segment behind its pseudo-header.
    pub fn seal(self, source: Ipv4Address, destination: Ipv4Address) -> (sealed: TcpHeader)
        requires
            self.fits(),
        ensures
            sealed == self.sealed(source, destination),
            checksum_verifies(
                pseudo_header(source, destination, IP_PROTOCOL_TCP, 20) + sealed.bytes(),
            ),
    {
        let blank = TcpHeader { checksum: 0, ..self };
        let bytes = blank.encode();
        let sum = pnet_segment_checksum(&bytes, source, destination);
        proof {
            assert(bytes@.update(16, 0u8).update(17, 0u8) =~= bytes@);
            lemma_sealed_header_verifies(self, source, destination);
        }
        TcpHeader { checksum: sum, ..self }
    }
}

/// A header that carries the checksum of its other fields and of the two
/// addresses passes the test a receiver applies to it behind its
/// pseudo-header.
pub proof fn lemma_sealed_header_verifies(
    header: TcpHeader,
    source: Ipv4Address,
    destination: Ipv4Address,
)
    ensures
        checksum_verifies(
            pseudo_header(source, destination, IP_PROTOCOL_TCP, 20) + header.sealed(
                source,
                destination,
            ).bytes(),
        ),
{
    let pseudo = pseudo_header(source, destination, IP_PROTOCOL_TCP, 20);
    let blank = pseudo + header.unsealed().bytes();
    lemma_stored_checksum_verifies(blank, 14);
    assert(pseudo + header.sealed(source, destination).bytes() =~= with_word(
        blank,
        14,
        internet_checksum(blank),
    ));
}

/// The four octets of a 32-bit number, most significant first, put together
/// give the number back.
pub proof fn lemma_octets_of_u32(x: u32)
    ensures
        x / 0x100_0000 < 256,
        (x / 0x100_0000) * 0x100_0000 + (x / 0x1_0000 % 256) * 0x1_0000 + (x / 0x100 % 256) * 0x100
            + x % 256 == x,
{
    assert(x / 0x100_0000 < 256) by (bit_vector);
    assert((x / 0x100_0000) * 0x100_0000 + (x / 0x1_0000 % 256) * 0x1_0000 + (x / 0x100 % 256)
        * 0x100 + x % 256 == x) by (bit_vector);
}

/// A header that fits its layout is read back field for field from its own
/// bytes, whatever follows them.
pub proof fn lemma_fields_of_bytes(header: TcpHeader, rest: Seq<u8>)
    requires
        header.fits(),
    ensures
        TcpHeader::fields_of(header.bytes() + rest) == header,
{
    let segment = header.bytes() + rest;
    let read = TcpHeader::fields_of(segment);
    assert(read.sequence == header.sequence) by {
        lemma_octets_of_u32(header.sequence);
    }
    assert(read.acknowledgement == header.acknowledgement) by {
        lemma_octets_of_u32(header.acknowledgement);
    }
}

/// A header of at least five words that lies within the bytes at hand
/// decodes to itself.
pub proof fn lemma_parse_of_bytes(header: TcpHeader, rest: Seq<u8>)
    requires
        header.fits(),
        5 <= header.data_offset,
        header.data_offset * 4 <= 20 + rest.len(),
    ensures
        TcpHeader::parse(header.bytes() + rest) == Some(header),
{
    lemma_fields_of_bytes(header, rest);
}

} // verus!
