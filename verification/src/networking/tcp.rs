//! The TCP SYN probe: the packet that asks whether a port is open, and the
//! criteria by which its reply is recognised.

use vstd::prelude::*;
use rand::Rng;
use crate::networking::checksum::checksum_verifies;
use crate::networking::ethernet::{EthernetHeader, ETHERTYPE_IPV4};
use crate::networking::ipv4::{
    IpAddress, Ipv4Address, Ipv4Header, IPV4_FLAG_DONT_FRAGMENT, IP_PROTOCOL_TCP,
};
use crate::networking::osi_layers::{Layer, NetworkLayer, TransportLayer};
use crate::networking::segment::{pseudo_header, TcpHeader, TCP_FLAG_SYN};

verus! {

/// Size in bytes of a probe: an IPv4 header and a TCP header, no data.
pub const SYN_PACKET_SIZE: usize = 40;

/// Hop limit given to every probe.
pub const TTL: u8 = 64;

/// Receive window announced by every probe.
pub const WINDOW: u16 = 1024;

/// Builder of TCP SYN probes.
pub struct Tcp;

/// Draws the three values of a probe that are left to chance, in the order
/// identification, sequence number, acknowledgement number, from rand's
/// thread-local generator (`thread_rng` and `Rng::gen`). Nothing is promised
/// of them.
#[verifier::external_body]
fn draw_probe_numbers() -> (drawn: (u16, u32, u32)) {
    let mut rng = rand::thread_rng();
    (rng.gen(), rng.gen(), rng.gen())
}

impl Tcp {
    /// The IPv4 header of a probe from `src_ip` to `dest_ip`: version 4, no
    /// options, 40 bytes in all, not to be fragmented, carrying TCP, with
    /// its checksum in place.
    pub open spec fn ipv4_header(
        src_ip: Ipv4Address,
        dest_ip: Ipv4Address,
        identification: u16,
    ) -> Ipv4Header {
        Ipv4Header {
            version: 4,
            header_length: 5,
            dscp: 0,
            ecn: 0,
            total_length: 40,
            identification,
            flags: IPV4_FLAG_DONT_FRAGMENT,
            fragment_offset: 0,
            ttl: TTL,
            next_level_protocol: IP_PROTOCOL_TCP,
            checksum: 0,
            source: src_ip,
            destination: dest_ip,
        }.sealed()
    }

    /// The TCP header of a segment without data or options between the two
    /// endpoints, with the given flags and its checksum in place.
    pub open spec fn tcp_header(
        src_ip: Ipv4Address,
        src_port: u16,
        dest_ip: Ipv4Address,
        dest_port: u16,
        flags: u8,
        sequence: u32,
        acknowledgement: u32,
    ) -> TcpHeader {
        TcpHeader {
            source: src_port,
            destination: dest_port,
            sequence,
            acknowledgement,
            data_offset: 5,
            reserved: 0,
            flags,
            window: WINDOW,
            checksum: 0,
            urgent_ptr: 0,
        }.sealed(src_ip, dest_ip)
    }

    /// The 40 bytes of a packet between the two endpoints: the IPv4 header
    /// followed by the TCP header.
    pub open spec fn packet(
        src_ip: Ipv4Address,
        src_port: u16,
        dest_ip: Ipv4Address,
        dest_port: u16,
        flags: u8,
        identification: u16,
        sequence: u32,
        acknowledgement: u32,
    ) -> Seq<u8> {
        Self::ipv4_header(src_ip, dest_ip, identification).bytes() + Self::tcp_header(
            src_ip,
            src_port,
            dest_ip,
            dest_port,
            flags,
            sequence,
            acknowledgement,
        ).bytes()
    }

    /// The 40 bytes of a SYN probe.
    pub open spec fn syn_packet(
        src_ip: Ipv4Address,
        src_port: u16,
        dest_ip: Ipv4Address,
        dest_port: u16,
        identification: u16,
        sequence: u32,
        acknowledgement: u32,
    ) -> Seq<u8> {
        Self::packet(
            src_ip,
            src_port,
            dest_ip,
            dest_port,
            TCP_FLAG_SYN,
            identification,
            sequence,
            acknowledgement,
        )
    }

    /// What the reply to a probe must look like: a TCP segment from the
    /// probed port to the probing port, in an IPv4 packet from the probed
    /// address to the probing address. Nothing is asked of the link layer.
    pub open spec fn reply_criteria(
        src_ip: Ipv4Address,
        src_port: u16,
        dest_ip: Ipv4Address,
        dest_port: u16,
    ) -> Layer {
        Layer::Transport(
            TransportLayer {
                network_layer: Some(
                    NetworkLayer {
                        datalink_layer: None,
                        src_addr: Some(IpAddress::V4(dest_ip)),
                        dest_addr: Some(IpAddress::V4(src_ip)),
                    },
                ),
                src_port: Some(dest_port),
                dest_port: Some(src_port),
            },
        )
    }

    /// Constructs the IPv4 and TCP headers of a SYN probe whose
    /// identification, sequence number and acknowledgement number are given.
    pub fn build_syn_packet_with(
        src_ip: Ipv4Address,
        src_port: u16,
        dest_ip: Ipv4Address,
        dest_port: u16,
        identification: u16,
        sequence: u32,
        acknowledgement: u32,
    ) -> (packet: [u8; 40])
        ensures
            packet@ == Self::syn_packet(
                src_ip,
                src_port,
                dest_ip,
                dest_port,
                identification,
                sequence,
                acknowledgement,
            ),
    {
        let ipv4 = Ipv4Header {
            version: 4,
            header_length: 5,
            dscp: 0,
            ecn: 0,
            total_length: 40,
            identification,
            flags: IPV4_FLAG_DONT_FRAGMENT,
            fragment_offset: 0,
            ttl: TTL,
            next_level_protocol: IP_PROTOCOL_TCP,
            checksum: 0,
            source: src_ip,
            destination: dest_ip,
        }.seal().encode();
        let tcp = TcpHeader {
            source: src_port,
            destination: dest_port,
            sequence,
            acknowledgement,
            data_offset: 5,
            reserved: 0,
            flags: TCP_FLAG_SYN,
            window: WINDOW,
            checksum: 0,
            urgent_ptr: 0,
        }.seal(src_ip, dest_ip).encode();
        let mut packet = [0u8; 40];
        let mut i: usize = 0;
        while i < 20
            invariant
                i <= 20,
                forall|k: int| 0 <= k < i ==> packet@[k] == ipv4@[k],
                forall|k: int| 0 <= k < i ==> packet@[20 + k] == tcp@[k],
            decreases 20 - i,
        {
            packet[i] = ipv4[i];
            packet[i + 20] = tcp[i];
            i += 1;
        }
        packet
    }

    /// Constructs IPv4 and TCP headers for a TCP SYN packet from
    /// `src_ip:src_port` to `dest_ip:dest_port`, with an identification, a
    /// sequence number and an acknowledgement number drawn at random.
    ///
    /// The packet is the probe for the endpoints and for whatever numbers
    /// it carries. It decodes as IPv4 of version 4 between the two
    /// addresses, carrying TCP between the two ports with the SYN flag and
    /// no other, and both checksums pass the receiver's test.
    pub fn build_syn_packet(
        src_ip: Ipv4Address,
        src_port: u16,
        dest_ip: Ipv4Address,
        dest_port: u16,
    ) -> (packet: [u8; 40])
        ensures
            packet@ == Self::syn_packet(
                src_ip,
                src_port,
                dest_ip,
                dest_port,
                Ipv4Header::fields_of(packet@).identification,
                TcpHeader::fields_of(packet@.subrange(20, 40)).sequence,
                TcpHeader::fields_of(packet@.subrange(20, 40)).acknowledgement,
            ),
            Ipv4Header::parse(packet@) matches Some(ipv4) && ipv4.version == 4 && ipv4.source
                == src_ip && ipv4.destination == dest_ip && ipv4.next_level_protocol
                == IP_PROTOCOL_TCP,
            checksum_verifies(packet@.subrange(0, 20)),
            TcpHeader::parse(Ipv4Header::payload_of(packet@)) matches Some(tcp) && tcp.source
                == src_port && tcp.destination == dest_port && tcp.flags == TCP_FLAG_SYN,
            checksum_verifies(
                pseudo_header(src_ip, dest_ip, IP_PROTOCOL_TCP, 20) + Ipv4Header::payload_of(
                    packet@,
                ),
            ),
    {
        let (identification, sequence, acknowledgement) = draw_probe_numbers();
        let packet = Self::build_syn_packet_with(
            src_ip,
            src_port,
            dest_ip,
            dest_port,
            identification,
            sequence,
            acknowledgement,
        );
        proof {
            lemma_packet_decodes(
                src_ip,
                src_port,
                dest_ip,
                dest_port,
                TCP_FLAG_SYN,
                identification,
                sequence,
                acknowledgement,
            );
        }
        packet
    }

    /// The criteria by which the reply to a probe from `src_ip:src_port` to
    /// `dest_ip:dest_port` is recognised: the addressing of the probe,
    /// reversed.
    pub fn syn_reply_criteria(
        src_ip: Ipv4Address,
        src_port: u16,
        dest_ip: Ipv4Address,
        dest_port: u16,
    ) -> (criteria: Layer)
        ensures
            criteria == Self::reply_criteria(src_ip, src_port, dest_ip, dest_port),
    {
        let network_layer = NetworkLayer {
            datalink_layer: None,
            src_addr: Some(IpAddress::V4(dest_ip)),
            dest_addr: Some(IpAddress::V4(src_ip)),
        };
        let transport_layer = TransportLayer {
            network_layer: Some(network_layer),
            src_port: Some(dest_port),
            dest_port: Some(src_port),
        };
        Layer::Transport(transport_layer)
    }

    /// The outcome of a probe, from what the channel gave back: the response
    /// with its round-trip time, or nothing at all where no response came.
    /// A round-trip time without a response is dropped.
    pub fn probe_outcome(response: Option<Vec<u8>>, rtt: Option<u64>) -> (outcome: (
        Option<Vec<u8>>,
        Option<u64>,
    ))
        ensures
            response is Some ==> outcome == (response, rtt),
            response is None ==> outcome == (None::<Vec<u8>>, None::<u64>),
    {
        match response {
            Some(packet) => (Some(packet), rtt),
            None => (None, None),
        }
    }
}

/// A packet between two endpoints decodes to the headers it was made of:
/// IPv4 of version 4 between the two addresses, carrying TCP between the two
/// ports with the given flags and numbers; and both checksums pass the
/// receiver's test.
pub proof fn lemma_packet_decodes(
    src_ip: Ipv4Address,
    src_port: u16,
    dest_ip: Ipv4Address,
    dest_port: u16,
    flags: u8,
    identification: u16,
    sequence: u32,
    acknowledgement: u32,
)
    ensures
        ({
            let packet = Tcp::packet(
                src_ip,
                src_port,
                dest_ip,
                dest_port,
                flags,
                identification,
                sequence,
                acknowledgement,
            );
            let ipv4 = Tcp::ipv4_header(src_ip, dest_ip, identification);
            let tcp = Tcp::tcp_header(
                src_ip,
                src_port,
                dest_ip,
                dest_port,
                flags,
                sequence,
                acknowledgement,
            );
            &&& packet.len() == 40
            &&& packet.subrange(0, 20) == ipv4.bytes()
            &&& packet.subrange(20, 40) == tcp.bytes()
            &&& Ipv4Header::parse(packet) == Some(ipv4)
            &&& Ipv4Header::payload_of(packet) == tcp.bytes()
            &&& TcpHeader::parse(tcp.bytes()) == Some(tcp)
            &&& ipv4.version == 4
            &&& ipv4.source == src_ip
            &&& ipv4.destination == dest_ip
            &&& ipv4.next_level_protocol == IP_PROTOCOL_TCP
            &&& ipv4.identification == identification
            &&& tcp.source == src_port
            &&& tcp.destination == dest_port
            &&& tcp.flags == flags
            &&& tcp.sequence == sequence
            &&& tcp.acknowledgement == acknowledgement
            &&& checksum_verifies(ipv4.bytes())
            &&& checksum_verifies(pseudo_header(src_ip, dest_ip, IP_PROTOCOL_TCP, 20) + tcp.bytes())
        }),
{
    let ipv4 = Tcp::ipv4_header(src_ip, dest_ip, identification);
    let tcp = Tcp::tcp_header(
        src_ip,
        src_port,
        dest_ip,
        dest_port,
        flags,
        sequence,
        acknowledgement,
    );
    crate::networking::ipv4::lemma_parse_of_bytes(ipv4, tcp.bytes());
    crate::networking::segment::lemma_parse_of_bytes(tcp, Seq::empty());
    crate::networking::ipv4::lemma_sealed_header_verifies(ipv4.unsealed());
    crate::networking::segment::lemma_sealed_header_verifies(tcp.unsealed(), src_ip, dest_ip);
}

/// The reply to a probe is recognised: a frame that carries, behind any
/// Ethernet header of type IPv4, a packet with the endpoints of the probe
/// reversed, whatever its flags and numbers, is accepted by the criteria
/// made for the probe.
pub proof fn lemma_mirrored_reply_is_accepted(
    src_ip: Ipv4Address,
    src_port: u16,
    dest_ip: Ipv4Address,
    dest_port: u16,
    ethernet: EthernetHeader,
    flags: u8,
    identification: u16,
    sequence: u32,
    acknowledgement: u32,
)
    requires
        ethernet.ethertype == ETHERTYPE_IPV4,
    ensures
        Tcp::reply_criteria(src_ip, src_port, dest_ip, dest_port).accepts(
            ethernet.bytes() + Tcp::packet(
                dest_ip,
                dest_port,
                src_ip,
                src_port,
                flags,
                identification,
                sequence,
                acknowledgement,
            ),
        ),
{
    let packet = Tcp::packet(
        dest_ip,
        dest_port,
        src_ip,
        src_port,
        flags,
        identification,
        sequence,
        acknowledgement,
    );
    crate::networking::ethernet::lemma_parse_of_frame(ethernet, packet);
    lemma_packet_decodes(
        dest_ip,
        dest_port,
        src_ip,
        src_port,
        flags,
        identification,
        sequence,
        acknowledgement,
    );
}

} // verus!
