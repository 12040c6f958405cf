//! What the reply to a probe must look like, layer by layer, and the test of
//! an inbound frame against it.
//!
//! Criteria are anchored at the deepest layer they speak of. Each field is
//! optional: an absent field accepts anything, a present one must equal what
//! the frame holds. A frame that cannot be decoded down to the anchor is not
//! a reply; that is no error, since a shared medium carries many frames that
//! concern nobody here.

use vstd::prelude::*;
use crate::networking::ethernet::{EthernetHeader, MacAddress, ETHERTYPE_IPV4};
use crate::networking::ipv4::{IpAddress, Ipv4Header, IP_PROTOCOL_TCP};
use crate::networking::segment::TcpHeader;

verus! {

/// Expected hardware addresses of a reply.
#[derive(Clone, Copy, Debug, PartialEq, Eq, Structural)]
pub struct DatalinkLayer {
    pub src_mac: Option<MacAddress>,
    pub dest_mac: Option<MacAddress>,
}

/// Expected network addresses of a reply, and optionally what is expected
/// of the link layer beneath.
#[derive(Clone, Copy, Debug, PartialEq, Eq, Structural)]
pub struct NetworkLayer {
    pub datalink_layer: Option<DatalinkLayer>,
    pub src_addr: Option<IpAddress>,
    pub dest_addr: Option<IpAddress>,
}

/// Expected ports of a reply, and optionally what is expected of the
/// network layer beneath.
#[derive(Clone, Copy, Debug, PartialEq, Eq, Structural)]
pub struct TransportLayer {
    pub network_layer: Option<NetworkLayer>,
    pub src_port: Option<u16>,
    pub dest_port: Option<u16>,
}

/// Criteria for a reply, tagged by the deepest layer they are anchored at.
#[derive(Clone, Copy, Debug, PartialEq, Eq, Structural)]
pub enum Layer {
    Link(DatalinkLayer),
    Network(NetworkLayer),
    Transport(TransportLayer),
}

/// An absent expectation agrees with anything; a present one only with an
/// equal value.
pub open spec fn agrees<T>(expected: Option<T>, found: T) -> bool {
    expected matches Some(value) ==> value == found
}

/// One expectation asks at least what another asks: the other is absent, or
/// both are the same.
pub open spec fn asks_no_less<T>(narrow: Option<T>, wide: Option<T>) -> bool {
    wide is None || narrow == wide
}

/// The IPv4 header of a frame: the frame holds an Ethernet header of type
/// IPv4, and its payload decodes as an IPv4 packet.
pub open spec fn ipv4_header_of(frame: Seq<u8>) -> Option<Ipv4Header> {
    match EthernetHeader::parse(frame) {
        Some(ethernet) => if ethernet.ethertype == ETHERTYPE_IPV4 {
            Ipv4Header::parse(EthernetHeader::payload_of(frame))
        } else {
            None
        },
        None => None,
    }
}

/// The TCP header of a frame: the frame holds an IPv4 packet whose protocol
/// is TCP, and the payload of that packet decodes as a TCP segment.
pub open spec fn tcp_header_of(frame: Seq<u8>) -> Option<TcpHeader> {
    match ipv4_header_of(frame) {
        Some(ipv4) => if ipv4.next_level_protocol == IP_PROTOCOL_TCP {
            TcpHeader::parse(Ipv4Header::payload_of(EthernetHeader::payload_of(frame)))
        } else {
            None
        },
        None => None,
    }
}

impl DatalinkLayer {
    /// The frame decodes at the link layer and agrees with every present
    /// field.
    pub open spec fn accepts(self, frame: Seq<u8>) -> bool {
        &&& EthernetHeader::parse(frame) matches Some(ethernet)
        &&& agrees(self.src_mac, ethernet.source)
        &&& agrees(self.dest_mac, ethernet.destination)
    }

    /// These criteria populate every field that `wide` populates, with the
    /// same value.
    pub open spec fn narrows(self, wide: DatalinkLayer) -> bool {
        &&& asks_no_less(self.src_mac, wide.src_mac)
        &&& asks_no_less(self.dest_mac, wide.dest_mac)
    }

    /// Tests a frame against the link-layer criteria.
    pub fn matches(&self, frame: &[u8]) -> (matched: bool)
        ensures
            matched == self.accepts(frame@),
            EthernetHeader::parse(frame@) is None ==> !matched,
    {
        match EthernetHeader::decode(frame) {
            None => false,
            Some(ethernet) => {
                let source_agrees = match self.src_mac {
                    None => true,
                    Some(expected) => expected == ethernet.source,
                };
                let destination_agrees = match self.dest_mac {
                    None => true,
                    Some(expected) => expected == ethernet.destination,
                };
                source_agrees && destination_agrees
            },
        }
    }
}

impl NetworkLayer {
    /// The frame decodes down to an IPv4 header, agrees with every present
    /// field, and satisfies the link-layer criteria if there are any.
    pub open spec fn accepts(self, frame: Seq<u8>) -> bool {
        &&& ipv4_header_of(frame) matches Some(ipv4)
        &&& agrees(self.src_addr, IpAddress::V4(ipv4.source))
        &&& agrees(self.dest_addr, IpAddress::V4(ipv4.destination))
        &&& (self.datalink_layer matches Some(link) ==> link.accepts(frame))
    }

    /// These criteria populate every field that `wide` populates, with the
    /// same value, at this layer and beneath.
    pub open spec fn narrows(self, wide: NetworkLayer) -> bool {
        &&& asks_no_less(self.src_addr, wide.src_addr)
        &&& asks_no_less(self.dest_addr, wide.dest_addr)
        &&& (wide.datalink_layer matches Some(wide_link) ==> (self.datalink_layer matches Some(
            link,
        ) && link.narrows(wide_link)))
    }

    /// Tests a frame against the network-layer criteria.
    pub fn matches(&self, frame: &[u8]) -> (matched: bool)
        ensures
            matched == self.accepts(frame@),
            ipv4_header_of(frame@) is None ==> !matched,
    {
        let ethernet = match EthernetHeader::decode(frame) {
            None => {
                return false;
            },
            Some(ethernet) => ethernet,
        };
        if ethernet.ethertype != ETHERTYPE_IPV4 {
            return false;
        }
        let ipv4 = match Ipv4Header::decode(EthernetHeader::payload(frame)) {
            None => {
                return false;
            },
            Some(ipv4) => ipv4,
        };
        let source_agrees = match self.src_addr {
            None => true,
            Some(IpAddress::V4(expected)) => expected == ipv4.source,
            Some(IpAddress::V6(_)) => false,
        };
        let destination_agrees = match self.dest_addr {
            None => true,
            Some(IpAddress::V4(expected)) => expected == ipv4.destination,
            Some(IpAddress::V6(_)) => false,
        };
        if !(source_agrees && destination_agrees) {
            return false;
        }
        match self.datalink_layer {
            None => true,
            Some(link) => link.matches(frame),
        }
    }
}

impl TransportLayer {
    /// The frame decodes down to a TCP header, agrees with every present
    /// field, and satisfies the network-layer criteria if there are any.
    pub open spec fn accepts(self, frame: Seq<u8>) -> bool {
        &&& tcp_header_of(frame) matches Some(tcp)
        &&& agrees(self.src_port, tcp.source)
        &&& agrees(self.dest_port, tcp.destination)
        &&& (self.network_layer matches Some(network) ==> network.accepts(frame))
    }

    /// These criteria populate every field that `wide` populates, with the
    /// same value, at this layer and beneath.
    pub open spec fn narrows(self, wide: TransportLayer) -> bool {
        &&& asks_no_less(self.src_port, wide.src_port)
        &&& asks_no_less(self.dest_port, wide.dest_port)
        &&& (wide.network_layer matches Some(wide_network) ==> (self.network_layer matches Some(
            network,
        ) && network.narrows(wide_network)))
    }

    /// Tests a frame against the transport-layer criteria.
    pub fn matches(&self, frame: &[u8]) -> (matched: bool)
        ensures
            matched == self.accepts(frame@),
            tcp_header_of(frame@) is None ==> !matched,
    {
        let ethernet = match EthernetHeader::decode(frame) {
            None => {
                return false;
            },
            Some(ethernet) => ethernet,
        };
        if ethernet.ethertype != ETHERTYPE_IPV4 {
            return false;
        }
        let packet = EthernetHeader::payload(frame);
        let ipv4 = match Ipv4Header::decode(packet) {
            None => {
                return false;
            },
            Some(ipv4) => ipv4,
        };
        if ipv4.next_level_protocol != IP_PROTOCOL_TCP {
            return false;
        }
        let tcp = match TcpHeader::decode(ipv4.payload(packet)) {
            None => {
                return false;
            },
            Some(tcp) => tcp,
        };
        let source_agrees = match self.src_port {
            None => true,
            Some(expected) => expected == tcp.source,
        };
        let destination_agrees = match self.dest_port {
            None => true,
            Some(expected) => expected == tcp.destination,
        };
        if !(source_agrees && destination_agrees) {
            return false;
        }
        match self.network_layer {
            None => true,
            Some(network) => network.matches(frame),
        }
    }
}

impl Layer {
    /// Whether `frame` decodes down to the layer the criteria are anchored
    /// at.
    pub open spec fn reaches(self, frame: Seq<u8>) -> bool {
        match self {
            Layer::Link(_) => EthernetHeader::parse(frame) is Some,
            Layer::Network(_) => ipv4_header_of(frame) is Some,
            Layer::Transport(_) => tcp_header_of(frame) is Some,
        }
    }

    /// Whether `frame` is a reply by these criteria.
    pub open spec fn accepts(self, frame: Seq<u8>) -> bool {
        match self {
            Layer::Link(link) => link.accepts(frame),
            Layer::Network(network) => network.accepts(frame),
            Layer::Transport(transport) => transport.accepts(frame),
        }
    }

    /// These criteria are anchored at the same layer as `wide` and populate
    /// every field that `wide` populates, with the same value.
    pub open spec fn narrows(self, wide: Layer) -> bool {
        match (self, wide) {
            (Layer::Link(link), Layer::Link(wide_link)) => link.narrows(wide_link),
            (Layer::Network(network), Layer::Network(wide_network)) => network.narrows(
                wide_network,
            ),
            (Layer::Transport(transport), Layer::Transport(wide_transport)) => transport.narrows(
                wide_transport,
            ),
            _ => false,
        }
    }

    /// Tests a frame as it came off the wire against the criteria. Any
    /// byte string may be given: one that is truncated or malformed at or
    /// above the anchor layer is no match.
    pub fn matches(&self, frame: &[u8]) -> (matched: bool)
        ensures
            matched == self.accepts(frame@),
            !self.reaches(frame@) ==> !matched,
    {
        match self {
            Layer::Link(link) => link.matches(frame),
            Layer::Network(network) => network.matches(frame),
            Layer::Transport(transport) => transport.matches(frame),
        }
    }
}

/// Criteria accept no frame that fails to decode down to their anchor layer.
pub proof fn lemma_undecodable_frame_is_no_match(criteria: Layer, frame: Seq<u8>)
    requires
        !criteria.reaches(frame),
    ensures
        !criteria.accepts(frame),
{
}

/// Populating more fields never admits more frames: whatever the narrower
/// criteria accept, the wider criteria accept too.
pub proof fn lemma_narrower_criteria_accept_fewer_frames(
    narrow: Layer,
    wide: Layer,
    frame: Seq<u8>,
)
    requires
        narrow.narrows(wide),
        narrow.accepts(frame),
    ensures
        wide.accepts(frame),
{
}

} // verus!
