//! The Ethernet II frame: two hardware addresses, the type of what is
//! carried, and the payload.

use vstd::prelude::*;
use crate::errors::ScannerError;

verus! {

/// Size in bytes of the Ethernet header.
pub const ETHERNET_HEADER_SIZE: usize = 14;

/// The type number of a frame that carries IPv4.
pub const ETHERTYPE_IPV4: u16 = 0x0800;

/// A hardware address, first octet on the wire first.
#[derive(Clone, Copy, Debug, PartialEq, Eq, Structural)]
pub struct MacAddress(pub u8, pub u8, pub u8, pub u8, pub u8, pub u8);

impl MacAddress {
    /// The address `a:b:c:d:e:f`.
    pub fn new(a: u8, b: u8, c: u8, d: u8, e: u8, f: u8) -> (address: MacAddress)
        ensures
            address == MacAddress(a, b, c, d, e, f),
    {
        MacAddress(a, b, c, d, e, f)
    }
}

/// The fields of an Ethernet header.
#[derive(Clone, Copy, Debug, PartialEq, Eq, Structural)]
pub struct EthernetHeader {
    pub destination: MacAddress,
    pub source: MacAddress,
    pub ethertype: u16,
}

impl EthernetHeader {
    /// The 14 bytes of the header on the wire.
    pub open spec fn bytes(self) -> Seq<u8> {
        seq![
            self.destination.0,
            self.destination.1,
            self.destination.2,
            self.destination.3,
            self.destination.4,
            self.destination.5,
            self.source.0,
            self.source.1,
            self.source.2,
            self.source.3,
            self.source.4,
            self.source.5,
            (self.ethertype / 256) as u8,
            (self.ethertype % 256) as u8,
        ]
    }

    /// The fields read from the first 14 bytes of `frame`.
    pub open spec fn fields_of(frame: Seq<u8>) -> EthernetHeader {
        EthernetHeader {
            destination: MacAddress(frame[0], frame[1], frame[2], frame[3], frame[4], frame[5]),
            source: MacAddress(frame[6], frame[7], frame[8], frame[9], frame[10], frame[11]),
            ethertype: (frame[12] * 256 + frame[13]) as u16,
        }
    }

    /// Whether `frame` is long enough to hold a header.
    pub open spec fn decodes(frame: Seq<u8>) -> bool {
        frame.len() >= 14
    }

    /// The header of `frame`, if it decodes.
    pub open spec fn parse(frame: Seq<u8>) -> Option<EthernetHeader> {
        if Self::decodes(frame) {
            Some(Self::fields_of(frame))
        } else {
            None
        }
    }

    /// What `frame` carries behind its header. Meant for a frame that
    /// decodes.
    pub open spec fn payload_of(frame: Seq<u8>) -> Seq<u8> {
        frame.subrange(14, frame.len() as int)
    }

    /// Whether a payload of `length` bytes and the header fit one buffer.
    pub open spec fn can_frame(length: nat) -> bool {
        14 + length <= usize::MAX
    }

    /// Reads the header at the start of `frame`; nothing is read from a frame
    /// of fewer than 14 bytes.
    pub fn decode(frame: &[u8]) -> (header: Option<EthernetHeader>)
        ensures
            header == Self::parse(frame@),
    {
        if frame.len() < 14 {
            return None;
        }
        Some(
            EthernetHeader {
                destination: MacAddress(frame[0], frame[1], frame[2], frame[3], frame[4], frame[5]),
                source: MacAddress(frame[6], frame[7], frame[8], frame[9], frame[10], frame[11]),
                ethertype: (frame[12] as u16) * 256 + (frame[13] as u16),
            },
        )
    }

    /// The payload of a frame that holds a header.
    pub fn payload(frame: &[u8]) -> (payload: &[u8])
        requires
            Self::decodes(frame@),
        ensures
            payload@ == Self::payload_of(frame@),
    {
        &frame[14..frame.len()]
    }

    /// Puts `payload` behind this header. The one failure is a payload so
    /// long that no buffer can hold it together with the header.
    pub fn frame(&self, payload: &[u8]) -> (framed: Result<Vec<u8>, ScannerError>)
        ensures
            match framed {
                Ok(bytes) => Self::can_frame(payload@.len()) && bytes@ == self.bytes() + payload@,
                Err(error) => !Self::can_frame(payload@.len()) && error
                    == ScannerError::CantCreateEthernetPacket,
            },
    {
        if payload.len() > usize::MAX - 14 {
            return Err(ScannerError::CantCreateEthernetPacket);
        }
        let mut bytes: Vec<u8> = Vec::with_capacity(14 + payload.len());
        bytes.push(self.destination.0);
        bytes.push(self.destination.1);
        bytes.push(self.destination.2);
        bytes.push(self.destination.3);
        bytes.push(self.destination.4);
        bytes.push(self.destination.5);
        bytes.push(self.source.0);
        bytes.push(self.source.1);
        bytes.push(self.source.2);
        bytes.push(self.source.3);
        bytes.push(self.source.4);
        bytes.push(self.source.5);
        bytes.push((self.ethertype / 256) as u8);
        bytes.push((self.ethertype % 256) as u8);
        bytes.extend_from_slice(payload);
        Ok(bytes)
    }
}

/// A frame made of a header and a payload decodes to that header and that
/// payload.
pub proof fn lemma_parse_of_frame(header: EthernetHeader, payload: Seq<u8>)
    ensures
        EthernetHeader::parse(header.bytes() + payload) == Some(header),
        EthernetHeader::payload_of(header.bytes() + payload) == payload,
{
}

} // verus!
