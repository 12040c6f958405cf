//! The closed set of failures a probe can report.

use vstd::prelude::*;

verus! {

/// Failures of resolution, of packet construction and of reply validation.
#[derive(Clone, Copy, Debug, PartialEq, Eq, Structural)]
pub enum ScannerError {
    CantFindRouterAddress,
    CantFindInterface,
    CantFindMacAddress,
    CantCreateEthernetPacket,
    CantCreateIpv4Packet,
    CantCreateTcpPacket,
    CantCreateIcmpPacket,
    UnsupportedIpVersion,
    UnexpectedTcpFlags,
    UnexpectedIcmpResponse,
}

/// Failures of the raw channel itself; always fatal to the probe in flight.
#[derive(Clone, Copy, Debug, PartialEq, Eq, Structural)]
pub enum ChannelError {
    UnexpectedChannelType,
    SendError,
}

impl ScannerError {
    /// The text shown for each failure.
    pub open spec fn message_text(self) -> Seq<char> {
        match self {
            ScannerError::CantFindRouterAddress => "Cannot find a router address."@,
            ScannerError::CantFindInterface => "Cannot find an interface."@,
            ScannerError::CantFindMacAddress => "Cannot find a MAC address."@,
            ScannerError::CantCreateEthernetPacket => "Cannot create an Ethernet packet."@,
            ScannerError::CantCreateIpv4Packet => "Cannot create an IPv4 packet."@,
            ScannerError::CantCreateTcpPacket => "Cannot create a TCP packet."@,
            ScannerError::CantCreateIcmpPacket => "Cannot create an ICMP packet."@,
            ScannerError::UnsupportedIpVersion => "This IP protocol version is not supported."@,
            ScannerError::UnexpectedTcpFlags => "Unexpected TCP flags set."@,
            ScannerError::UnexpectedIcmpResponse => "Unexpected ICMP response."@,
        }
    }

    /// Renders the failure as a sentence for the user.
    pub fn message(&self) -> (text: String)
        ensures
            text@ == self.message_text(),
    {
        match self {
            ScannerError::CantFindRouterAddress => "Cannot find a router address.".to_owned(),
            ScannerError::CantFindInterface => "Cannot find an interface.".to_owned(),
            ScannerError::CantFindMacAddress => "Cannot find a MAC address.".to_owned(),
            ScannerError::CantCreateEthernetPacket => "Cannot create an Ethernet packet.".to_owned(),
            ScannerError::CantCreateIpv4Packet => "Cannot create an IPv4 packet.".to_owned(),
            ScannerError::CantCreateTcpPacket => "Cannot create a TCP packet.".to_owned(),
            ScannerError::CantCreateIcmpPacket => "Cannot create an ICMP packet.".to_owned(),
            ScannerError::UnsupportedIpVersion => "This IP protocol version is not supported.".to_owned(),
            ScannerError::UnexpectedTcpFlags => "Unexpected TCP flags set.".to_owned(),
            ScannerError::UnexpectedIcmpResponse => "Unexpected ICMP response.".to_owned(),
        }
    }
}

impl ChannelError {
    /// The text shown for each failure.
    pub open spec fn message_text(self) -> Seq<char> {
        match self {
            ChannelError::UnexpectedChannelType => "Unexpected channel type"@,
            ChannelError::SendError => "Send error"@,
        }
    }

    /// Renders the failure as a sentence for the user.
    pub fn message(&self) -> (text: String)
        ensures
            text@ == self.message_text(),
    {
        match self {
            ChannelError::UnexpectedChannelType => "Unexpected channel type".to_owned(),
            ChannelError::SendError => "Send error".to_owned(),
        }
    }
}

} // verus!
