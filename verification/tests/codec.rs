use netprobe::errors::ScannerError;
use netprobe::networking::ethernet::{
    EthernetHeader, MacAddress, ETHERNET_HEADER_SIZE, ETHERTYPE_IPV4,
};
use netprobe::networking::ipv4::{
    IpAddress, Ipv4Address, Ipv4Header, Ipv6Address, IPV4_FLAG_DONT_FRAGMENT, IPV4_HEADER_SIZE,
    IP_PROTOCOL_TCP,
};
use netprobe::networking::segment::{
    TcpHeader, TCP_FLAG_ACK, TCP_FLAG_RST, TCP_FLAG_SYN, TCP_HEADER_SIZE,
};
use pnet::packet::ethernet::{EtherTypes, EthernetPacket};
use pnet::packet::ip::IpNextHeaderProtocols;
use pnet::packet::ipv4::{Ipv4Flags, Ipv4Packet};
use pnet::packet::tcp::{TcpFlags, TcpPacket};
use pnet::packet::Packet;
use pnet::util::core_net::Ipv4Addr;
use pnet::util::MacAddr;

fn sample_ipv4() -> Ipv4Header {
    Ipv4Header {
        version: 4,
        header_length: 5,
        dscp: 46,
        ecn: 1,
        total_length: 0x1234,
        identification: 0xbeef,
        flags: 5,
        fragment_offset: 0x1abc,
        ttl: 200,
        next_level_protocol: 17,
        checksum: 0xa1b2,
        source: Ipv4Address::new(10, 20, 30, 40),
        destination: Ipv4Address::new(50, 60, 70, 80),
    }
}

fn sample_tcp() -> TcpHeader {
    TcpHeader {
        source: 0xabcd,
        destination: 0x0102,
        sequence: 0xdead_beef,
        acknowledgement: 0x0badf00d,
        data_offset: 5,
        reserved: 9,
        flags: TCP_FLAG_SYN | TCP_FLAG_ACK,
        window: 0x7788,
        checksum: 0x99aa,
        urgent_ptr: 0xbbcc,
    }
}

#[test]
fn sizes_and_numbers_are_those_of_the_standards() {
    assert_eq!(ETHERNET_HEADER_SIZE, 14);
    assert_eq!(IPV4_HEADER_SIZE, 20);
    assert_eq!(TCP_HEADER_SIZE, 20);
    assert_eq!(ETHERTYPE_IPV4, EtherTypes::Ipv4.0);
    assert_eq!(IP_PROTOCOL_TCP, IpNextHeaderProtocols::Tcp.0);
    assert_eq!(IPV4_FLAG_DONT_FRAGMENT, Ipv4Flags::DontFragment);
    assert_eq!(TCP_FLAG_SYN, TcpFlags::SYN);
    assert_eq!(TCP_FLAG_ACK, TcpFlags::ACK);
    assert_eq!(TCP_FLAG_RST, TcpFlags::RST);
}

#[test]
fn ipv4_header_has_exact_bytes() {
    let bytes = sample_ipv4().encode();
    assert_eq!(
        bytes,
        [
            0x45, 0xb9, 0x12, 0x34, 0xbe, 0xef, 0xba, 0xbc, 200, 17, 0xa1, 0xb2, 10, 20, 30, 40,
            50, 60, 70, 80
        ]
    );
}

#[test]
fn ipv4_header_is_read_by_pnet_as_written() {
    let header = sample_ipv4();
    let bytes = header.encode();
    let packet = Ipv4Packet::new(&bytes).unwrap();
    assert_eq!(packet.get_version(), header.version);
    assert_eq!(packet.get_header_length(), header.header_length);
    assert_eq!(packet.get_dscp(), header.dscp);
    assert_eq!(packet.get_ecn(), header.ecn);
    assert_eq!(packet.get_total_length(), header.total_length);
    assert_eq!(packet.get_identification(), header.identification);
    assert_eq!(packet.get_flags(), header.flags);
    assert_eq!(packet.get_fragment_offset(), header.fragment_offset);
    assert_eq!(packet.get_ttl(), header.ttl);
    assert_eq!(packet.get_next_level_protocol().0, header.next_level_protocol);
    assert_eq!(packet.get_checksum(), header.checksum);
    assert_eq!(packet.get_source(), Ipv4Addr::new(10, 20, 30, 40));
    assert_eq!(packet.get_destination(), Ipv4Addr::new(50, 60, 70, 80));
}

#[test]
fn ipv4_header_decodes_to_what_was_encoded() {
    let mut header = sample_ipv4();
    header.total_length = 24;
    let mut packet = header.encode().to_vec();
    packet.extend_from_slice(&[1, 2, 3, 4, 5, 6]);
    assert_eq!(Ipv4Header::decode(&packet), Some(header));
    assert_eq!(header.payload(&packet), &[1, 2, 3, 4]);
}

#[test]
fn ipv4_payload_is_what_pnet_takes_for_it() {
    let mut header = sample_ipv4();
    header.header_length = 6;
    header.total_length = 30;
    let mut packet = header.encode().to_vec();
    packet.extend_from_slice(&[9, 9, 9, 9, 1, 2, 3, 4, 5, 6, 7, 8]);
    let decoded = Ipv4Header::decode(&packet).unwrap();
    assert_eq!(decoded, header);
    let by_pnet = Ipv4Packet::new(&packet).unwrap();
    assert_eq!(decoded.payload(&packet), by_pnet.payload());
    assert_eq!(decoded.payload(&packet), &[1, 2, 3, 4, 5, 6]);
}

#[test]
fn ipv4_header_that_cannot_be_relied_on_is_not_decoded() {
    let mut header = sample_ipv4();
    header.total_length = 20;
    let good = header.encode();
    assert_eq!(Ipv4Header::decode(&good), Some(header));
    assert_eq!(Ipv4Header::decode(&good[..19]), None);
    assert_eq!(Ipv4Header::decode(&[]), None);

    let mut other_version = good;
    other_version[0] = 0x65;
    assert_eq!(Ipv4Header::decode(&other_version), None);

    let mut short_header = good;
    short_header[0] = 0x44;
    assert_eq!(Ipv4Header::decode(&short_header), None);

    let mut options_beyond_total = good;
    options_beyond_total[0] = 0x46;
    assert_eq!(Ipv4Header::decode(&options_beyond_total), None);

    let mut total_beyond_bytes = good;
    total_beyond_bytes[3] = 21;
    assert_eq!(Ipv4Header::decode(&total_beyond_bytes), None);
}

#[test]
fn ipv4_seal_stores_the_checksum_pnet_computes() {
    let mut header = sample_ipv4();
    header.checksum = 0x5555;
    let sealed = header.seal();
    let bytes = sealed.encode();
    let expected = pnet::packet::ipv4::checksum(&Ipv4Packet::new(&bytes).unwrap());
    assert_eq!(sealed.checksum, expected);
    assert_eq!(sealed.checksum, 0xc58b);
    assert_eq!(Ipv4Header { checksum: 0x5555, ..sealed }, header);
}

#[test]
fn tcp_header_has_exact_bytes() {
    let bytes = sample_tcp().encode();
    assert_eq!(
        bytes,
        [
            0xab, 0xcd, 0x01, 0x02, 0xde, 0xad, 0xbe, 0xef, 0x0b, 0xad, 0xf0, 0x0d, 0x59, 0x12,
            0x77, 0x88, 0x99, 0xaa, 0xbb, 0xcc
        ]
    );
}

#[test]
fn tcp_header_is_read_by_pnet_as_written() {
    let header = sample_tcp();
    let bytes = header.encode();
    let packet = TcpPacket::new(&bytes).unwrap();
    assert_eq!(packet.get_source(), header.source);
    assert_eq!(packet.get_destination(), header.destination);
    assert_eq!(packet.get_sequence(), header.sequence);
    assert_eq!(packet.get_acknowledgement(), header.acknowledgement);
    assert_eq!(packet.get_data_offset(), header.data_offset);
    assert_eq!(packet.get_reserved(), header.reserved);
    assert_eq!(packet.get_flags(), header.flags);
    assert_eq!(packet.get_window(), header.window);
    assert_eq!(packet.get_checksum(), header.checksum);
    assert_eq!(packet.get_urgent_ptr(), header.urgent_ptr);
}

#[test]
fn tcp_header_decodes_to_what_was_encoded() {
    let header = sample_tcp();
    let mut segment = header.encode().to_vec();
    assert_eq!(TcpHeader::decode(&segment), Some(header));
    segment.extend_from_slice(&[7, 7, 7]);
    assert_eq!(TcpHeader::decode(&segment), Some(header));
}

#[test]
fn tcp_header_that_cannot_be_relied_on_is_not_decoded() {
    let good = sample_tcp().encode();
    assert_eq!(TcpHeader::decode(&good[..19]), None);
    assert_eq!(TcpHeader::decode(&[]), None);

    let mut short_header = good;
    short_header[12] = 0x49;
    assert_eq!(TcpHeader::decode(&short_header), None);

    let mut options_beyond_bytes = good;
    options_beyond_bytes[12] = 0x69;
    assert_eq!(TcpHeader::decode(&options_beyond_bytes), None);

    let mut with_options = options_beyond_bytes.to_vec();
    with_options.extend_from_slice(&[1, 1, 1, 1]);
    let decoded = TcpHeader::decode(&with_options).unwrap();
    assert_eq!(decoded.data_offset, 6);
    assert_eq!(decoded.source, 0xabcd);
}

#[test]
fn tcp_seal_stores_the_checksum_pnet_computes() {
    let header = sample_tcp();
    let source = Ipv4Address::new(10, 20, 30, 40);
    let destination = Ipv4Address::new(50, 60, 70, 80);
    let sealed = header.seal(source, destination);
    let bytes = sealed.encode();
    let expected = pnet::packet::tcp::ipv4_checksum(
        &TcpPacket::new(&bytes).unwrap(),
        &Ipv4Addr::new(10, 20, 30, 40),
        &Ipv4Addr::new(50, 60, 70, 80),
    );
    assert_eq!(sealed.checksum, expected);
    assert_eq!(sealed.checksum, 0x8c8d);
    assert_eq!(TcpHeader { checksum: 0x99aa, ..sealed }, header);
    // The addresses are part of what is summed.
    assert_ne!(header.seal(destination, Ipv4Address::new(1, 1, 1, 1)).checksum, sealed.checksum);
}

#[test]
fn ethernet_frame_has_exact_bytes() {
    let header = EthernetHeader {
        destination: MacAddress::new(0xde, 0xf0, 0x12, 0x34, 0x45, 0x67),
        source: MacAddress::new(0x12, 0x34, 0x56, 0x78, 0x9a, 0xbc),
        ethertype: ETHERTYPE_IPV4,
    };
    let frame = header.frame(&[0xaa, 0xbb, 0xcc]).unwrap();
    assert_eq!(
        frame,
        vec![
            0xde, 0xf0, 0x12, 0x34, 0x45, 0x67, 0x12, 0x34, 0x56, 0x78, 0x9a, 0xbc, 0x08, 0x00,
            0xaa, 0xbb, 0xcc
        ]
    );
    let without_payload = header.frame(&[]).unwrap();
    assert_eq!(without_payload.len(), 14);
}

#[test]
fn ethernet_frame_is_read_by_pnet_as_written() {
    let header = EthernetHeader {
        destination: MacAddress::new(1, 2, 3, 4, 5, 6),
        source: MacAddress::new(7, 8, 9, 10, 11, 12),
        ethertype: 0x86dd,
    };
    let frame = header.frame(&[42; 46]).unwrap();
    let packet = EthernetPacket::new(&frame).unwrap();
    assert_eq!(packet.get_destination(), MacAddr(1, 2, 3, 4, 5, 6));
    assert_eq!(packet.get_source(), MacAddr(7, 8, 9, 10, 11, 12));
    assert_eq!(packet.get_ethertype(), EtherTypes::Ipv6);
    assert_eq!(packet.payload(), &[42; 46]);
}

#[test]
fn ethernet_frame_decodes_to_what_was_framed() {
    let header = EthernetHeader {
        destination: MacAddress::new(1, 2, 3, 4, 5, 6),
        source: MacAddress::new(7, 8, 9, 10, 11, 12),
        ethertype: 0x0806,
    };
    let frame = header.frame(&[5, 4, 3]).unwrap();
    assert_eq!(EthernetHeader::decode(&frame), Some(header));
    assert_eq!(EthernetHeader::payload(&frame), &[5, 4, 3]);
    assert_eq!(EthernetHeader::decode(&frame[..14]), Some(header));
    assert_eq!(EthernetHeader::payload(&frame[..14]), &[] as &[u8]);
    assert_eq!(EthernetHeader::decode(&frame[..13]), None);
    assert_eq!(EthernetHeader::decode(&[]), None);
}

#[test]
fn framing_a_full_size_payload_succeeds() {
    let header = EthernetHeader {
        destination: MacAddress::new(1, 2, 3, 4, 5, 6),
        source: MacAddress::new(7, 8, 9, 10, 11, 12),
        ethertype: ETHERTYPE_IPV4,
    };
    let framed: Result<Vec<u8>, ScannerError> = header.frame(&[0; 1500]);
    assert_eq!(framed.map(|frame| frame.len()), Ok(1514));
}

#[test]
fn only_ipv4_addresses_are_admitted_to_the_builder() {
    let address = Ipv4Address::new(192, 168, 1, 1);
    assert_eq!(IpAddress::V4(address).ipv4(), Ok(address));
    assert_eq!(
        IpAddress::V6(Ipv6Address(1)).ipv4(),
        Err(ScannerError::UnsupportedIpVersion)
    );
    assert_eq!(
        IpAddress::V6(Ipv6Address(0xc0a8_0101)).ipv4(),
        Err(ScannerError::UnsupportedIpVersion)
    );
}

/// The receiver's sum, written out independently of the library and of pnet.
fn folded_sum(bytes: &[u8]) -> u32 {
    let mut sum: u32 = 0;
    for (i, byte) in bytes.iter().enumerate() {
        sum += if i % 2 == 0 {
            (*byte as u32) << 8
        } else {
            *byte as u32
        };
    }
    while sum > 0xffff {
        sum = (sum >> 16) + (sum & 0xffff);
    }
    sum
}

/// A sequence of numbers that looks arbitrary and is the same on every run.
fn next(state: &mut u64) -> u64 {
    *state = state
        .wrapping_mul(6364136223846793005)
        .wrapping_add(1442695040888963407);
    *state >> 16
}

#[test]
fn sealed_ipv4_headers_pass_the_receivers_test() {
    let mut state = 1;
    for _ in 0..2000 {
        let header = Ipv4Header {
            version: (next(&mut state) % 16) as u8,
            header_length: (next(&mut state) % 16) as u8,
            dscp: (next(&mut state) % 64) as u8,
            ecn: (next(&mut state) % 4) as u8,
            total_length: next(&mut state) as u16,
            identification: next(&mut state) as u16,
            flags: (next(&mut state) % 8) as u8,
            fragment_offset: (next(&mut state) % 8192) as u16,
            ttl: next(&mut state) as u8,
            next_level_protocol: next(&mut state) as u8,
            checksum: next(&mut state) as u16,
            source: Ipv4Address::new(
                next(&mut state) as u8,
                next(&mut state) as u8,
                next(&mut state) as u8,
                next(&mut state) as u8,
            ),
            destination: Ipv4Address::new(
                next(&mut state) as u8,
                next(&mut state) as u8,
                next(&mut state) as u8,
                next(&mut state) as u8,
            ),
        };
        let sealed = header.seal();
        assert_eq!(folded_sum(&sealed.encode()), 0xffff);
        assert_eq!(Ipv4Header { checksum: header.checksum, ..sealed }, header);
    }
}

#[test]
fn sealed_tcp_headers_pass_the_receivers_test() {
    let mut state = 2;
    for _ in 0..2000 {
        let header = TcpHeader {
            source: next(&mut state) as u16,
            destination: next(&mut state) as u16,
            sequence: next(&mut state) as u32,
            acknowledgement: next(&mut state) as u32,
            data_offset: (next(&mut state) % 16) as u8,
            reserved: (next(&mut state) % 16) as u8,
            flags: next(&mut state) as u8,
            window: next(&mut state) as u16,
            checksum: next(&mut state) as u16,
            urgent_ptr: next(&mut state) as u16,
        };
        let source = [
            next(&mut state) as u8,
            next(&mut state) as u8,
            next(&mut state) as u8,
            next(&mut state) as u8,
        ];
        let destination = [
            next(&mut state) as u8,
            next(&mut state) as u8,
            next(&mut state) as u8,
            next(&mut state) as u8,
        ];
        let sealed = header.seal(
            Ipv4Address::new(source[0], source[1], source[2], source[3]),
            Ipv4Address::new(
                destination[0],
                destination[1],
                destination[2],
                destination[3],
            ),
        );
        let mut summed = Vec::new();
        summed.extend_from_slice(&source);
        summed.extend_from_slice(&destination);
        summed.extend_from_slice(&[0, 6, 0, 20]);
        summed.extend_from_slice(&sealed.encode());
        assert_eq!(folded_sum(&summed), 0xffff);
        assert_eq!(TcpHeader { checksum: header.checksum, ..sealed }, header);
    }
}

#[test]
fn an_all_ones_header_has_checksum_zero_stored_as_such() {
    // Every word but the checksum is 0xffff: the sum folds to 0xffff and its
    // complement is zero.
    let header = Ipv4Header {
        version: 15,
        header_length: 15,
        dscp: 63,
        ecn: 3,
        total_length: 0xffff,
        identification: 0xffff,
        flags: 7,
        fragment_offset: 0x1fff,
        ttl: 0xff,
        next_level_protocol: 0xff,
        checksum: 0x1234,
        source: Ipv4Address::new(255, 255, 255, 255),
        destination: Ipv4Address::new(255, 255, 255, 255),
    };
    assert_eq!(header.seal().checksum, 0);
}
