use pnet::packet::ipv4::Ipv4Packet;
use pnet::packet::tcp::{TcpFlags, TcpPacket};
use pnet::packet::Packet;
use syn_scan::address::Ipv4Address;
use syn_scan::checksum::checksum;
use syn_scan::flags;
use syn_scan::packet::{
    build_ipv4_header, build_tcp_segment, Probe, DEFAULT_SOURCE_PORT, IPV4_HEADER_LEN,
    PROBE_LEN, PROBE_TTL, PROBE_WINDOW, PROTOCOL_TCP, TCP_HEADER_LEN,
};

fn source() -> Ipv4Address {
    Ipv4Address::new(192, 168, 1, 10)
}

fn destination() -> Ipv4Address {
    Ipv4Address::new(203, 0, 113, 5)
}

#[test]
fn checksum_of_known_header() {
    let header: [u8; 20] = [
        0x45, 0x00, 0x00, 0x73, 0x00, 0x00, 0x40, 0x00, 0x40, 0x11, 0x00, 0x00, 0xc0, 0xa8,
        0x00, 0x01, 0xc0, 0xa8, 0x00, 0xc7,
    ];
    assert_eq!(checksum(&header), 0xb861);
}

#[test]
fn checksum_edge_cases() {
    assert_eq!(checksum(&[]), 0xFFFF);
    assert_eq!(checksum(&[0x01]), 0xFEFF);
    assert_eq!(checksum(&[0xFF, 0xFF]), 0x0000);
    assert_eq!(
        checksum(&[0x00, 0x01, 0xf2, 0x03, 0xf4, 0xf5, 0xf6, 0xf7]),
        0x220d
    );
}

#[test]
fn checksum_of_data_with_its_checksum_is_zero() {
    let header = build_ipv4_header(source(), destination());
    assert_eq!(checksum(&header), 0);
}

#[test]
fn ipv4_header_bytes_are_exact() {
    let header = build_ipv4_header(source(), destination());
    assert_eq!(
        header,
        vec![69, 0, 0, 40, 0, 0, 0, 0, 64, 6, 125, 24, 192, 168, 1, 10, 203, 0, 113, 5]
    );
}

#[test]
fn ipv4_header_reads_back_through_pnet() {
    let header = build_ipv4_header(source(), destination());
    assert_eq!(header.len(), IPV4_HEADER_LEN);
    let view = Ipv4Packet::new(&header).unwrap();
    assert_eq!(view.get_version(), 4);
    assert_eq!(view.get_header_length(), 5);
    assert_eq!(view.get_total_length() as usize, PROBE_LEN);
    assert_eq!(view.get_ttl(), PROBE_TTL);
    assert_eq!(view.get_next_level_protocol().0, PROTOCOL_TCP);
    assert_eq!(view.get_source().octets(), [192, 168, 1, 10]);
    assert_eq!(view.get_destination().octets(), [203, 0, 113, 5]);
    assert_eq!(view.get_checksum(), pnet::packet::ipv4::checksum(&view));
    assert_ne!(view.get_checksum(), 0);
}

#[test]
fn tcp_segment_bytes_are_exact() {
    let probe = Probe::syn(source(), destination(), DEFAULT_SOURCE_PORT, 80);
    let segment = build_tcp_segment(&probe);
    assert_eq!(
        segment,
        vec![212, 49, 0, 80, 0, 0, 0, 0, 0, 0, 0, 0, 80, 2, 250, 240, 226, 183, 0, 0]
    );
}

#[test]
fn tcp_segment_reads_back_through_pnet() {
    let probe = Probe::syn(source(), destination(), DEFAULT_SOURCE_PORT, 443);
    let segment = probe.tcp_segment();
    assert_eq!(segment.len(), TCP_HEADER_LEN);
    let view = TcpPacket::new(&segment).unwrap();
    assert_eq!(view.get_source(), 54321);
    assert_eq!(view.get_destination(), 443);
    assert_eq!(view.get_sequence(), 0);
    assert_eq!(view.get_acknowledgement(), 0);
    assert_eq!(view.get_data_offset(), 5);
    assert_eq!(view.get_flags(), TcpFlags::SYN);
    assert_eq!(view.get_window(), PROBE_WINDOW);
    assert_eq!(view.get_urgent_ptr(), 0);
    assert!(view.payload().is_empty());
    let expected = pnet::packet::tcp::ipv4_checksum(
        &view,
        &[192, 168, 1, 10].into(),
        &[203, 0, 113, 5].into(),
    );
    assert_eq!(view.get_checksum(), expected);
    assert_ne!(view.get_checksum(), 0);
}

#[test]
fn tcp_segment_carries_any_sequence_number_and_flags() {
    let probe = Probe {
        source_ip: source(),
        destination_ip: destination(),
        source_port: 0x1234,
        destination_port: 0xABCD,
        sequence_number: 0xDEADBEEF,
        flags: flags::SYN | flags::ACK,
    };
    let segment = build_tcp_segment(&probe);
    assert_eq!(&segment[0..8], &[0x12, 0x34, 0xAB, 0xCD, 0xDE, 0xAD, 0xBE, 0xEF]);
    assert_eq!(segment[13], 0x12);
    let view = TcpPacket::new(&segment).unwrap();
    assert_eq!(view.get_sequence(), 0xDEADBEEF);
    let expected = pnet::packet::tcp::ipv4_checksum(
        &view,
        &[192, 168, 1, 10].into(),
        &[203, 0, 113, 5].into(),
    );
    assert_eq!(view.get_checksum(), expected);
}

#[test]
fn probe_packet_is_header_then_segment() {
    let probe = Probe::syn(source(), destination(), DEFAULT_SOURCE_PORT, 80);
    let packet = probe.packet();
    assert_eq!(packet.len(), PROBE_LEN);
    assert_eq!(&packet[..20], &probe.ipv4_header()[..]);
    assert_eq!(&packet[20..], &probe.tcp_segment()[..]);
}

#[test]
fn syn_probe_has_sequence_zero_and_only_syn() {
    let probe = Probe::syn(source(), destination(), 54321, 22);
    assert_eq!(probe.sequence_number, 0);
    assert_eq!(probe.flags, 0x02);
    assert_eq!(probe.source_port, 54321);
    assert_eq!(probe.destination_port, 22);
    assert_eq!(probe.source_ip, source());
    assert_eq!(probe.destination_ip, destination());
}

#[test]
fn flag_bits_match_pnet() {
    assert_eq!(flags::FIN, TcpFlags::FIN);
    assert_eq!(flags::SYN, TcpFlags::SYN);
    assert_eq!(flags::RST, TcpFlags::RST);
    assert_eq!(flags::PSH, TcpFlags::PSH);
    assert_eq!(flags::ACK, TcpFlags::ACK);
    assert_eq!(flags::URG, TcpFlags::URG);
    assert_eq!(PROTOCOL_TCP, pnet::packet::ip::IpNextHeaderProtocols::Tcp.0);
}
