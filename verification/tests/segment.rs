use pnet::packet::tcp::MutableTcpPacket;
use syn_scan::address::Ipv4Address;
use syn_scan::packet::Probe;
use syn_scan::segment::InboundSegment;

fn syn_ack_bytes() -> Vec<u8> {
    vec![
        0x00, 0x50, 0xD4, 0x31, 0x01, 0x02, 0x03, 0x04, 0x00, 0x00, 0x00, 0x01, 0x50, 0x12, 0xFA,
        0xF0, 0x00, 0x00, 0x00, 0x00,
    ]
}

#[test]
fn parse_reads_the_header_fields() {
    let segment = InboundSegment::parse(&syn_ack_bytes()).unwrap();
    assert_eq!(
        segment,
        InboundSegment {
            source_port: 80,
            destination_port: 54321,
            flags: 0x12,
            sequence_number: 0x01020304,
            acknowledgement_number: 1,
        }
    );
}

#[test]
fn parse_reads_largest_values() {
    let bytes = vec![0xFFu8; 20];
    let segment = InboundSegment::parse(&bytes).unwrap();
    assert_eq!(segment.source_port, 65535);
    assert_eq!(segment.destination_port, 65535);
    assert_eq!(segment.flags, 0xFF);
    assert_eq!(segment.sequence_number, 0xFFFF_FFFF);
    assert_eq!(segment.acknowledgement_number, 0xFFFF_FFFF);
}

#[test]
fn parse_ignores_options_and_payload() {
    let mut bytes = syn_ack_bytes();
    bytes.extend_from_slice(&[1, 2, 3, 4, 5, 6, 7]);
    let segment = InboundSegment::parse(&bytes).unwrap();
    assert_eq!(segment.source_port, 80);
    assert_eq!(segment.destination_port, 54321);
    assert_eq!(segment.flags, 0x12);
}

#[test]
fn parse_rejects_short_input() {
    assert_eq!(InboundSegment::parse(&[]), None);
    assert_eq!(InboundSegment::parse(&[0u8; 19]), None);
    assert_eq!(InboundSegment::parse(&syn_ack_bytes()[..19]), None);
    assert!(InboundSegment::parse(&[0u8; 20]).is_some());
}

#[test]
fn parse_agrees_with_segments_written_by_pnet() {
    let mut buffer = [0u8; 24];
    {
        let mut packet = MutableTcpPacket::new(&mut buffer).unwrap();
        packet.set_source(443);
        packet.set_destination(54321);
        packet.set_sequence(0xCAFEBABE);
        packet.set_acknowledgement(0x00000001);
        packet.set_data_offset(6);
        packet.set_flags(0x14);
        packet.set_window(1024);
    }
    let segment = InboundSegment::parse(&buffer).unwrap();
    assert_eq!(
        segment,
        InboundSegment {
            source_port: 443,
            destination_port: 54321,
            flags: 0x14,
            sequence_number: 0xCAFEBABE,
            acknowledgement_number: 1,
        }
    );
}

#[test]
fn parse_of_built_probe_gives_the_probe_back() {
    let probe = Probe {
        source_ip: Ipv4Address::new(10, 0, 0, 1),
        destination_ip: Ipv4Address::new(10, 0, 0, 2),
        source_port: 54321,
        destination_port: 8080,
        sequence_number: 77,
        flags: 0x02,
    };
    let segment = InboundSegment::parse(&probe.tcp_segment()).unwrap();
    assert_eq!(
        segment,
        InboundSegment {
            source_port: 54321,
            destination_port: 8080,
            flags: 0x02,
            sequence_number: 77,
            acknowledgement_number: 0,
        }
    );
}

#[test]
fn answers_compares_the_destination_port() {
    let segment = InboundSegment::parse(&syn_ack_bytes()).unwrap();
    assert!(segment.answers(54321));
    assert!(!segment.answers(54320));
    assert!(!segment.answers(80));
    assert!(!segment.answers(0));
}
