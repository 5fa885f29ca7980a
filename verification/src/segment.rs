//! Inbound TCP segments: what the scanner reads of one, and how it tells an
//! answer to its probe from unrelated traffic on the same raw socket.
//!
//! The header fields are read through `pnet`'s packet view. What each getter
//! returns is stated here and trusted.

use vstd::prelude::*;
use pnet::packet::tcp::TcpPacket;
use crate::checksum::word;
use crate::packet::{tcp_segment, Probe, TCP_HEADER_LEN};

verus! {

/// The fields of an inbound TCP segment that the scanner looks at.
#[derive(Clone, Copy, Debug, PartialEq, Eq, Structural)]
pub struct InboundSegment {
    pub source_port: u16,
    pub destination_port: u16,
    pub flags: u8,
    pub sequence_number: u32,
    pub acknowledgement_number: u32,
}

/// The big-endian 32-bit number made of four bytes.
pub open spec fn dword(b0: u8, b1: u8, b2: u8, b3: u8) -> nat {
    (b0 as nat) * 0x100_0000 + (b1 as nat) * 0x1_0000 + (b2 as nat) * 0x100 + (b3 as nat)
}

/// `TcpPacket::new` and `get_source`: no view, and so no port, of fewer bytes
/// than a TCP header has; otherwise the big-endian word in bytes 0 and 1.
#[verifier::external_body]
fn tcp_get_source(bytes: &[u8]) -> (port: Option<u16>)
    ensures
        bytes@.len() < TCP_HEADER_LEN ==> port is None,
        bytes@.len() >= TCP_HEADER_LEN ==> port == Some(word(bytes@[0], bytes@[1]) as u16),
{
    match TcpPacket::new(bytes) {
        Some(packet) => Some(packet.get_source()),
        None => None,
    }
}

/// `TcpPacket::new` and `get_destination`: nothing of fewer bytes than a TCP
/// header has; otherwise the big-endian word in bytes 2 and 3.
#[verifier::external_body]
fn tcp_get_destination(bytes: &[u8]) -> (port: Option<u16>)
    ensures
        bytes@.len() < TCP_HEADER_LEN ==> port is None,
        bytes@.len() >= TCP_HEADER_LEN ==> port == Some(word(bytes@[2], bytes@[3]) as u16),
{
    match TcpPacket::new(bytes) {
        Some(packet) => Some(packet.get_destination()),
        None => None,
    }
}

/// `TcpPacket::new` and `get_sequence`: nothing of fewer bytes than a TCP
/// header has; otherwise the big-endian number in bytes 4 to 7.
#[verifier::external_body]
fn tcp_get_sequence(bytes: &[u8]) -> (number: Option<u32>)
    ensures
        bytes@.len() < TCP_HEADER_LEN ==> number is None,
        bytes@.len() >= TCP_HEADER_LEN ==> number == Some(
            dword(bytes@[4], bytes@[5], bytes@[6], bytes@[7]) as u32,
        ),
{
    match TcpPacket::new(bytes) {
        Some(packet) => Some(packet.get_sequence()),
        None => None,
    }
}

/// `TcpPacket::new` and `get_acknowledgement`: nothing of fewer bytes than a
/// TCP header has; otherwise the big-endian number in bytes 8 to 11.
#[verifier::external_body]
fn tcp_get_acknowledgement(bytes: &[u8]) -> (number: Option<u32>)
    ensures
        bytes@.len() < TCP_HEADER_LEN ==> number is None,
        bytes@.len() >= TCP_HEADER_LEN ==> number == Some(
            dword(bytes@[8], bytes@[9], bytes@[10], bytes@[11]) as u32,
        ),
{
    match TcpPacket::new(bytes) {
        Some(packet) => Some(packet.get_acknowledgement()),
        None => None,
    }
}

/// `TcpPacket::new` and `get_flags`: nothing of fewer bytes than a TCP header
/// has; otherwise byte 13.
#[verifier::external_body]
fn tcp_get_flags(bytes: &[u8]) -> (flags: Option<u8>)
    ensures
        bytes@.len() < TCP_HEADER_LEN ==> flags is None,
        bytes@.len() >= TCP_HEADER_LEN ==> flags == Some(bytes@[13]),
{
    match TcpPacket::new(bytes) {
        Some(packet) => Some(packet.get_flags()),
        None => None,
    }
}

/// What `bytes` hold when read as a TCP segment: nothing if they are too few
/// for a TCP header, else the header's ports, numbers and flags.
pub open spec fn segment_of_bytes(bytes: Seq<u8>) -> Option<InboundSegment> {
    if bytes.len() < TCP_HEADER_LEN {
        None
    } else {
        Some(
            InboundSegment {
                source_port: word(bytes[0], bytes[1]) as u16,
                destination_port: word(bytes[2], bytes[3]) as u16,
                flags: bytes[13],
                sequence_number: dword(bytes[4], bytes[5], bytes[6], bytes[7]) as u32,
                acknowledgement_number: dword(bytes[8], bytes[9], bytes[10], bytes[11]) as u32,
            },
        )
    }
}

impl InboundSegment {
    /// Reads the bytes of a TCP segment, header first.
    pub fn parse(bytes: &[u8]) -> (segment: Option<InboundSegment>)
        ensures
            segment == segment_of_bytes(bytes@),
    {
        match (
            tcp_get_source(bytes),
            tcp_get_destination(bytes),
            tcp_get_flags(bytes),
            tcp_get_sequence(bytes),
            tcp_get_acknowledgement(bytes),
        ) {
            (
                Some(source_port),
                Some(destination_port),
                Some(flags),
                Some(sequence_number),
                Some(acknowledgement_number),
            ) => Some(
                InboundSegment {
                    source_port,
                    destination_port,
                    flags,
                    sequence_number,
                    acknowledgement_number,
                },
            ),
            _ => None,
        }
    }

    /// Whether this segment is addressed to the port the probes are sent
    /// from. With one probe outstanding at a time, that makes it an answer to
    /// the outstanding probe; anything else is unrelated traffic.
    pub open spec fn answers_spec(self, probe_source_port: u16) -> bool {
        self.destination_port == probe_source_port
    }

    /// Tests whether this segment is addressed to the port the probes are
    /// sent from.
    pub fn answers(&self, probe_source_port: u16) -> (relevant: bool)
        ensures
            relevant == self.answers_spec(probe_source_port),
    {
        self.destination_port == probe_source_port
    }
}

/// Reading the segment that was built for a probe gives the probe's ports,
/// sequence number and flags back, with no acknowledgement.
pub proof fn lemma_parse_of_built_segment(probe: Probe)
    ensures
        segment_of_bytes(tcp_segment(probe)) == Some(
            InboundSegment {
                source_port: probe.source_port,
                destination_port: probe.destination_port,
                flags: probe.flags,
                sequence_number: probe.sequence_number,
                acknowledgement_number: 0,
            },
        ),
{
}

} // verus!
