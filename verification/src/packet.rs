//! The probe and its bytes: a minimal IPv4 header and a TCP segment without
//! options or payload, both with their checksums in place.
//!
//! The header fields are written through `pnet`'s packet views. What each
//! setter does to the buffer is stated here and trusted; that the finished
//! buffers hold the intended bytes, and that their checksums hold, is proved.

use vstd::prelude::*;
use pnet::packet::ip::IpNextHeaderProtocol;
use pnet::packet::ipv4::MutableIpv4Packet;
use pnet::packet::tcp::MutableTcpPacket;
use crate::address::Ipv4Address;
use crate::checksum::{
    checksum, checksum_holds, high_byte, internet_checksum, lemma_stored_checksum_holds,
    low_byte, with_word_at,
};
use crate::flags::SYN;

verus! {

/// Length in bytes of an IPv4 header without options.
pub const IPV4_HEADER_LEN: usize = 20;

/// Length in bytes of a TCP header without options.
pub const TCP_HEADER_LEN: usize = 20;

/// Length in bytes of a whole probe: IPv4 header and TCP header, no payload.
pub const PROBE_LEN: usize = 40;

/// The IP version number of IPv4.
pub const IPV4_VERSION: u8 = 4;

/// Length of either header in 32-bit words, as the length fields state it.
pub const HEADER_WORDS: u8 = 5;

/// Time to live of a probe.
pub const PROBE_TTL: u8 = 64;

/// The IP protocol number of TCP.
pub const PROTOCOL_TCP: u8 = 6;

/// Receive window that a probe advertises.
pub const PROBE_WINDOW: u16 = 64240;

/// The source port that every probe uses unless configured otherwise.
pub const DEFAULT_SOURCE_PORT: u16 = 54321;

/// `byte` with its high four bits replaced by the low four bits of `value`.
pub open spec fn with_high_nibble(byte: u8, value: u8) -> u8 {
    (byte & 0x0f) | ((value & 0x0f) << 4)
}

/// `byte` with its low four bits replaced by the low four bits of `value`.
pub open spec fn with_low_nibble(byte: u8, value: u8) -> u8 {
    (byte & 0xf0) | (value & 0x0f)
}

/// `bytes` with the 32-bit `value` stored big-endian at `offset`.
pub open spec fn with_dword_at(bytes: Seq<u8>, offset: int, value: u32) -> Seq<u8> {
    bytes.update(offset, (value / 0x100_0000) as u8).update(
        offset + 1,
        (value / 0x1_0000 % 0x100) as u8,
    ).update(offset + 2, (value / 0x100 % 0x100) as u8).update(offset + 3, (value % 0x100) as u8)
}

/// `bytes` with the four octets of `address` stored at `offset`.
pub open spec fn with_address_at(bytes: Seq<u8>, offset: int, address: Ipv4Address) -> Seq<u8> {
    bytes.update(offset, address.a).update(offset + 1, address.b).update(
        offset + 2,
        address.c,
    ).update(offset + 3, address.d)
}

/// `MutableIpv4Packet::set_version`: stores the low four bits of `version` in
/// the high half of byte 0 and leaves every other bit of the buffer alone.
#[verifier::external_body]
fn ipv4_set_version(header: &mut Vec<u8>, version: u8)
    requires
        old(header)@.len() >= IPV4_HEADER_LEN,
    ensures
        final(header)@ == old(header)@.update(0, with_high_nibble(old(header)@[0], version)),
{
    if let Some(mut packet) = MutableIpv4Packet::new(header.as_mut_slice()) {
        packet.set_version(version);
    }
}

/// `MutableIpv4Packet::set_header_length`: stores the low four bits of
/// `words` in the low half of byte 0 and leaves every other bit alone.
#[verifier::external_body]
fn ipv4_set_header_length(header: &mut Vec<u8>, words: u8)
    requires
        old(header)@.len() >= IPV4_HEADER_LEN,
    ensures
        final(header)@ == old(header)@.update(0, with_low_nibble(old(header)@[0], words)),
{
    if let Some(mut packet) = MutableIpv4Packet::new(header.as_mut_slice()) {
        packet.set_header_length(words);
    }
}

/// `MutableIpv4Packet::set_total_length`: stores `length` big-endian in bytes
/// 2 and 3.
#[verifier::external_body]
fn ipv4_set_total_length(header: &mut Vec<u8>, length: u16)
    requires
        old(header)@.len() >= IPV4_HEADER_LEN,
    ensures
        final(header)@ == with_word_at(old(header)@, 2, length),
{
    if let Some(mut packet) = MutableIpv4Packet::new(header.as_mut_slice()) {
        packet.set_total_length(length);
    }
}

/// `MutableIpv4Packet::set_ttl`: stores `ttl` in byte 8.
#[verifier::external_body]
fn ipv4_set_ttl(header: &mut Vec<u8>, ttl: u8)
    requires
        old(header)@.len() >= IPV4_HEADER_LEN,
    ensures
        final(header)@ == old(header)@.update(8, ttl),
{
    if let Some(mut packet) = MutableIpv4Packet::new(header.as_mut_slice()) {
        packet.set_ttl(ttl);
    }
}

/// `MutableIpv4Packet::set_next_level_protocol`: stores the protocol number
/// in byte 9.
#[verifier::external_body]
fn ipv4_set_next_level_protocol(header: &mut Vec<u8>, protocol: u8)
    requires
        old(header)@.len() >= IPV4_HEADER_LEN,
    ensures
        final(header)@ == old(header)@.update(9, protocol),
{
    if let Some(mut packet) = MutableIpv4Packet::new(header.as_mut_slice()) {
        packet.set_next_level_protocol(IpNextHeaderProtocol::new(protocol));
    }
}

/// `MutableIpv4Packet::set_checksum`: stores `value` big-endian in bytes 10
/// and 11.
#[verifier::external_body]
fn ipv4_set_checksum(header: &mut Vec<u8>, value: u16)
    requires
        old(header)@.len() >= IPV4_HEADER_LEN,
    ensures
        final(header)@ == with_word_at(old(header)@, 10, value),
{
    if let Some(mut packet) = MutableIpv4Packet::new(header.as_mut_slice()) {
        packet.set_checksum(value);
    }
}

/// `MutableIpv4Packet::set_source`: stores the four octets of `address` in
/// bytes 12 to 15.
#[verifier::external_body]
fn ipv4_set_source(header: &mut Vec<u8>, address: Ipv4Address)
    requires
        old(header)@.len() >= IPV4_HEADER_LEN,
    ensures
        final(header)@ == with_address_at(old(header)@, 12, address),
{
    if let Some(mut packet) = MutableIpv4Packet::new(header.as_mut_slice()) {
        packet.set_source([address.a, address.b, address.c, address.d].into());
    }
}

/// `MutableIpv4Packet::set_destination`: stores the four octets of `address`
/// in bytes 16 to 19.
#[verifier::external_body]
fn ipv4_set_destination(header: &mut Vec<u8>, address: Ipv4Address)
    requires
        old(header)@.len() >= IPV4_HEADER_LEN,
    ensures
        final(header)@ == with_address_at(old(header)@, 16, address),
{
    if let Some(mut packet) = MutableIpv4Packet::new(header.as_mut_slice()) {
        packet.set_destination([address.a, address.b, address.c, address.d].into());
    }
}

/// `MutableTcpPacket::set_source`: stores `port` big-endian in bytes 0 and 1.
#[verifier::external_body]
fn tcp_set_source(segment: &mut Vec<u8>, port: u16)
    requires
        old(segment)@.len() >= TCP_HEADER_LEN,
    ensures
        final(segment)@ == with_word_at(old(segment)@, 0, port),
{
    if let Some(mut packet) = MutableTcpPacket::new(segment.as_mut_slice()) {
        packet.set_source(port);
    }
}

/// `MutableTcpPacket::set_destination`: stores `port` big-endian in bytes 2
/// and 3.
#[verifier::external_body]
fn tcp_set_destination(segment: &mut Vec<u8>, port: u16)
    requires
        old(segment)@.len() >= TCP_HEADER_LEN,
    ensures
        final(segment)@ == with_word_at(old(segment)@, 2, port),
{
    if let Some(mut packet) = MutableTcpPacket::new(segment.as_mut_slice()) {
        packet.set_destination(port);
    }
}

/// `MutableTcpPacket::set_sequence`: stores `number` big-endian in bytes 4 to
/// 7.
#[verifier::external_body]
fn tcp_set_sequence(segment: &mut Vec<u8>, number: u32)
    requires
        old(segment)@.len() >= TCP_HEADER_LEN,
    ensures
        final(segment)@ == with_dword_at(old(segment)@, 4, number),
{
    if let Some(mut packet) = MutableTcpPacket::new(segment.as_mut_slice()) {
        packet.set_sequence(number);
    }
}

/// `MutableTcpPacket::set_data_offset`: stores the low four bits of `words`
/// in the high half of byte 12 and leaves every other bit alone.
#[verifier::external_body]
fn tcp_set_data_offset(segment: &mut Vec<u8>, words: u8)
    requires
        old(segment)@.len() >= TCP_HEADER_LEN,
    ensures
        final(segment)@ == old(segment)@.update(12, with_high_nibble(old(segment)@[12], words)),
{
    if let Some(mut packet) = MutableTcpPacket::new(segment.as_mut_slice()) {
        packet.set_data_offset(words);
    }
}

/// `MutableTcpPacket::set_flags`: stores the flags in byte 13.
#[verifier::external_body]
fn tcp_set_flags(segment: &mut Vec<u8>, flags: u8)
    requires
        old(segment)@.len() >= TCP_HEADER_LEN,
    ensures
        final(segment)@ == old(segment)@.update(13, flags),
{
    if let Some(mut packet) = MutableTcpPacket::new(segment.as_mut_slice()) {
        packet.set_flags(flags);
    }
}

/// `MutableTcpPacket::set_window`: stores `window` big-endian in bytes 14 and
/// 15.
#[verifier::external_body]
fn tcp_set_window(segment: &mut Vec<u8>, window: u16)
    requires
        old(segment)@.len() >= TCP_HEADER_LEN,
    ensures
        final(segment)@ == with_word_at(old(segment)@, 14, window),
{
    if let Some(mut packet) = MutableTcpPacket::new(segment.as_mut_slice()) {
        packet.set_window(window);
    }
}

/// `MutableTcpPacket::set_checksum`: stores `value` big-endian in bytes 16
/// and 17.
#[verifier::external_body]
fn tcp_set_checksum(segment: &mut Vec<u8>, value: u16)
    requires
        old(segment)@.len() >= TCP_HEADER_LEN,
    ensures
        final(segment)@ == with_word_at(old(segment)@, 16, value),
{
    if let Some(mut packet) = MutableTcpPacket::new(segment.as_mut_slice()) {
        packet.set_checksum(value);
    }
}

/// `length` zero bytes.
pub open spec fn zeros(length: nat) -> Seq<u8> {
    Seq::new(length, |i: int| 0u8)
}

/// A buffer of `length` zero bytes.
fn zeroed(length: usize) -> (buffer: Vec<u8>)
    ensures
        buffer@ == zeros(length as nat),
{
    let mut buffer: Vec<u8> = Vec::new();
    while buffer.len() < length
        invariant
            buffer@.len() <= length,
            buffer@ == zeros(buffer@.len()),
        decreases length - buffer@.len(),
    {
        buffer.push(0);
    }
    buffer
}

/// One probe: a TCP segment from `source_ip:source_port` to
/// `destination_ip:destination_port`.
#[derive(Clone, Copy, Debug, PartialEq, Eq, Structural)]
pub struct Probe {
    pub source_ip: Ipv4Address,
    pub destination_ip: Ipv4Address,
    pub source_port: u16,
    pub destination_port: u16,
    pub sequence_number: u32,
    pub flags: u8,
}

/// The IPv4 header of a probe between two hosts, its checksum field still
/// zero: version 4, five header words, forty bytes in all, time to live 64,
/// protocol TCP, everything else zero.
pub open spec fn ipv4_header_blank(source: Ipv4Address, destination: Ipv4Address) -> Seq<u8> {
    seq![
        0x45u8,
        0,
        high_byte(PROBE_LEN as u16),
        low_byte(PROBE_LEN as u16),
        0,
        0,
        0,
        0,
        PROBE_TTL,
        PROTOCOL_TCP,
        0,
        0,
        source.a,
        source.b,
        source.c,
        source.d,
        destination.a,
        destination.b,
        destination.c,
        destination.d,
    ]
}

/// The finished IPv4 header of a probe: the blank header with its own
/// Internet checksum in bytes 10 and 11.
pub open spec fn ipv4_header(source: Ipv4Address, destination: Ipv4Address) -> Seq<u8> {
    let blank = ipv4_header_blank(source, destination);
    with_word_at(blank, 10, internet_checksum(blank))
}

/// The TCP header of `probe`, its checksum field still zero: the two ports,
/// the sequence number, no acknowledgement, five header words, the flags,
/// the probe window, no urgent pointer.
pub open spec fn tcp_segment_blank(probe: Probe) -> Seq<u8> {
    seq![
        high_byte(probe.source_port),
        low_byte(probe.source_port),
        high_byte(probe.destination_port),
        low_byte(probe.destination_port),
        (probe.sequence_number / 0x100_0000) as u8,
        (probe.sequence_number / 0x1_0000 % 0x100) as u8,
        (probe.sequence_number / 0x100 % 0x100) as u8,
        (probe.sequence_number % 0x100) as u8,
        0,
        0,
        0,
        0,
        0x50u8,
        probe.flags,
        high_byte(PROBE_WINDOW),
        low_byte(PROBE_WINDOW),
        0,
        0,
        0,
        0,
    ]
}

/// The pseudo-header that the TCP checksum covers ahead of the segment: both
/// addresses, a zero byte, the protocol number and the segment's length.
pub open spec fn pseudo_header(
    source: Ipv4Address,
    destination: Ipv4Address,
    segment_len: u16,
) -> Seq<u8> {
    seq![
        source.a,
        source.b,
        source.c,
        source.d,
        destination.a,
        destination.b,
        destination.c,
        destination.d,
        0,
        PROTOCOL_TCP,
        high_byte(segment_len),
        low_byte(segment_len),
    ]
}

/// What the TCP checksum of `probe` is taken over: pseudo-header, then the
/// segment with a zero checksum field.
pub open spec fn tcp_checksum_input(probe: Probe) -> Seq<u8> {
    pseudo_header(probe.source_ip, probe.destination_ip, TCP_HEADER_LEN as u16)
        + tcp_segment_blank(probe)
}

/// The finished TCP segment of `probe`: the blank segment with the Internet
/// checksum over pseudo-header and segment in bytes 16 and 17.
pub open spec fn tcp_segment(probe: Probe) -> Seq<u8> {
    with_word_at(tcp_segment_blank(probe), 16, internet_checksum(tcp_checksum_input(probe)))
}

/// The whole probe as it goes on the wire: IPv4 header, then TCP segment.
pub open spec fn probe_packet(probe: Probe) -> Seq<u8> {
    ipv4_header(probe.source_ip, probe.destination_ip) + tcp_segment(probe)
}

/// The IPv4 header of every probe passes the receiver's checksum test.
pub proof fn lemma_ipv4_header_checksum_holds(source: Ipv4Address, destination: Ipv4Address)
    ensures
        checksum_holds(ipv4_header(source, destination)),
{
    lemma_stored_checksum_holds(ipv4_header_blank(source, destination), 10);
}

/// The TCP segment of every probe, read behind its pseudo-header as a
/// receiver reads it, passes the checksum test.
pub proof fn lemma_tcp_segment_checksum_holds(probe: Probe)
    ensures
        checksum_holds(
            pseudo_header(probe.source_ip, probe.destination_ip, TCP_HEADER_LEN as u16)
                + tcp_segment(probe),
        ),
{
    let pseudo = pseudo_header(probe.source_ip, probe.destination_ip, TCP_HEADER_LEN as u16);
    let input = tcp_checksum_input(probe);
    let value = internet_checksum(input);
    lemma_stored_checksum_holds(input, 28);
    assert(pseudo + tcp_segment(probe) =~= with_word_at(input, 28, value));
}

/// Builds the IPv4 header of a probe from `source` to `destination`.
pub fn build_ipv4_header(source: Ipv4Address, destination: Ipv4Address) -> (header: Vec<u8>)
    ensures
        header@ == ipv4_header(source, destination),
{
    let mut header: Vec<u8> = zeroed(IPV4_HEADER_LEN);
    ipv4_set_version(&mut header, IPV4_VERSION);
    ipv4_set_header_length(&mut header, HEADER_WORDS);
    assert(with_low_nibble(with_high_nibble(0u8, 4u8), 5u8) == 0x45u8) by (bit_vector);
    ipv4_set_total_length(&mut header, PROBE_LEN as u16);
    ipv4_set_ttl(&mut header, PROBE_TTL);
    ipv4_set_next_level_protocol(&mut header, PROTOCOL_TCP);
    ipv4_set_source(&mut header, source);
    ipv4_set_destination(&mut header, destination);
    assert(header@ =~= ipv4_header_blank(source, destination));
    let value: u16 = checksum(header.as_slice());
    ipv4_set_checksum(&mut header, value);
    header
}

/// Builds the TCP segment of `probe`.
pub fn build_tcp_segment(probe: &Probe) -> (segment: Vec<u8>)
    ensures
        segment@ == tcp_segment(*probe),
{
    let mut segment: Vec<u8> = zeroed(TCP_HEADER_LEN);
    tcp_set_source(&mut segment, probe.source_port);
    tcp_set_destination(&mut segment, probe.destination_port);
    tcp_set_sequence(&mut segment, probe.sequence_number);
    tcp_set_flags(&mut segment, probe.flags);
    tcp_set_window(&mut segment, PROBE_WINDOW);
    tcp_set_data_offset(&mut segment, HEADER_WORDS);
    assert(with_high_nibble(0u8, 5u8) == 0x50u8) by (bit_vector);
    let mut covered: Vec<u8> = build_pseudo_header(
        probe.source_ip,
        probe.destination_ip,
        TCP_HEADER_LEN as u16,
    );
    covered.extend_from_slice(segment.as_slice());
    assert(covered@ =~= tcp_checksum_input(*probe));
    let value: u16 = checksum(covered.as_slice());
    tcp_set_checksum(&mut segment, value);
    segment
}

/// Builds the pseudo-header for a segment of `segment_len` bytes.
fn build_pseudo_header(source: Ipv4Address, destination: Ipv4Address, segment_len: u16) -> (bytes:
    Vec<u8>)
    ensures
        bytes@ == pseudo_header(source, destination, segment_len),
{
    let mut bytes: Vec<u8> = Vec::new();
    bytes.push(source.a);
    bytes.push(source.b);
    bytes.push(source.c);
    bytes.push(source.d);
    bytes.push(destination.a);
    bytes.push(destination.b);
    bytes.push(destination.c);
    bytes.push(destination.d);
    bytes.push(0);
    bytes.push(PROTOCOL_TCP);
    bytes.push((segment_len / 256) as u8);
    bytes.push((segment_len % 256) as u8);
    assert(bytes@ =~= pseudo_header(source, destination, segment_len));
    bytes
}

impl Probe {
    /// The SYN probe for one port: sequence number zero, SYN and nothing
    /// else set.
    pub fn syn(
        source_ip: Ipv4Address,
        destination_ip: Ipv4Address,
        source_port: u16,
        destination_port: u16,
    ) -> (probe: Probe)
        ensures
            probe == Probe::syn_spec(source_ip, destination_ip, source_port, destination_port),
    {
        Probe {
            source_ip,
            destination_ip,
            source_port,
            destination_port,
            sequence_number: 0,
            flags: SYN,
        }
    }

    /// The SYN probe for one port.
    pub open spec fn syn_spec(
        source_ip: Ipv4Address,
        destination_ip: Ipv4Address,
        source_port: u16,
        destination_port: u16,
    ) -> Probe {
        Probe {
            source_ip,
            destination_ip,
            source_port,
            destination_port,
            sequence_number: 0,
            flags: SYN,
        }
    }

    /// The bytes of the IPv4 header of this probe.
    pub fn ipv4_header(&self) -> (header: Vec<u8>)
        ensures
            header@ == ipv4_header(self.source_ip, self.destination_ip),
    {
        build_ipv4_header(self.source_ip, self.destination_ip)
    }

    /// The bytes of the TCP segment of this probe.
    pub fn tcp_segment(&self) -> (segment: Vec<u8>)
        ensures
            segment@ == tcp_segment(*self),
    {
        build_tcp_segment(self)
    }

    /// The bytes of the whole probe: IPv4 header, then TCP segment.
    pub fn packet(&self) -> (packet: Vec<u8>)
        ensures
            packet@ == probe_packet(*self),
    {
        let mut packet: Vec<u8> = build_ipv4_header(self.source_ip, self.destination_ip);
        let segment: Vec<u8> = build_tcp_segment(self);
        packet.extend_from_slice(segment.as_slice());
        packet
    }
}

} // verus!
