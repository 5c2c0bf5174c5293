//! The packet builder: the exact bytes of each probe and of the TCP teardown.

use crate::checksum::{
    be_word, checksum_valid, internet_checksum, internet_checksum_of, lemma_complement_validates,
    lemma_word_sum_ignores_skipped, lemma_word_sum_skip, tcp_checksum_of, tcp_checksum_valid,
    tcp_ipv4_checksum, tcp_pseudo_header_sum, word_count, word_sum,
};
use vstd::prelude::*;

verus! {

/// ICMP type of an echo reply.
pub const ECHO_REPLY: u8 = 0;

/// ICMP type of a destination-unreachable message.
pub const DESTINATION_UNREACHABLE: u8 = 3;

/// ICMP type of an echo request.
pub const ECHO_REQUEST: u8 = 8;

/// ICMP type of a time-exceeded message.
pub const TIME_EXCEEDED: u8 = 11;

/// The flags byte, byte 13 of the header, of a segment that is a SYN and
/// nothing else.
pub const TCP_SYN: u8 = 0x02;

/// The flags byte of a segment that is a RST and nothing else.
pub const TCP_RST: u8 = 0x04;

/// The initial sequence number that every SYN probe carries.
pub const TCP_PROBE_SEQUENCE: u32 = 1337;

/// Length of an echo request without data.
pub const ECHO_REQUEST_LEN: usize = 8;

/// Length of a UDP probe: the header and the nine bytes of payload.
pub const UDP_PROBE_LEN: usize = 17;

/// Length of a TCP header without options.
pub const TCP_HEADER_LEN: usize = 20;

/// The high byte of a 16-bit field in network order.
pub open spec fn hi8(x: u16) -> u8 {
    (x / 256) as u8
}

/// The low byte of a 16-bit field in network order.
pub open spec fn lo8(x: u16) -> u8 {
    (x % 256) as u8
}

/// The 16-bit field that two bytes in network order hold.
pub open spec fn be16(hi: u8, lo: u8) -> u16 {
    (hi * 256 + lo) as u16
}

/// Byte `i` of a 32-bit field in network order: byte 0 is the most significant.
pub open spec fn be32_byte(x: u32, i: int) -> u8 {
    if i == 0 {
        (x / 0x1000000) as u8
    } else if i == 1 {
        ((x / 0x10000) % 256) as u8
    } else if i == 2 {
        ((x / 0x100) % 256) as u8
    } else {
        (x % 256) as u8
    }
}

/// The high byte of a 16-bit field in network order.
pub fn high_byte(x: u16) -> (b: u8)
    ensures
        b == hi8(x),
{
    (x / 256) as u8
}

/// The low byte of a 16-bit field in network order.
pub fn low_byte(x: u16) -> (b: u8)
    ensures
        b == lo8(x),
{
    (x % 256) as u8
}

/// Reads the 16-bit field that starts at byte `at`.
pub fn read_be16(data: &[u8], at: usize) -> (x: u16)
    requires
        at + 1 < data@.len(),
    ensures
        x == be16(data@[at as int], data@[at + 1]),
{
    (data[at] as u16) * 256 + (data[at + 1] as u16)
}

fn push_be16(packet: &mut Vec<u8>, x: u16)
    ensures
        final(packet)@ == old(packet)@.push(hi8(x)).push(lo8(x)),
{
    packet.push(high_byte(x));
    packet.push(low_byte(x));
}

fn push_be32(packet: &mut Vec<u8>, x: u32)
    ensures
        final(packet)@ == old(packet)@.push(be32_byte(x, 0)).push(be32_byte(x, 1)).push(
            be32_byte(x, 2),
        ).push(be32_byte(x, 3)),
{
    packet.push((x / 0x1000000) as u8);
    packet.push(((x / 0x10000) % 256) as u8);
    packet.push(((x / 0x100) % 256) as u8);
    packet.push((x % 256) as u8);
}

/// Stores a checksum into the 16-bit word `word` of a packet.
fn store_checksum(packet: &mut Vec<u8>, word: usize, sum: u16)
    requires
        2 * word + 1 < old(packet)@.len(),
    ensures
        final(packet)@ == old(packet)@.update(2 * word, hi8(sum)).update(2 * word + 1, lo8(sum)),
{
    let len = packet.len();
    assert(2 * word + 1 < len);
    packet.set(2 * word, high_byte(sum));
    packet.set(2 * word + 1, low_byte(sum));
}

/// An echo request without data: type 8, code 0, then the checksum, the
/// identifier and the sequence number, each in network order.
pub open spec fn echo_request_header(checksum: u16, identifier: u16, sequence: u16) -> Seq<u8> {
    seq![
        ECHO_REQUEST,
        0u8,
        hi8(checksum),
        lo8(checksum),
        hi8(identifier),
        lo8(identifier),
        hi8(sequence),
        lo8(sequence),
    ]
}

/// The echo request for an identifier and a sequence number, its checksum
/// computed over the eight bytes with the checksum field zero.
pub open spec fn echo_request_bytes(identifier: u16, sequence: u16) -> Seq<u8> {
    echo_request_header(
        internet_checksum_of(echo_request_header(0, identifier, sequence), 1) as u16,
        identifier,
        sequence,
    )
}

/// The nine bytes that every UDP probe carries.
pub open spec fn udp_probe_payload() -> Seq<u8> {
    seq![0x53u8, 0x55u8, 0x50u8, 0x45u8, 0x52u8, 0x4Du8, 0x41u8, 0x4Eu8, 0x00u8]
}

/// The UDP probe between two ports: the header with length 17 and checksum
/// zero, which over IPv4 stands for "no checksum", then the payload.
pub open spec fn udp_probe_bytes(src_port: u16, dst_port: u16) -> Seq<u8> {
    seq![hi8(src_port), lo8(src_port), hi8(dst_port), lo8(dst_port), 0u8, 17u8, 0u8, 0u8]
        + udp_probe_payload()
}

/// A TCP header without options: data offset 5, acknowledgement, window and
/// urgent pointer zero.
pub open spec fn tcp_header(
    src_port: u16,
    dst_port: u16,
    sequence: u32,
    flags: u8,
    checksum: u16,
) -> Seq<u8> {
    seq![
        hi8(src_port),
        lo8(src_port),
        hi8(dst_port),
        lo8(dst_port),
        be32_byte(sequence, 0),
        be32_byte(sequence, 1),
        be32_byte(sequence, 2),
        be32_byte(sequence, 3),
        0u8,
        0u8,
        0u8,
        0u8,
        0x50u8,
        flags,
        0u8,
        0u8,
        hi8(checksum),
        lo8(checksum),
        0u8,
        0u8,
    ]
}

/// The TCP segment with the given flags from `source` to `destination`: the
/// header, its checksum computed over the pseudo-header and the segment with
/// the checksum field zero.
pub open spec fn tcp_segment_bytes(
    src_port: u16,
    dst_port: u16,
    sequence: u32,
    flags: u8,
    source: u32,
    destination: u32,
) -> Seq<u8> {
    tcp_header(
        src_port,
        dst_port,
        sequence,
        flags,
        tcp_checksum_of(tcp_header(src_port, dst_port, sequence, flags, 0), source, destination)
            as u16,
    )
}

/// The SYN probe from `source` to `destination`.
pub open spec fn tcp_syn_bytes(
    src_port: u16,
    dst_port: u16,
    sequence: u32,
    source: u32,
    destination: u32,
) -> Seq<u8> {
    tcp_segment_bytes(src_port, dst_port, sequence, TCP_SYN, source, destination)
}

/// The teardown segment from `source` to `destination`: as the SYN probe, its
/// sequence number included, but with the flags RST and with the checksum of
/// the segment as it is sent.
pub open spec fn tcp_rst_bytes(src_port: u16, dst_port: u16, source: u32, destination: u32) -> Seq<
    u8,
> {
    tcp_segment_bytes(src_port, dst_port, TCP_PROBE_SEQUENCE, TCP_RST, source, destination)
}

/// The value of the 16-bit word `word` of a packet is the field that its two
/// bytes hold.
pub proof fn lemma_be_word_of_field(packet: Seq<u8>, word: int, x: u16)
    requires
        0 <= word,
        2 * word + 1 < packet.len(),
        packet[2 * word] == hi8(x),
        packet[2 * word + 1] == lo8(x),
    ensures
        be_word(packet, word) == x,
{
}

/// The echo request has eight bytes, and its checksum field makes the words
/// of the packet fold to sixteen one bits: a receiver accepts it.
pub proof fn lemma_echo_request_validates(identifier: u16, sequence: u16)
    ensures
        echo_request_bytes(identifier, sequence).len() == ECHO_REQUEST_LEN,
        checksum_valid(echo_request_bytes(identifier, sequence)),
{
    let blank = echo_request_header(0, identifier, sequence);
    let packet = echo_request_bytes(identifier, sequence);
    lemma_complement_validates(word_sum(blank, 1));
    lemma_word_sum_ignores_skipped(blank, packet, 1, word_count(blank));
    lemma_word_sum_skip(packet, 1, word_count(packet));
    lemma_be_word_of_field(packet, 1, internet_checksum_of(blank, 1) as u16);
}

/// A TCP segment as the builder frames it has twenty bytes, and its checksum
/// field makes the words of the pseudo-header and of the segment fold to
/// sixteen one bits, whatever its flags: a receiver at `destination` accepts it
/// from `source`.
pub proof fn lemma_tcp_segment_validates(
    src_port: u16,
    dst_port: u16,
    sequence: u32,
    flags: u8,
    source: u32,
    destination: u32,
)
    ensures
        tcp_segment_bytes(src_port, dst_port, sequence, flags, source, destination).len()
            == TCP_HEADER_LEN,
        tcp_checksum_valid(
            tcp_segment_bytes(src_port, dst_port, sequence, flags, source, destination),
            source,
            destination,
        ),
{
    let blank = tcp_header(src_port, dst_port, sequence, flags, 0);
    let packet = tcp_segment_bytes(src_port, dst_port, sequence, flags, source, destination);
    lemma_complement_validates(
        tcp_pseudo_header_sum(source, destination, blank.len()) + word_sum(blank, 8),
    );
    lemma_word_sum_ignores_skipped(blank, packet, 8, word_count(blank));
    lemma_word_sum_skip(packet, 8, word_count(packet));
    lemma_be_word_of_field(packet, 8, tcp_checksum_of(blank, source, destination) as u16);
}

/// The SYN probe has twenty bytes and a checksum that a receiver accepts.
pub proof fn lemma_tcp_syn_validates(
    src_port: u16,
    dst_port: u16,
    sequence: u32,
    source: u32,
    destination: u32,
)
    ensures
        tcp_syn_bytes(src_port, dst_port, sequence, source, destination).len() == TCP_HEADER_LEN,
        tcp_checksum_valid(
            tcp_syn_bytes(src_port, dst_port, sequence, source, destination),
            source,
            destination,
        ),
{
    lemma_tcp_segment_validates(src_port, dst_port, sequence, TCP_SYN, source, destination);
}

/// The teardown segment has twenty bytes and a checksum that a receiver
/// accepts, and it is the SYN probe in every byte but the flags and the
/// checksum.
pub proof fn lemma_tcp_rst_validates(src_port: u16, dst_port: u16, source: u32, destination: u32)
    ensures
        tcp_rst_bytes(src_port, dst_port, source, destination).len() == TCP_HEADER_LEN,
        tcp_checksum_valid(
            tcp_rst_bytes(src_port, dst_port, source, destination),
            source,
            destination,
        ),
        tcp_rst_bytes(src_port, dst_port, source, destination)[13] == TCP_RST,
        forall|i: int|
            0 <= i < TCP_HEADER_LEN && i != 13 && i != 16 && i != 17 ==> #[trigger] tcp_rst_bytes(
                src_port,
                dst_port,
                source,
                destination,
            )[i] == tcp_syn_bytes(src_port, dst_port, TCP_PROBE_SEQUENCE, source, destination)[i],
{
    lemma_tcp_segment_validates(
        src_port,
        dst_port,
        TCP_PROBE_SEQUENCE,
        TCP_RST,
        source,
        destination,
    );
}

/// Builds the echo request for one probe.
pub fn build_icmp_echo(identifier: u16, sequence: u16) -> (packet: Vec<u8>)
    ensures
        packet@ == echo_request_bytes(identifier, sequence),
        packet@.len() == ECHO_REQUEST_LEN,
        checksum_valid(packet@),
{
    let mut packet: Vec<u8> = Vec::new();
    packet.push(ECHO_REQUEST);
    packet.push(0);
    push_be16(&mut packet, 0);
    push_be16(&mut packet, identifier);
    push_be16(&mut packet, sequence);
    assert(packet@ =~= echo_request_header(0, identifier, sequence));
    let sum = internet_checksum(packet.as_slice(), 1);
    store_checksum(&mut packet, 1, sum);
    assert(packet@ =~= echo_request_header(sum, identifier, sequence));
    proof {
        lemma_echo_request_validates(identifier, sequence);
    }
    packet
}

/// Builds the UDP probe between two ports.
pub fn build_udp(src_port: u16, dst_port: u16) -> (packet: Vec<u8>)
    ensures
        packet@ == udp_probe_bytes(src_port, dst_port),
        packet@.len() == UDP_PROBE_LEN,
        be_word(packet@, 3) == 0,
{
    let mut packet: Vec<u8> = Vec::new();
    push_be16(&mut packet, src_port);
    push_be16(&mut packet, dst_port);
    packet.push(0);
    packet.push(17);
    packet.push(0);
    packet.push(0);
    packet.push(0x53);
    packet.push(0x55);
    packet.push(0x50);
    packet.push(0x45);
    packet.push(0x52);
    packet.push(0x4D);
    packet.push(0x41);
    packet.push(0x4E);
    packet.push(0x00);
    assert(packet@ =~= udp_probe_bytes(src_port, dst_port));
    packet
}

/// Frames a TCP segment with the given flags and computes its checksum.
fn build_tcp_segment(
    src_port: u16,
    dst_port: u16,
    sequence: u32,
    flags: u8,
    source: u32,
    destination: u32,
) -> (packet: Vec<u8>)
    ensures
        packet@ == tcp_segment_bytes(src_port, dst_port, sequence, flags, source, destination),
        packet@.len() == TCP_HEADER_LEN,
        tcp_checksum_valid(packet@, source, destination),
{
    let mut packet: Vec<u8> = Vec::new();
    push_be16(&mut packet, src_port);
    push_be16(&mut packet, dst_port);
    push_be32(&mut packet, sequence);
    push_be32(&mut packet, 0);
    packet.push(0x50);
    packet.push(flags);
    push_be16(&mut packet, 0);
    push_be16(&mut packet, 0);
    push_be16(&mut packet, 0);
    assert(packet@ =~= tcp_header(src_port, dst_port, sequence, flags, 0));
    let sum = tcp_ipv4_checksum(packet.as_slice(), source, destination);
    store_checksum(&mut packet, 8, sum);
    assert(packet@ =~= tcp_header(src_port, dst_port, sequence, flags, sum));
    proof {
        lemma_tcp_segment_validates(src_port, dst_port, sequence, flags, source, destination);
    }
    packet
}

/// Builds the SYN probe from `source` to `destination`.
pub fn build_tcp_syn(src_port: u16, dst_port: u16, sequence: u32, source: u32, destination: u32) -> (packet:
    Vec<u8>)
    ensures
        packet@ == tcp_syn_bytes(src_port, dst_port, sequence, source, destination),
        packet@.len() == TCP_HEADER_LEN,
        tcp_checksum_valid(packet@, source, destination),
{
    build_tcp_segment(src_port, dst_port, sequence, TCP_SYN, source, destination)
}

/// Builds the segment that tears down a half-open session: framed as the SYN
/// probe, but with the flags RST, and with its own checksum.
pub fn build_tcp_rst(src_port: u16, dst_port: u16, source: u32, destination: u32) -> (packet: Vec<
    u8,
>)
    ensures
        packet@ == tcp_rst_bytes(src_port, dst_port, source, destination),
        packet@.len() == TCP_HEADER_LEN,
        tcp_checksum_valid(packet@, source, destination),
{
    build_tcp_segment(src_port, dst_port, TCP_PROBE_SEQUENCE, TCP_RST, source, destination)
}

} // verus!
