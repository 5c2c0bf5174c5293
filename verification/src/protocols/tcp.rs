//! The TCP half-open probe.

use crate::checksum::tcp_checksum_valid;
use crate::interfaces::{addr_to_ipv4_addr, ipv4_of, IpAddress};
use crate::packet::{
    be16, build_tcp_rst, build_tcp_syn, read_be16, tcp_rst_bytes, tcp_syn_bytes,
    DESTINATION_UNREACHABLE, TCP_HEADER_LEN, TCP_PROBE_SEQUENCE, TCP_RST,
};
use crate::protocols::protocol::{
    poll_step, Datagram, Handled, PollPhase, PollState, PollStep, ReceiveStatus, Result, Teardown,
    TracerouteProtocol,
};
use crate::random::random_in_range;
use vstd::prelude::*;

verus! {

/// The IP protocol number of TCP.
pub const IPPROTO_TCP: u8 = 6;

/// The flags byte of the segment by which a listening port answers a SYN:
/// SYN and ACK, nothing else.
pub const TCP_SYN_ACK: u8 = 0x12;

/// The lowest port that the source port of a TCP probe is drawn from.
pub const TCP_SOURCE_PORT_LOW: u16 = 60000;

/// The first port above those that the source port of a TCP probe is drawn
/// from.
pub const TCP_SOURCE_PORT_END: u16 = 65535;

/// What a TCP segment from `sender` means for a probe from `src_port` to
/// `dst`.
///
/// A segment without a whole header is an anomaly. One that is not addressed
/// to the probe's source port, or does not come from the destination, says
/// nothing. From the destination, SYN+ACK means that the port listens: the
/// destination is found, and the half-open session is torn down with a RST
/// to the destination. RST means that the port is closed: the destination is
/// found, and there is nothing to tear down. Any other flags say nothing.
pub open spec fn tcp_segment_level(
    src_port: u16,
    dst_port: u16,
    packet: Seq<u8>,
    sender: IpAddress,
    dst: IpAddress,
    source: u32,
    time_receive: u64,
) -> (Option<Result>, Option<(Seq<u8>, IpAddress)>) {
    if packet.len() < TCP_HEADER_LEN {
        (Some(Result::empty(ReceiveStatus::Error)), None)
    } else if be16(packet[2], packet[3]) != src_port {
        (None, None)
    } else if sender != dst {
        (None, None)
    } else if packet[13] == TCP_SYN_ACK {
        (
            Some(Result::filled(ReceiveStatus::SuccessDestinationFound, sender, time_receive)),
            Some((tcp_rst_bytes(src_port, dst_port, source, ipv4_of(dst)), dst)),
        )
    } else if packet[13] == TCP_RST {
        (Some(Result::filled(ReceiveStatus::SuccessDestinationFound, sender, time_receive)), None)
    } else {
        (None, None)
    }
}

/// What a read of the TCP receiver means: nothing where nothing was read,
/// else what the segment means.
pub open spec fn tcp_level(
    src_port: u16,
    dst_port: u16,
    received: Option<Datagram>,
    dst: IpAddress,
    source: u32,
    time_receive: u64,
) -> (Option<Result>, Option<(Seq<u8>, IpAddress)>) {
    match received {
        None => (None, None),
        Some(datagram) => tcp_segment_level(
            src_port,
            dst_port,
            datagram.packet@,
            datagram.sender,
            dst,
            source,
            time_receive,
        ),
    }
}

/// The TCP probe: a SYN to a port, answered by the destination with SYN+ACK
/// or RST on TCP itself, or with destination-unreachable over ICMP.
pub struct TcpTraceroute {
    src_port: u16,
    dst_port: u16,
}

impl TcpTraceroute {
    /// The port that the probes come from.
    pub closed spec fn src_port(&self) -> u16 {
        self.src_port
    }

    /// The port that the probes go to.
    pub closed spec fn dst_port(&self) -> u16 {
        self.dst_port
    }

    /// A probe protocol to `dst_port`, its source port chosen at random among
    /// the high ephemeral ports.
    pub fn new(dst_port: u16) -> (protocol: Self)
        ensures
            protocol.dst_port() == dst_port,
            TCP_SOURCE_PORT_LOW <= protocol.src_port() < TCP_SOURCE_PORT_END,
    {
        TcpTraceroute::with_ports(
            random_in_range(TCP_SOURCE_PORT_LOW, TCP_SOURCE_PORT_END),
            dst_port,
        )
    }

    /// A probe protocol between the given ports.
    pub fn with_ports(src_port: u16, dst_port: u16) -> (protocol: Self)
        ensures
            protocol.src_port() == src_port,
            protocol.dst_port() == dst_port,
    {
        TcpTraceroute { src_port: src_port, dst_port: dst_port }
    }

    /// The SYN probe from the local address `source` to `dst`. Every probe
    /// carries the same initial sequence number, whatever the probe's own
    /// number is.
    pub fn create_request(&self, _sequence_number: u16, source: u32, dst: u32) -> (packet: Vec<u8>)
        ensures
            packet@ == tcp_syn_bytes(
                self.src_port(),
                self.dst_port(),
                TCP_PROBE_SEQUENCE,
                source,
                dst,
            ),
            tcp_checksum_valid(packet@, source, dst),
    {
        build_tcp_syn(self.src_port, self.dst_port, TCP_PROBE_SEQUENCE, source, dst)
    }

    /// The RST that tears down a half-open session with `dst`, with a
    /// checksum that `dst` accepts.
    pub fn create_rst_packet(&self, source: u32, dst: u32) -> (packet: Vec<u8>)
        ensures
            packet@ == tcp_rst_bytes(self.src_port(), self.dst_port(), source, dst),
            tcp_checksum_valid(packet@, source, dst),
    {
        build_tcp_rst(self.src_port, self.dst_port, source, dst)
    }
}

impl TracerouteProtocol for TcpTraceroute {
    open spec fn transport(&self) -> u8 {
        IPPROTO_TCP
    }

    open spec fn accepts(&self, dst: IpAddress) -> bool {
        dst is V4
    }

    open spec fn probe_bytes(&self, source: u32, dst: IpAddress, current_seq: u16) -> Seq<u8> {
        tcp_syn_bytes(self.src_port(), self.dst_port(), TCP_PROBE_SEQUENCE, source, ipv4_of(dst))
    }

    open spec fn destination_reached_type(&self) -> Option<u8> {
        Some(DESTINATION_UNREACHABLE)
    }

    open spec fn has_protocol_level(&self) -> bool {
        true
    }

    open spec fn protocol_level(
        &self,
        received: Option<Datagram>,
        dst: IpAddress,
        source: u32,
        time_receive: u64,
    ) -> (Option<Result>, Option<(Seq<u8>, IpAddress)>) {
        tcp_level(self.src_port(), self.dst_port(), received, dst, source, time_receive)
    }

    proof fn lemma_nothing_read(&self, dst: IpAddress, source: u32, time_receive: u64) {
    }

    fn get_protocol(&self) -> (number: u8) {
        IPPROTO_TCP
    }

    fn can_probe(&self, dst: IpAddress) -> (accepted: bool) {
        match dst {
            IpAddress::V4(_) => true,
            IpAddress::V6(_) => false,
        }
    }

    fn create_probe(&self, source: u32, dst: IpAddress, current_seq: u16) -> (packet: Vec<u8>) {
        self.create_request(current_seq, source, addr_to_ipv4_addr(dst))
    }

    fn get_destination_reached_icmp_type(&self) -> (icmp_type: Option<u8>) {
        Some(DESTINATION_UNREACHABLE)
    }

    fn reads_protocol_level(&self) -> (reads: bool) {
        true
    }

    fn handle_protocol_level(
        &self,
        received: &Option<Datagram>,
        dst: IpAddress,
        source: u32,
        time_receive: u64,
    ) -> (handled: Handled)
        ensures
            handled.teardown matches Some(teardown) ==> teardown.to == dst && tcp_checksum_valid(
                teardown.packet@,
                source,
                ipv4_of(dst),
            ),
    {
        match received {
            None => Handled { result: None, teardown: None },
            Some(datagram) => {
                let packet = datagram.packet.as_slice();
                if packet.len() < TCP_HEADER_LEN {
                    Handled {
                        result: Some(Result::new_empty(ReceiveStatus::Error)),
                        teardown: None,
                    }
                } else if read_be16(packet, 2) != self.src_port {
                    Handled { result: None, teardown: None }
                } else if datagram.sender != dst {
                    Handled { result: None, teardown: None }
                } else if packet[13] == TCP_SYN_ACK {
                    let rst = self.create_rst_packet(source, addr_to_ipv4_addr(dst));
                    Handled {
                        result: Some(
                            Result::new_filled(
                                ReceiveStatus::SuccessDestinationFound,
                                datagram.sender,
                                time_receive,
                            ),
                        ),
                        teardown: Some(Teardown { packet: rst, to: dst }),
                    }
                } else if packet[13] == TCP_RST {
                    Handled {
                        result: Some(
                            Result::new_filled(
                                ReceiveStatus::SuccessDestinationFound,
                                datagram.sender,
                                time_receive,
                            ),
                        ),
                        teardown: None,
                    }
                } else {
                    Handled { result: None, teardown: None }
                }
            },
        }
    }
}

/// The half-open technique. A SYN+ACK from the destination to the probe's
/// source port ends the poll with the destination found and with exactly one
/// packet to send first: the RST, addressed to the destination. A RST from
/// the destination ends it with the destination found and nothing to send.
pub proof fn lemma_half_open(
    protocol: TcpTraceroute,
    state: PollState,
    datagram: Datagram,
    heard_icmp: Option<Result>,
    now: u64,
)
    requires
        state.phase is Protocol,
        datagram.packet@.len() >= TCP_HEADER_LEN,
        be16(datagram.packet@[2], datagram.packet@[3]) == protocol.src_port(),
        datagram.sender == state.dst,
    ensures
        datagram.packet@[13] == TCP_SYN_ACK ==> poll_step(
            state,
            protocol.has_protocol_level(),
            protocol.protocol_level(Some(datagram), state.dst, state.source, now),
            heard_icmp,
            now,
        ) == (
            PollState { phase: PollPhase::Finished, ..state },
            PollStep::Finish {
                teardown: Some(
                    (
                        tcp_rst_bytes(
                            protocol.src_port(),
                            protocol.dst_port(),
                            state.source,
                            ipv4_of(state.dst),
                        ),
                        state.dst,
                    ),
                ),
                result: Result::filled(ReceiveStatus::SuccessDestinationFound, state.dst, now),
            },
        ),
        datagram.packet@[13] == TCP_RST ==> poll_step(
            state,
            protocol.has_protocol_level(),
            protocol.protocol_level(Some(datagram), state.dst, state.source, now),
            heard_icmp,
            now,
        ) == (
            PollState { phase: PollPhase::Finished, ..state },
            PollStep::Finish {
                teardown: None,
                result: Result::filled(ReceiveStatus::SuccessDestinationFound, state.dst, now),
            },
        ),
{
}

} // verus!
