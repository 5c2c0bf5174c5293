//! The UDP probe.

use crate::interfaces::IpAddress;
use crate::packet::{build_udp, udp_probe_bytes, DESTINATION_UNREACHABLE};
use crate::protocols::protocol::{Datagram, Handled, Result, TracerouteProtocol};
use crate::random::random_in_range;
use vstd::prelude::*;

verus! {

/// The IP protocol number of UDP.
pub const IPPROTO_UDP: u8 = 17;

/// The lowest port that the source port of a UDP probe is drawn from.
pub const UDP_SOURCE_PORT_LOW: u16 = 30000;

/// The first port above those that the source port of a UDP probe is drawn
/// from.
pub const UDP_SOURCE_PORT_END: u16 = 40000;

/// The UDP probe: a datagram to a port that is expected to be closed, which
/// the destination answers with destination-unreachable.
pub struct UdpTraceroute {
    src_port: u16,
    dst_port: u16,
}

impl UdpTraceroute {
    /// The port that the probes come from.
    pub closed spec fn src_port(&self) -> u16 {
        self.src_port
    }

    /// The port that the probes go to.
    pub closed spec fn dst_port(&self) -> u16 {
        self.dst_port
    }

    /// A probe protocol to `dst_port`, its source port chosen at random.
    pub fn new(dst_port: u16) -> (protocol: Self)
        ensures
            protocol.dst_port() == dst_port,
            UDP_SOURCE_PORT_LOW <= protocol.src_port() < UDP_SOURCE_PORT_END,
    {
        UdpTraceroute::with_ports(
            random_in_range(UDP_SOURCE_PORT_LOW, UDP_SOURCE_PORT_END),
            dst_port,
        )
    }

    /// A probe protocol between the given ports.
    pub fn with_ports(src_port: u16, dst_port: u16) -> (protocol: Self)
        ensures
            protocol.src_port() == src_port,
            protocol.dst_port() == dst_port,
    {
        UdpTraceroute { src_port: src_port, dst_port: dst_port }
    }

    /// The probe datagram.
    pub fn create_request(&self) -> (packet: Vec<u8>)
        ensures
            packet@ == udp_probe_bytes(self.src_port(), self.dst_port()),
    {
        build_udp(self.src_port, self.dst_port)
    }
}

impl TracerouteProtocol for UdpTraceroute {
    open spec fn transport(&self) -> u8 {
        IPPROTO_UDP
    }

    open spec fn accepts(&self, dst: IpAddress) -> bool {
        true
    }

    open spec fn probe_bytes(&self, source: u32, dst: IpAddress, current_seq: u16) -> Seq<u8> {
        udp_probe_bytes(self.src_port(), self.dst_port())
    }

    open spec fn destination_reached_type(&self) -> Option<u8> {
        Some(DESTINATION_UNREACHABLE)
    }

    open spec fn has_protocol_level(&self) -> bool {
        false
    }

    open spec fn protocol_level(
        &self,
        received: Option<Datagram>,
        dst: IpAddress,
        source: u32,
        time_receive: u64,
    ) -> (Option<Result>, Option<(Seq<u8>, IpAddress)>) {
        (None, None)
    }

    proof fn lemma_nothing_read(&self, dst: IpAddress, source: u32, time_receive: u64) {
    }

    fn get_protocol(&self) -> (number: u8) {
        IPPROTO_UDP
    }

    fn can_probe(&self, dst: IpAddress) -> (accepted: bool) {
        true
    }

    fn create_probe(&self, source: u32, dst: IpAddress, current_seq: u16) -> (packet: Vec<u8>) {
        self.create_request()
    }

    fn get_destination_reached_icmp_type(&self) -> (icmp_type: Option<u8>) {
        Some(DESTINATION_UNREACHABLE)
    }

    fn reads_protocol_level(&self) -> (reads: bool) {
        false
    }

    fn handle_protocol_level(
        &self,
        received: &Option<Datagram>,
        dst: IpAddress,
        source: u32,
        time_receive: u64,
    ) -> (handled: Handled) {
        Handled { result: None, teardown: None }
    }
}

} // verus!
