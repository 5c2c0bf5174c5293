//! The ICMP echo probe, and the classification of ICMP messages that every
//! protocol shares.

use crate::interfaces::IpAddress;
use crate::packet::{build_icmp_echo, echo_request_bytes, ECHO_REPLY, TIME_EXCEEDED};
use crate::protocols::protocol::{Datagram, Handled, ReceiveStatus, Result, TracerouteProtocol};
use crate::random::random_u16;
use vstd::prelude::*;

verus! {

/// The shortest ICMP message: type, code and checksum.
pub const ICMP_MIN_LEN: usize = 4;

/// The IP protocol number of ICMP.
pub const IPPROTO_ICMP: u8 = 1;

/// The type of an ICMP message, where the message is long enough to have one.
pub open spec fn icmp_type_of(packet: Seq<u8>) -> Option<u8> {
    if packet.len() >= ICMP_MIN_LEN {
        Some(packet[0])
    } else {
        None
    }
}

/// The outcome that an ICMP message from `sender` means for a probe to `dst`,
/// where `icmp_dest_reached_type` is the type by which the destination answers.
///
/// That type from the destination itself means that the destination was
/// found; from anyone else it is an anomaly. A time-exceeded message means
/// that a hop was heard, whoever sent it. Every other message, and one too
/// short to have a type, is an anomaly.
pub open spec fn icmp_message_result(
    packet: Seq<u8>,
    sender: IpAddress,
    dst: IpAddress,
    icmp_dest_reached_type: Option<u8>,
    time_receive: u64,
) -> Result {
    match icmp_type_of(packet) {
        None => Result::empty(ReceiveStatus::Error),
        Some(icmp_type) => if icmp_dest_reached_type == Some(icmp_type) {
            if sender == dst {
                Result::filled(ReceiveStatus::SuccessDestinationFound, sender, time_receive)
            } else {
                Result::empty(ReceiveStatus::Error)
            }
        } else if icmp_type == TIME_EXCEEDED {
            Result::filled(ReceiveStatus::SuccessContinue, sender, time_receive)
        } else {
            Result::empty(ReceiveStatus::Error)
        },
    }
}

/// Classifies an ICMP message that was read at `time_receive`.
pub fn process_icmp_message(
    packet: &[u8],
    sender: IpAddress,
    dst: IpAddress,
    icmp_dest_reached_type: Option<u8>,
    time_receive: u64,
) -> (result: Option<Result>)
    ensures
        result == Some(
            icmp_message_result(packet@, sender, dst, icmp_dest_reached_type, time_receive),
        ),
        result matches Some(r) && r.wf(),
{
    if packet.len() < ICMP_MIN_LEN {
        return Some(Result::new_empty(ReceiveStatus::Error));
    }
    let icmp_type = packet[0];
    let is_dest_reached = match icmp_dest_reached_type {
        Some(expected) => expected == icmp_type,
        None => false,
    };
    if is_dest_reached {
        if sender == dst {
            Some(Result::new_filled(ReceiveStatus::SuccessDestinationFound, sender, time_receive))
        } else {
            Some(Result::new_empty(ReceiveStatus::Error))
        }
    } else if icmp_type == TIME_EXCEEDED {
        Some(Result::new_filled(ReceiveStatus::SuccessContinue, sender, time_receive))
    } else {
        Some(Result::new_empty(ReceiveStatus::Error))
    }
}

/// The ICMP echo probe: echo requests under one identifier, answered by the
/// destination with an echo reply.
pub struct IcmpTraceroute {
    identifier: u16,
}

impl IcmpTraceroute {
    /// The identifier that every echo request of this run carries.
    pub closed spec fn identifier(&self) -> u16 {
        self.identifier
    }

    /// A probe protocol with an identifier chosen at random.
    pub fn new() -> (protocol: Self) {
        IcmpTraceroute::with_identifier(random_u16())
    }

    /// A probe protocol with the given identifier.
    pub fn with_identifier(identifier: u16) -> (protocol: Self)
        ensures
            protocol.identifier() == identifier,
    {
        IcmpTraceroute { identifier: identifier }
    }

    /// The echo request with the given sequence number.
    pub fn create_request(&self, sequence_number: u16) -> (packet: Vec<u8>)
        ensures
            packet@ == echo_request_bytes(self.identifier(), sequence_number),
    {
        build_icmp_echo(self.identifier, sequence_number)
    }
}

impl TracerouteProtocol for IcmpTraceroute {
    open spec fn transport(&self) -> u8 {
        IPPROTO_ICMP
    }

    open spec fn accepts(&self, dst: IpAddress) -> bool {
        true
    }

    open spec fn probe_bytes(&self, source: u32, dst: IpAddress, current_seq: u16) -> Seq<u8> {
        echo_request_bytes(self.identifier(), current_seq)
    }

    open spec fn destination_reached_type(&self) -> Option<u8> {
        Some(ECHO_REPLY)
    }

    open spec fn has_protocol_level(&self) -> bool {
        false
    }

    open spec fn protocol_level(
        &self,
        received: Option<Datagram>,
        dst: IpAddress,
        source: u32,
        time_receive: u64,
    ) -> (Option<Result>, Option<(Seq<u8>, IpAddress)>) {
        (None, None)
    }

    proof fn lemma_nothing_read(&self, dst: IpAddress, source: u32, time_receive: u64) {
    }

    fn get_protocol(&self) -> (number: u8) {
        IPPROTO_ICMP
    }

    fn can_probe(&self, dst: IpAddress) -> (accepted: bool) {
        true
    }

    fn create_probe(&self, source: u32, dst: IpAddress, current_seq: u16) -> (packet: Vec<u8>) {
        self.create_request(current_seq)
    }

    fn get_destination_reached_icmp_type(&self) -> (icmp_type: Option<u8>) {
        Some(ECHO_REPLY)
    }

    fn reads_protocol_level(&self) -> (reads: bool) {
        false
    }

    fn handle_protocol_level(
        &self,
        received: &Option<Datagram>,
        dst: IpAddress,
        source: u32,
        time_receive: u64,
    ) -> (handled: Handled) {
        Handled { result: None, teardown: None }
    }
}

/// The classification of an ICMP message goes by its type, its sender, the
/// destination and the type by which the destination answers, and by nothing
/// else: the answering type from the destination finds the destination; from
/// anyone else it is an anomaly; any other type means a hop where it is
/// time-exceeded, and is an anomaly where it is not.
pub proof fn lemma_icmp_classification(
    packet: Seq<u8>,
    sender: IpAddress,
    dst: IpAddress,
    icmp_dest_reached_type: Option<u8>,
    time_receive: u64,
)
    requires
        packet.len() >= ICMP_MIN_LEN,
    ensures
        icmp_dest_reached_type == Some(packet[0]) && sender == dst ==> icmp_message_result(
            packet,
            sender,
            dst,
            icmp_dest_reached_type,
            time_receive,
        ) == Result::filled(ReceiveStatus::SuccessDestinationFound, dst, time_receive),
        icmp_dest_reached_type == Some(packet[0]) && sender != dst ==> icmp_message_result(
            packet,
            sender,
            dst,
            icmp_dest_reached_type,
            time_receive,
        ) == Result::empty(ReceiveStatus::Error),
        icmp_dest_reached_type != Some(packet[0]) && packet[0] == TIME_EXCEEDED
            ==> icmp_message_result(packet, sender, dst, icmp_dest_reached_type, time_receive)
            == Result::filled(ReceiveStatus::SuccessContinue, sender, time_receive),
        icmp_dest_reached_type != Some(packet[0]) && packet[0] != TIME_EXCEEDED
            ==> icmp_message_result(packet, sender, dst, icmp_dest_reached_type, time_receive)
            == Result::empty(ReceiveStatus::Error),
{
}

} // verus!
