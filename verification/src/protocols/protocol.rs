//! What every probe protocol offers, the outcome of a probe, and the bounded
//! poll that waits for it.

use crate::interfaces::IpAddress;
use crate::protocols::icmp::{icmp_message_result, process_icmp_message};
use vstd::prelude::*;

verus! {

/// How the wait for one probe ended.
#[derive(Clone, Copy, Debug, PartialEq, Eq, Structural)]
pub enum ReceiveStatus {
    /// Nothing arrived within the wait budget.
    Timeout,
    /// Something arrived that fits no probe: an anomaly, not a failure.
    Error,
    /// An intermediate hop let the probe expire and reported itself.
    SuccessContinue,
    /// The destination answered.
    SuccessDestinationFound,
}

impl ReceiveStatus {
    /// Whether a responder was heard.
    pub open spec fn is_success(self) -> bool {
        self is SuccessContinue || self is SuccessDestinationFound
    }

    /// Whether a responder was heard.
    pub fn heard(self) -> (b: bool)
        ensures
            b == self.is_success(),
    {
        match self {
            ReceiveStatus::SuccessContinue | ReceiveStatus::SuccessDestinationFound => true,
            ReceiveStatus::Timeout | ReceiveStatus::Error => false,
        }
    }
}

/// Who answered, and when the answer was read. Times are nanoseconds on the
/// caller's monotonic clock.
#[derive(Clone, Copy, Debug, PartialEq, Eq, Structural)]
pub struct AnswerMetadata {
    pub addr: IpAddress,
    pub time_receive: u64,
}

/// The outcome of one probe.
#[derive(Clone, Copy, Debug, PartialEq, Eq)]
pub struct Result {
    pub status: ReceiveStatus,
    pub metadata: Option<AnswerMetadata>,
}

impl Result {
    /// Responder and time are there exactly when a responder was heard.
    pub open spec fn wf(&self) -> bool {
        self.metadata is Some <==> self.status.is_success()
    }

    /// The outcome without a responder.
    pub open spec fn empty(status: ReceiveStatus) -> Result {
        Result { status, metadata: None }
    }

    /// The outcome with its responder.
    pub open spec fn filled(status: ReceiveStatus, addr: IpAddress, time_receive: u64) -> Result {
        Result { status, metadata: Some(AnswerMetadata { addr, time_receive }) }
    }

    /// An outcome in which no responder was heard.
    pub fn new_empty(status: ReceiveStatus) -> (result: Result)
        requires
            !status.is_success(),
        ensures
            result == Result::empty(status),
            result.wf(),
    {
        Result { status: status, metadata: None }
    }

    /// An outcome in which `addr` was heard at `time_receive`.
    pub fn new_filled(status: ReceiveStatus, addr: IpAddress, time_receive: u64) -> (result: Result)
        requires
            status.is_success(),
        ensures
            result == Result::filled(status, addr, time_receive),
            result.wf(),
    {
        Result {
            status: status,
            metadata: Some(AnswerMetadata { addr: addr, time_receive: time_receive }),
        }
    }
}

/// One packet as a receiver handed it out: the bytes after the IP header, and
/// the address it came from.
#[derive(Debug, PartialEq, Eq)]
pub struct Datagram {
    pub packet: Vec<u8>,
    pub sender: IpAddress,
}

/// A packet that must leave before an outcome is reported.
#[derive(Debug, PartialEq, Eq)]
pub struct Teardown {
    pub packet: Vec<u8>,
    pub to: IpAddress,
}

/// What a teardown says: the bytes and where they go.
pub open spec fn teardown_view(teardown: Option<Teardown>) -> Option<(Seq<u8>, IpAddress)> {
    match teardown {
        Some(t) => Some((t.packet@, t.to)),
        None => None,
    }
}

/// What the protocol's own layer made of a read.
#[derive(Debug, PartialEq, Eq)]
pub struct Handled {
    pub result: Option<Result>,
    pub teardown: Option<Teardown>,
}

impl View for Handled {
    type V = (Option<Result>, Option<(Seq<u8>, IpAddress)>);

    open spec fn view(&self) -> Self::V {
        (self.result, teardown_view(self.teardown))
    }
}

/// What the shared ICMP receiver's read means for a probe to `dst`: nothing
/// where nothing was read, else the classification of the message.
pub open spec fn icmp_level(
    received: Option<Datagram>,
    dst: IpAddress,
    icmp_dest_reached_type: Option<u8>,
    time_receive: u64,
) -> Option<Result> {
    match received {
        None => None,
        Some(datagram) => Some(
            icmp_message_result(
                datagram.packet@,
                datagram.sender,
                dst,
                icmp_dest_reached_type,
                time_receive,
            ),
        ),
    }
}

/// Nanoseconds in a second.
pub const NANOS_PER_SEC: u64 = 1_000_000_000;

/// The time from `time_begin` to `now`; none where the clock reads earlier
/// than the beginning.
pub open spec fn elapsed(time_begin: u64, now: u64) -> nat {
    if now >= time_begin {
        (now - time_begin) as nat
    } else {
        0
    }
}

/// Whether a wait of `wait_secs` seconds that began at `time_begin` still has
/// time left at `now`.
pub open spec fn budget_left(time_begin: u64, wait_secs: u8, now: u64) -> bool {
    elapsed(time_begin, now) < wait_secs * NANOS_PER_SEC
}

/// Whether a wait of `wait_secs` seconds that began at `time_begin` still has
/// time left at `now`.
pub fn has_budget_left(time_begin: u64, wait_secs: u8, now: u64) -> (left: bool)
    ensures
        left == budget_left(time_begin, wait_secs, now),
{
    let spent: u64 = if now >= time_begin {
        now - time_begin
    } else {
        0
    };
    let budget: u64 = (wait_secs as u64) * NANOS_PER_SEC;
    spent < budget
}

/// Which read a poll is waiting for.
#[derive(Clone, Copy, Debug, PartialEq, Eq, Structural)]
pub enum PollPhase {
    /// The protocol's own receiver is being read.
    Protocol,
    /// The shared ICMP receiver is being read.
    Icmp,
    /// The poll has reported and waits for nothing.
    Finished,
}

/// The wait for the reply to one probe.
#[derive(Clone, Copy, Debug, PartialEq, Eq, Structural)]
pub struct PollState {
    pub dst: IpAddress,
    pub source: u32,
    pub time_begin: u64,
    pub wait_secs: u8,
    pub phase: PollPhase,
}

/// What the caller of a poll does next.
#[derive(Debug, PartialEq, Eq)]
pub enum PollAction {
    /// Read the protocol's own receiver with a short timeout.
    ReadProtocol,
    /// Read the shared ICMP receiver with a short timeout.
    ReadIcmp,
    /// Send the teardown, if there is one, then report the result.
    Finish { teardown: Option<Teardown>, result: Result },
}

/// A poll's action with the teardown as plain bytes.
pub enum PollStep {
    ReadProtocol,
    ReadIcmp,
    Finish { teardown: Option<(Seq<u8>, IpAddress)>, result: Result },
}

impl View for PollAction {
    type V = PollStep;

    open spec fn view(&self) -> PollStep {
        match *self {
            PollAction::ReadProtocol => PollStep::ReadProtocol,
            PollAction::ReadIcmp => PollStep::ReadIcmp,
            PollAction::Finish { teardown, result } => PollStep::Finish {
                teardown: teardown_view(teardown),
                result,
            },
        }
    }
}

/// The report of a wait that heard nothing.
pub open spec fn timed_out() -> PollStep {
    PollStep::Finish { teardown: None, result: Result::empty(ReceiveStatus::Timeout) }
}

/// The head of one round of polling at time `now`: while the budget lasts
/// the protocol's own receiver is read first, where the protocol has one, else
/// the ICMP receiver; once it is spent the poll ends in a timeout.
pub open spec fn next_round(has_protocol_level: bool, state: PollState, now: u64) -> (
    PollState,
    PollStep,
) {
    if !budget_left(state.time_begin, state.wait_secs, now) {
        (PollState { phase: PollPhase::Finished, ..state }, timed_out())
    } else if has_protocol_level {
        (PollState { phase: PollPhase::Protocol, ..state }, PollStep::ReadProtocol)
    } else {
        (PollState { phase: PollPhase::Icmp, ..state }, PollStep::ReadIcmp)
    }
}

/// The first round of the wait for a probe that was sent to `dst` at `now`:
/// the wait begins at `now`, and the round sets the phase. With no budget at
/// all the wait is over at once.
pub open spec fn first_round(
    has_protocol_level: bool,
    dst: IpAddress,
    source: u32,
    now: u64,
    wait_secs: u8,
) -> (PollState, PollStep) {
    next_round(
        has_protocol_level,
        PollState { dst, source, time_begin: now, wait_secs, phase: PollPhase::Finished },
        now,
    )
}

/// One step of a poll: what the read that the last action asked for brought,
/// at time `now`, does to the poll. `handled` is what the protocol's own layer
/// makes of the read, `heard_icmp` what the ICMP layer makes of it.
///
/// A read of the protocol's own receiver goes by `handled`: where that hears a
/// responder the poll ends with it, teardown included, where it says nothing
/// the ICMP receiver is read in the same round. A read of the ICMP receiver
/// goes by `heard_icmp` and ends the poll where that hears a responder.
/// Anything else, an anomaly too, starts the next round. A finished poll stays
/// finished and reports a timeout without any packet.
pub open spec fn poll_step(
    state: PollState,
    has_protocol_level: bool,
    handled: (Option<Result>, Option<(Seq<u8>, IpAddress)>),
    heard_icmp: Option<Result>,
    now: u64,
) -> (PollState, PollStep) {
    match state.phase {
        PollPhase::Finished => (state, timed_out()),
        PollPhase::Protocol => {
            match handled.0 {
                None => (PollState { phase: PollPhase::Icmp, ..state }, PollStep::ReadIcmp),
                Some(result) => if result.status.is_success() {
                    (
                        PollState { phase: PollPhase::Finished, ..state },
                        PollStep::Finish { teardown: handled.1, result },
                    )
                } else {
                    next_round(has_protocol_level, state, now)
                },
            }
        },
        PollPhase::Icmp => {
            match heard_icmp {
                Some(result) => if result.status.is_success() {
                    (
                        PollState { phase: PollPhase::Finished, ..state },
                        PollStep::Finish { teardown: None, result },
                    )
                } else {
                    next_round(has_protocol_level, state, now)
                },
                None => next_round(has_protocol_level, state, now),
            }
        },
    }
}

/// A probe protocol: how its probes are framed, which ICMP message means
/// that the destination was reached, and what its own receiver's packets mean.
pub trait TracerouteProtocol {
    /// The IP protocol number of the probe's transport.
    spec fn transport(&self) -> u8;

    /// Whether the protocol can probe `dst`.
    spec fn accepts(&self, dst: IpAddress) -> bool;

    /// The bytes of the probe with sequence number `current_seq` from the
    /// local address `source` to `dst`.
    spec fn probe_bytes(&self, source: u32, dst: IpAddress, current_seq: u16) -> Seq<u8>;

    /// The ICMP type by which the destination answers a probe.
    spec fn destination_reached_type(&self) -> Option<u8>;

    /// Whether the destination may answer on the protocol's own transport, so
    /// that its own receiver has to be read.
    spec fn has_protocol_level(&self) -> bool;

    /// What a read of the protocol's own receiver means for a probe to `dst`.
    spec fn protocol_level(
        &self,
        received: Option<Datagram>,
        dst: IpAddress,
        source: u32,
        time_receive: u64,
    ) -> (Option<Result>, Option<(Seq<u8>, IpAddress)>);

    /// The IP protocol number of the probe's transport.
    fn get_protocol(&self) -> (number: u8)
        ensures
            number == self.transport(),
    ;

    /// Whether the protocol can probe `dst`.
    fn can_probe(&self, dst: IpAddress) -> (accepted: bool)
        ensures
            accepted == self.accepts(dst),
    ;

    /// Frames the probe with sequence number `current_seq`.
    fn create_probe(&self, source: u32, dst: IpAddress, current_seq: u16) -> (packet: Vec<u8>)
        requires
            self.accepts(dst),
        ensures
            packet@ == self.probe_bytes(source, dst, current_seq),
    ;

    /// The ICMP type by which the destination answers a probe.
    fn get_destination_reached_icmp_type(&self) -> (icmp_type: Option<u8>)
        ensures
            icmp_type == self.destination_reached_type(),
    ;

    /// Whether the protocol's own receiver has to be read.
    fn reads_protocol_level(&self) -> (reads: bool)
        ensures
            reads == self.has_protocol_level(),
    ;

    /// A read that brought nothing means nothing: no result, and no packet
    /// to send.
    proof fn lemma_nothing_read(&self, dst: IpAddress, source: u32, time_receive: u64)
        ensures
            self.protocol_level(None, dst, source, time_receive) == (
                None::<Result>,
                None::<(Seq<u8>, IpAddress)>,
            ),
    ;

    /// Classifies what a read of the protocol's own receiver brought. A read
    /// that brought nothing gives no result and no teardown; a teardown comes
    /// only together with a responder that was heard.
    fn handle_protocol_level(
        &self,
        received: &Option<Datagram>,
        dst: IpAddress,
        source: u32,
        time_receive: u64,
    ) -> (handled: Handled)
        requires
            self.accepts(dst),
        ensures
            handled@ == self.protocol_level(*received, dst, source, time_receive),
            *received is None ==> handled.result is None && handled.teardown is None,
            handled.result matches Some(result) ==> result.wf(),
            handled.teardown is Some ==> (handled.result matches Some(result)
                && result.status.is_success()),
    ;

    /// Classifies what a read of the shared ICMP receiver brought.
    fn handle_icmp_level(&self, received: &Option<Datagram>, dst: IpAddress, time_receive: u64) -> (result:
        Option<Result>)
        ensures
            result == icmp_level(*received, dst, self.destination_reached_type(), time_receive),
            result matches Some(r) ==> r.wf(),
    {
        match received {
            None => None,
            Some(datagram) => process_icmp_message(
                datagram.packet.as_slice(),
                datagram.sender,
                dst,
                self.get_destination_reached_icmp_type(),
                time_receive,
            ),
        }
    }

    /// Starts the wait for the reply to a probe that was sent to `dst` at
    /// `now`, and says what to read first. With no budget at all the wait is
    /// over at once.
    fn begin_poll(&self, dst: IpAddress, source: u32, now: u64, wait_secs: u8) -> (begun: (
        PollState,
        PollAction,
    ))
        requires
            self.accepts(dst),
        ensures
            (begun.0, begun.1@) == first_round(
                self.has_protocol_level(),
                dst,
                source,
                now,
                wait_secs,
            ),
            begun.1 matches PollAction::Finish { result, .. } ==> result.wf()
                && begun.0.phase is Finished,
    {
        let state = PollState {
            dst: dst,
            source: source,
            time_begin: now,
            wait_secs: wait_secs,
            phase: PollPhase::Finished,
        };
        start_round(self.reads_protocol_level(), state, now)
    }

    /// Takes a poll one step further: `received` is what the read that the
    /// last action asked for brought, `now` the time when it returned.
    fn poll(&self, state: &mut PollState, received: Option<Datagram>, now: u64) -> (action:
        PollAction)
        requires
            self.accepts(old(state).dst),
        ensures
            (*final(state), action@) == poll_step(
                *old(state),
                self.has_protocol_level(),
                self.protocol_level(received, old(state).dst, old(state).source, now),
                icmp_level(received, old(state).dst, self.destination_reached_type(), now),
                now,
            ),
            final(state).dst == old(state).dst,
            action matches PollAction::Finish { result, .. } ==> result.wf()
                && final(state).phase is Finished,
    {
        match state.phase {
            PollPhase::Finished => PollAction::Finish {
                teardown: None,
                result: Result::new_empty(ReceiveStatus::Timeout),
            },
            PollPhase::Protocol => {
                let handled = self.handle_protocol_level(&received, state.dst, state.source, now);
                match handled.result {
                    None => {
                        state.phase = PollPhase::Icmp;
                        PollAction::ReadIcmp
                    },
                    Some(result) => {
                        if result.status.heard() {
                            state.phase = PollPhase::Finished;
                            PollAction::Finish { teardown: handled.teardown, result: result }
                        } else {
                            let (next, action) = start_round(
                                self.reads_protocol_level(),
                                *state,
                                now,
                            );
                            *state = next;
                            action
                        }
                    },
                }
            },
            PollPhase::Icmp => {
                let heard = match self.handle_icmp_level(&received, state.dst, now) {
                    Some(result) => if result.status.heard() {
                        Some(result)
                    } else {
                        None
                    },
                    None => None,
                };
                match heard {
                    Some(result) => {
                        state.phase = PollPhase::Finished;
                        PollAction::Finish { teardown: None, result: result }
                    },
                    None => {
                        let (next, action) = start_round(
                            self.reads_protocol_level(),
                            *state,
                            now,
                        );
                        *state = next;
                        action
                    },
                }
            },
        }
    }
}

/// Opens one round of polling at time `now`.
pub fn start_round(has_protocol_level: bool, state: PollState, now: u64) -> (begun: (
    PollState,
    PollAction,
))
    ensures
        (begun.0, begun.1@) == next_round(has_protocol_level, state, now),
        begun.1 matches PollAction::Finish { result, .. } ==> result.wf()
            && begun.0.phase is Finished,
{
    if !has_budget_left(state.time_begin, state.wait_secs, now) {
        (
            PollState {
                dst: state.dst,
                source: state.source,
                time_begin: state.time_begin,
                wait_secs: state.wait_secs,
                phase: PollPhase::Finished,
            },
            PollAction::Finish { teardown: None, result: Result::new_empty(ReceiveStatus::Timeout) },
        )
    } else if has_protocol_level {
        (
            PollState {
                dst: state.dst,
                source: state.source,
                time_begin: state.time_begin,
                wait_secs: state.wait_secs,
                phase: PollPhase::Protocol,
            },
            PollAction::ReadProtocol,
        )
    } else {
        (
            PollState {
                dst: state.dst,
                source: state.source,
                time_begin: state.time_begin,
                wait_secs: state.wait_secs,
                phase: PollPhase::Icmp,
            },
            PollAction::ReadIcmp,
        )
    }
}

/// A poll reports only what it heard or a timeout, never an anomaly; a
/// teardown comes only with a responder that was heard; and once it has
/// reported it is finished.
pub proof fn lemma_poll_reports(
    state: PollState,
    has_protocol_level: bool,
    handled: (Option<Result>, Option<(Seq<u8>, IpAddress)>),
    heard_icmp: Option<Result>,
    now: u64,
)
    ensures
        poll_step(state, has_protocol_level, handled, heard_icmp, now).1 matches PollStep::Finish {
            teardown,
            result,
        } ==> (poll_step(state, has_protocol_level, handled, heard_icmp, now).0.phase is Finished
            && !(result.status is Error) && (teardown is Some ==> result.status.is_success())),
{
}

/// A read of the protocol's own receiver that brought nothing reports
/// nothing and sends nothing: the ICMP receiver is read next, in the same
/// round, whatever the protocol.
pub proof fn lemma_nothing_read_goes_on<P: TracerouteProtocol>(
    protocol: P,
    state: PollState,
    heard_icmp: Option<Result>,
    now: u64,
)
    requires
        state.phase is Protocol,
    ensures
        poll_step(
            state,
            protocol.has_protocol_level(),
            protocol.protocol_level(None, state.dst, state.source, now),
            heard_icmp,
            now,
        ) == (PollState { phase: PollPhase::Icmp, ..state }, PollStep::ReadIcmp),
{
    protocol.lemma_nothing_read(state.dst, state.source, now);
}

/// After the budget is spent a poll is idempotent: once it has reported a
/// timeout, every further step reports the timeout again, leaves the poll as
/// it is and sends no packet, whatever was read and whatever the time.
pub proof fn lemma_poll_idempotent_after_timeout(
    state: PollState,
    has_protocol_level: bool,
    handled: (Option<Result>, Option<(Seq<u8>, IpAddress)>),
    heard_icmp: Option<Result>,
    now: u64,
    later_handled: (Option<Result>, Option<(Seq<u8>, IpAddress)>),
    later_heard_icmp: Option<Result>,
    later: u64,
)
    requires
        poll_step(state, has_protocol_level, handled, heard_icmp, now).1 == timed_out(),
    ensures
        poll_step(
            poll_step(state, has_protocol_level, handled, heard_icmp, now).0,
            has_protocol_level,
            later_handled,
            later_heard_icmp,
            later,
        ) == (poll_step(state, has_protocol_level, handled, heard_icmp, now).0, timed_out()),
{
}

/// A round that opens after the budget is spent ends the poll in a timeout
/// without any packet.
pub proof fn lemma_spent_budget_times_out(has_protocol_level: bool, state: PollState, now: u64)
    requires
        !budget_left(state.time_begin, state.wait_secs, now),
    ensures
        next_round(has_protocol_level, state, now) == (
            PollState { phase: PollPhase::Finished, ..state },
            timed_out(),
        ),
{
}

/// A poll that is given no budget is over before anything is read.
pub proof fn lemma_no_budget_times_out(
    has_protocol_level: bool,
    dst: IpAddress,
    source: u32,
    now: u64,
)
    ensures
        first_round(has_protocol_level, dst, source, now, 0).1 == timed_out(),
        first_round(has_protocol_level, dst, source, now, 0).0.phase is Finished,
{
}

} // verus!
