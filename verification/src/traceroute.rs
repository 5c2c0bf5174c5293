//! The run: which probe goes out next, and what the outcome of each probe
//! does to the run.

use crate::args::Config;
use crate::interfaces::IpAddress;
use crate::protocols::protocol::{ReceiveStatus, Result};
use vstd::prelude::*;

verus! {

/// One probe: its sequence number, unique for the whole run, and the TTL it
/// is sent with. The first probe of a hop is marked: the sender's TTL has to
/// be set before it leaves.
#[derive(Clone, Copy, Debug, PartialEq, Eq, Structural)]
pub struct Probe {
    pub seq: u16,
    pub ttl: u8,
    pub first_of_hop: bool,
}

/// What the outcome of a probe adds to the line of its hop. Round-trip times
/// are in nanoseconds.
#[derive(Clone, Copy, Debug, PartialEq, Eq, Structural)]
pub enum Report {
    /// A responder that the hop's line does not name yet: its address and
    /// the round-trip time.
    ReplyWithAddress { addr: IpAddress, rtt: u64 },
    /// A responder that the hop's line names already: the round-trip time
    /// alone.
    Reply { rtt: u64 },
    /// The mark of a probe that nobody answered.
    Timeout,
    /// Nothing.
    Nothing,
}

/// The state of a run.
#[derive(Debug, PartialEq, Eq)]
pub struct RunState {
    /// Probes per hop.
    pub tries: u8,
    /// The hop ceiling.
    pub hops: u8,
    /// The TTL of the first hop.
    pub first_hop_ttl: u8,
    /// The TTL of the hop that is being probed, or, once the run is done, the
    /// one that would have come next.
    pub current_ttl: u16,
    /// The sequence number of the next probe.
    pub current_seq: u16,
    /// How many probes of the current hop have been answered for.
    pub tries_done: u8,
    /// Whether a probe of the current hop reached the destination.
    pub destination_found: bool,
    /// Whether the run is over.
    pub done: bool,
    /// The responders that the line of the current hop names already, in
    /// the order in which they first answered.
    pub named: Vec<IpAddress>,
}

/// The state of a run as plain values: what `RunState` holds, the responders
/// as a sequence.
pub struct Run {
    pub tries: u8,
    pub hops: u8,
    pub first_hop_ttl: u8,
    pub current_ttl: u16,
    pub current_seq: u16,
    pub tries_done: u8,
    pub destination_found: bool,
    pub done: bool,
    pub named: Seq<IpAddress>,
}

impl View for RunState {
    type V = Run;

    open spec fn view(&self) -> Run {
        Run {
            tries: self.tries,
            hops: self.hops,
            first_hop_ttl: self.first_hop_ttl,
            current_ttl: self.current_ttl,
            current_seq: self.current_seq,
            tries_done: self.tries_done,
            destination_found: self.destination_found,
            done: self.done,
            named: self.named@,
        }
    }
}

/// The time from sending a probe to reading its answer; none where the
/// answer's time is not after the sending.
pub open spec fn round_trip(time_send: u64, time_receive: u64) -> u64 {
    if time_receive >= time_send {
        (time_receive - time_send) as u64
    } else {
        0
    }
}

/// Whether no address stands twice among `addresses`.
pub open spec fn distinct(addresses: Seq<IpAddress>) -> bool {
    forall|i: int, j: int| 0 <= i < j < addresses.len() ==> addresses[i] != addresses[j]
}

impl Run {
    /// The state before the first probe of a run with the given limits.
    pub open spec fn initial(tries: u8, hops: u8, first_hop_ttl: u8) -> Run {
        Run {
            tries,
            hops,
            first_hop_ttl,
            current_ttl: first_hop_ttl as u16,
            current_seq: 0,
            tries_done: 0,
            destination_found: false,
            done: false,
            named: Seq::empty(),
        }
    }

    /// The limits are at least one; the hop being probed lies at or after the
    /// first and, while the run lasts, is the first or lies below the hop
    /// ceiling; the sequence counter has counted every probe of every hop so
    /// far; and the hop's line names no responder twice, and no more
    /// responders than probes were answered for.
    pub open spec fn wf(&self) -> bool {
        &&& self.tries >= 1
        &&& self.hops >= 1
        &&& self.first_hop_ttl >= 1
        &&& self.first_hop_ttl <= self.current_ttl <= 256
        &&& self.tries_done < self.tries
        &&& self.current_seq == (self.current_ttl - self.first_hop_ttl) * self.tries
            + self.tries_done
        &&& !self.done ==> self.current_ttl == self.first_hop_ttl || self.current_ttl
            < self.hops
        &&& self.done ==> self.tries_done == 0
        &&& self.named.len() <= self.tries_done
        &&& distinct(self.named)
    }

    /// The most probes that a run with the given limits sends: the tries of
    /// every hop from the first up to the hop ceiling, and those of the
    /// first hop in any case.
    pub open spec fn max_probes(tries: u8, hops: u8, first_hop_ttl: u8) -> int {
        if hops > first_hop_ttl {
            (hops - first_hop_ttl) * tries
        } else {
            tries as int
        }
    }

    /// The probe that goes out next, if the run is not over.
    pub open spec fn pending(&self) -> Option<Probe> {
        if self.done {
            None
        } else {
            Some(
                Probe {
                    seq: self.current_seq,
                    ttl: self.current_ttl as u8,
                    first_of_hop: self.tries_done == 0,
                },
            )
        }
    }

    /// What the outcome of the pending probe, sent at `time_send`, adds to the
    /// hop's line: for a responder its round-trip time, with its address where
    /// the line does not name it yet, so that the line holds one address for
    /// each responder; a mark for a timeout; nothing for an anomaly, and
    /// nothing once the run is over.
    pub open spec fn report_for(&self, time_send: u64, result: Result) -> Report {
        if self.done {
            Report::Nothing
        } else {
            match result.status {
                ReceiveStatus::Timeout => Report::Timeout,
                ReceiveStatus::Error => Report::Nothing,
                _ => {
                    let answer = result.metadata.unwrap();
                    let rtt = round_trip(time_send, answer.time_receive);
                    if self.named.contains(answer.addr) {
                        Report::Reply { rtt }
                    } else {
                        Report::ReplyWithAddress { addr: answer.addr, rtt }
                    }
                },
            }
        }
    }

    /// The responders that the hop's line names after the outcome of one more
    /// probe of the hop: a responder that was not named yet is added.
    pub open spec fn named_after(&self, result: Result) -> Seq<IpAddress> {
        if result.status.is_success() && !self.named.contains(result.metadata.unwrap().addr) {
            self.named.push(result.metadata.unwrap().addr)
        } else {
            self.named
        }
    }

    /// The state after the outcome of the pending probe.
    ///
    /// Every outcome uses up one try and one sequence number. After the last
    /// try of a hop the TTL goes up by one, the next hop's line names nobody
    /// yet, and the run is over where a probe of that hop reached the
    /// destination or the TTL has reached the hop ceiling. Once the run is
    /// over nothing changes any more.
    pub open spec fn after(&self, result: Result) -> Run {
        if self.done {
            *self
        } else {
            let found = self.destination_found || result.status
                is SuccessDestinationFound;
            if self.tries_done + 1 < self.tries {
                Run {
                    current_seq: (self.current_seq + 1) as u16,
                    tries_done: (self.tries_done + 1) as u8,
                    destination_found: found,
                    named: self.named_after(result),
                    ..*self
                }
            } else {
                Run {
                    current_ttl: (self.current_ttl + 1) as u16,
                    current_seq: (self.current_seq + 1) as u16,
                    tries_done: 0,
                    destination_found: found,
                    done: found || self.current_ttl + 1 >= self.hops,
                    named: Seq::empty(),
                    ..*self
                }
            }
        }
    }

    /// The state after a sequence of outcomes, one per probe.
    pub open spec fn after_all(&self, results: Seq<Result>) -> Run
        decreases results.len(),
    {
        if results.len() == 0 {
            *self
        } else {
            self.after_all(results.drop_last()).after(results.last())
        }
    }

    /// Whether the run ended because the TTL reached the hop ceiling.
    pub open spec fn max_hops_reached(&self) -> bool {
        self.done && self.current_ttl >= self.hops
    }
}

/// Whether `addr` stands among `addresses`.
fn is_named(addresses: &Vec<IpAddress>, addr: IpAddress) -> (found: bool)
    ensures
        found == addresses@.contains(addr),
{
    let mut i: usize = 0;
    while i < addresses.len()
        invariant
            i <= addresses.len(),
            forall|k: int| 0 <= k < i ==> addresses@[k] != addr,
        decreases addresses.len() - i,
    {
        if addresses[i] == addr {
            return true;
        }
        i += 1;
    }
    false
}

impl RunState {
    /// The state before the first probe of a run.
    pub fn new(config: &Config) -> (state: RunState)
        requires
            config.wf(),
        ensures
            state@ == Run::initial(config.tries, config.hops, config.first_hop_ttl),
            state@.wf(),
    {
        RunState {
            tries: config.tries,
            hops: config.hops,
            first_hop_ttl: config.first_hop_ttl,
            current_ttl: config.first_hop_ttl as u16,
            current_seq: 0,
            tries_done: 0,
            destination_found: false,
            done: false,
            named: Vec::new(),
        }
    }

    /// The probe to send next, or none when the run is over.
    pub fn next_probe(&self) -> (probe: Option<Probe>)
        requires
            self@.wf(),
        ensures
            probe == self@.pending(),
    {
        if self.done {
            None
        } else {
            Some(
                Probe {
                    seq: self.current_seq,
                    ttl: self.current_ttl as u8,
                    first_of_hop: self.tries_done == 0,
                },
            )
        }
    }

    /// Whether the run ended because the TTL reached the hop ceiling.
    pub fn reached_max_hops(&self) -> (reached: bool)
        ensures
            reached == self@.max_hops_reached(),
    {
        self.done && self.current_ttl >= self.hops as u16
    }
}

/// The sequence counter of a well-formed state fits 16 bits with room for one
/// more.
pub proof fn lemma_seq_in_range(state: Run)
    requires
        state.wf(),
    ensures
        state.current_seq <= 255 * 255,
        !state.done ==> state.current_seq < 255 * 255,
{
    let hops_done = state.current_ttl - state.first_hop_ttl;
    let tries = state.tries as int;
    assert(hops_done * tries <= 255 * 255 && (hops_done <= 254 ==> hops_done * tries <= 254 * 255))
        by (nonlinear_arith)
        requires
            0 <= hops_done <= 255,
            1 <= tries <= 255,
    ;
}

/// Takes the outcome of the pending probe, which was sent at `time_send`:
/// moves the run on and says what to add to the hop's line.
pub fn do_traceroute(state: &mut RunState, time_send: u64, result: Result) -> (report: Report)
    requires
        old(state)@.wf(),
        result.wf(),
    ensures
        final(state)@ == old(state)@.after(result),
        report == old(state)@.report_for(time_send, result),
        final(state)@.wf(),
{
    if state.done {
        return Report::Nothing;
    }
    proof {
        lemma_after(state@, result);
    }
    let report = match result.status {
        ReceiveStatus::Timeout => Report::Timeout,
        ReceiveStatus::Error => Report::Nothing,
        ReceiveStatus::SuccessContinue | ReceiveStatus::SuccessDestinationFound => {
            match result.metadata {
                Some(answer) => {
                    let rtt = if answer.time_receive >= time_send {
                        answer.time_receive - time_send
                    } else {
                        0
                    };
                    if is_named(&state.named, answer.addr) {
                        Report::Reply { rtt: rtt }
                    } else {
                        state.named.push(answer.addr);
                        Report::ReplyWithAddress { addr: answer.addr, rtt: rtt }
                    }
                },
                None => Report::Nothing,
            }
        },
    };
    match result.status {
        ReceiveStatus::SuccessDestinationFound => {
            state.destination_found = true;
        },
        _ => {},
    }
    state.current_seq = state.current_seq + 1;
    if state.tries_done + 1 < state.tries {
        state.tries_done = state.tries_done + 1;
    } else {
        state.tries_done = 0;
        state.named.clear();
        state.current_ttl = state.current_ttl + 1;
        if state.destination_found || state.current_ttl >= state.hops as u16 {
            state.done = true;
        }
    }
    assert(state@.named =~= old(state)@.after(result).named);
    report
}

/// An outcome keeps a state well-formed and its limits as they are. It uses
/// up exactly one sequence number while the run lasts, and none afterwards,
/// and it never takes the TTL back.
pub proof fn lemma_after(state: Run, result: Result)
    requires
        state.wf(),
    ensures
        state.after(result).wf(),
        state.after(result).tries == state.tries,
        state.after(result).hops == state.hops,
        state.after(result).first_hop_ttl == state.first_hop_ttl,
        state.after(result).current_ttl >= state.current_ttl,
        state.current_seq < 255 * 255 || state.done,
        state.done ==> state.after(result) == state,
        !state.done ==> state.after(result).current_seq == state.current_seq + 1,
{
    lemma_seq_in_range(state);
    let hops_done = state.current_ttl - state.first_hop_ttl;
    let tries = state.tries as int;
    assert((hops_done + 1) * tries == hops_done * tries + tries) by (nonlinear_arith);
}

/// The same of a sequence of outcomes: while the run lasts, each has used up
/// one sequence number; and a run that lasts has lasted all along.
pub proof fn lemma_after_all(start: Run, results: Seq<Result>)
    requires
        start.wf(),
    ensures
        start.after_all(results).wf(),
        start.after_all(results).tries == start.tries,
        start.after_all(results).hops == start.hops,
        start.after_all(results).first_hop_ttl == start.first_hop_ttl,
        start.after_all(results).current_ttl >= start.current_ttl,
        start.done ==> start.after_all(results) == start,
        !start.after_all(results).done ==> !start.done && start.after_all(results).current_seq
            == start.current_seq + results.len(),
    decreases results.len(),
{
    if results.len() > 0 {
        lemma_after_all(start, results.drop_last());
        lemma_after(start.after_all(results.drop_last()), results.last());
    }
}

/// The state after one outcome more is the state after the outcomes so far,
/// taken one step on.
pub proof fn lemma_one_more(start: Run, results: Seq<Result>, n: int)
    requires
        0 <= n < results.len(),
    ensures
        start.after_all(results.take(n + 1)) == start.after_all(results.take(n)).after(results[n]),
{
    assert(results.take(n + 1).drop_last() =~= results.take(n));
}

/// A run that still lasts after some outcomes lasted after each smaller
/// number of them, and its TTL was no larger then.
pub proof fn lemma_lasting_run(start: Run, results: Seq<Result>, n: int)
    requires
        start.wf(),
        0 <= n <= results.len(),
        !start.after_all(results).done,
    ensures
        !start.after_all(results.take(n)).done,
        start.after_all(results.take(n)).current_ttl <= start.after_all(results).current_ttl,
    decreases results.len(),
{
    if n == results.len() {
        assert(results.take(n) =~= results);
    } else {
        lemma_after_all(start, results.drop_last());
        lemma_after(start.after_all(results.drop_last()), results.last());
        lemma_lasting_run(start, results.drop_last(), n);
        assert(results.drop_last().take(n) =~= results.take(n));
    }
}

/// Sequence numbers are strictly increasing over a whole run, hop boundaries
/// included: of two probes of one run, the later one carries the larger
/// number. The probe after `i` outcomes and the probe after `j` outcomes
/// stand for any two probes; the run may start in any well-formed state.
pub proof fn lemma_sequence_numbers_increase(start: Run, results: Seq<Result>, i: int, j: int)
    requires
        start.wf(),
        0 <= i < j <= results.len(),
    ensures
        start.after_all(results.take(j)).pending() matches Some(later) ==> (start.after_all(
            results.take(i),
        ).pending() matches Some(earlier) && earlier.seq < later.seq),
{
    let upto_j = results.take(j);
    if !start.after_all(upto_j).done {
        lemma_lasting_run(start, upto_j, i);
        assert(upto_j.take(i) =~= results.take(i));
        lemma_after_all(start, upto_j);
        lemma_after_all(start, results.take(i));
    }
}

/// No hop gets more probes than there are tries, and no TTL is visited
/// again once the run has moved past it: of two probes of one run, the later
/// one has the same TTL or a larger one, and two probes with the same TTL
/// are fewer than `tries` probes apart.
pub proof fn lemma_hops_in_order(start: Run, results: Seq<Result>, i: int, j: int)
    requires
        start.wf(),
        0 <= i < j <= results.len(),
    ensures
        start.after_all(results.take(j)).pending() matches Some(later) ==> (start.after_all(
            results.take(i),
        ).pending() matches Some(earlier) && earlier.ttl <= later.ttl && (earlier.ttl
            == later.ttl ==> j - i < start.tries)),
{
    let upto_j = results.take(j);
    let at_i = start.after_all(results.take(i));
    let at_j = start.after_all(upto_j);
    if !at_j.done {
        lemma_lasting_run(start, upto_j, i);
        assert(upto_j.take(i) =~= results.take(i));
        lemma_after_all(start, upto_j);
        lemma_after_all(start, results.take(i));
        let tries = start.tries as int;
        let hi = at_i.current_ttl - start.first_hop_ttl;
        let hj = at_j.current_ttl - start.first_hop_ttl;
        let di = at_i.tries_done as int;
        let dj = at_j.tries_done as int;
        assert(hj * tries + dj == hi * tries + di + (j - i));
        assert(hi <= hj && (hi == hj ==> j - i < tries)) by (nonlinear_arith)
            requires
                hj * tries + dj == hi * tries + di + (j - i),
                0 <= di < tries,
                0 <= dj < tries,
                j - i > 0,
        ;
    }
}

/// A responder that the line of a hop names stays named for as long as the
/// run is at that hop: after `n` outcomes the line names `addr`, and after
/// `m` outcomes the run still lasts at the same TTL.
pub proof fn lemma_named_stays(start: Run, results: Seq<Result>, n: int, m: int, addr: IpAddress)
    requires
        start.wf(),
        0 <= n <= m <= results.len(),
        start.after_all(results.take(n)).named.contains(addr),
        !start.after_all(results.take(m)).done,
        start.after_all(results.take(m)).current_ttl == start.after_all(
            results.take(n),
        ).current_ttl,
    ensures
        start.after_all(results.take(m)).named.contains(addr),
    decreases m - n,
{
    if n < m {
        let before = start.after_all(results.take(m - 1));
        let at_m = start.after_all(results.take(m));
        let at_n = start.after_all(results.take(n));
        lemma_one_more(start, results, m - 1);
        lemma_after_all(start, results.take(m - 1));
        lemma_after(before, results[m - 1]);
        // The run lasted, at a TTL between the two that are equal, one outcome earlier.
        lemma_lasting_run(start, results.take(m - 1), n);
        assert(results.take(m - 1).take(n) =~= results.take(n));
        assert(before.current_ttl == at_n.current_ttl);
        lemma_named_stays(start, results, n, m - 1, addr);
        let i = choose|i: int| 0 <= i < before.named.len() && before.named[i] == addr;
        assert(at_m.named[i] == addr);
    }
}

/// The line of a hop holds at most one address for each responder: of two
/// outcomes of probes of one hop, no two reports carry the same address.
/// The outcomes `i` and `j` of a run stand for any two whose probes were sent
/// with the same TTL; the times of sending are any.
pub proof fn lemma_one_address_per_responder(
    start: Run,
    results: Seq<Result>,
    i: int,
    j: int,
    time_send_i: u64,
    time_send_j: u64,
)
    requires
        start.wf(),
        0 <= i < j < results.len(),
        !start.after_all(results.take(j)).done,
        start.after_all(results.take(i)).current_ttl == start.after_all(
            results.take(j),
        ).current_ttl,
    ensures
        start.after_all(results.take(i)).report_for(time_send_i, results[i])
            matches Report::ReplyWithAddress { addr: first, .. } ==> (start.after_all(
            results.take(j),
        ).report_for(time_send_j, results[j]) matches Report::ReplyWithAddress {
            addr: second,
            ..
        } ==> first != second),
{
    let at_i = start.after_all(results.take(i));
    let next = start.after_all(results.take(i + 1));
    let at_j = start.after_all(results.take(j));
    if let Report::ReplyWithAddress { addr, .. } = at_i.report_for(time_send_i, results[i]) {
        lemma_one_more(start, results, i);
        lemma_after_all(start, results.take(i));
        lemma_after(at_i, results[i]);
        lemma_lasting_run(start, results.take(j), i + 1);
        assert(results.take(j).take(i + 1) =~= results.take(i + 1));
        lemma_lasting_run(start, results.take(j), i);
        assert(results.take(j).take(i) =~= results.take(i));
        assert(next.current_ttl == at_i.current_ttl);
        assert(next.named == at_i.named.push(addr));
        assert(next.named[at_i.named.len() as int] == addr);
        lemma_named_stays(start, results, i + 1, j, addr);
    }
}

/// A run comes to its end: from its first state it is over after the
/// outcomes of as many probes as a run with its limits sends at most.
pub proof fn lemma_run_ends(tries: u8, hops: u8, first_hop_ttl: u8, results: Seq<Result>)
    requires
        tries >= 1,
        hops >= 1,
        first_hop_ttl >= 1,
        results.len() >= Run::max_probes(tries, hops, first_hop_ttl),
    ensures
        Run::initial(tries, hops, first_hop_ttl).after_all(results).done,
{
    let start = Run::initial(tries, hops, first_hop_ttl);
    let end = start.after_all(results);
    lemma_after_all(start, results);
    if !end.done {
        let hops_done = end.current_ttl - first_hop_ttl;
        let per_hop = tries as int;
        let len = results.len() as int;
        let hops_left = hops - first_hop_ttl;
        assert(hops_left >= 1 ==> hops_left * per_hop >= per_hop) by (nonlinear_arith)
            requires
                per_hop >= 1,
        ;
        assert(hops_done >= 1) by (nonlinear_arith)
            requires
                hops_done >= 0,
                hops_done * per_hop + end.tries_done == len,
                end.tries_done < per_hop,
                len >= per_hop,
        ;
        assert(hops_done * per_hop + per_hop <= hops_left * per_hop) by (nonlinear_arith)
            requires
                1 <= hops_done < hops_left,
                per_hop >= 1,
        ;
    }
}

} // verus!
