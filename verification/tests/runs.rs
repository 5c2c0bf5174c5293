use traceroute_rust::args::{parse_config, Arguments, Config, Method};
use traceroute_rust::interfaces::IpAddress;
use traceroute_rust::protocols::icmp::IcmpTraceroute;
use traceroute_rust::protocols::protocol::{
    AnswerMetadata, Datagram, PollAction, ReceiveStatus, Result, TracerouteProtocol,
};
use traceroute_rust::traceroute::{do_traceroute, Probe, Report, RunState};

const MILLI: u64 = 1_000_000;

fn config(hops: u8, tries: u8, wait_secs: u8, first_hop_ttl: u8) -> Config {
    Config {
        host: "example.org".to_string(),
        hops: hops,
        method: Method::ICMP,
        tries: tries,
        wait_secs: wait_secs,
        port: 33434,
        first_hop_ttl: first_hop_ttl,
        resolve_hostnames: false,
    }
}

fn destination() -> IpAddress {
    IpAddress::from_octets(93, 184, 216, 34)
}

fn router(n: u8) -> IpAddress {
    IpAddress::from_octets(10, 0, n, 1)
}

fn timeout() -> Result {
    Result { status: ReceiveStatus::Timeout, metadata: None }
}

fn anomaly() -> Result {
    Result { status: ReceiveStatus::Error, metadata: None }
}

fn hop(addr: IpAddress, time_receive: u64) -> Result {
    Result {
        status: ReceiveStatus::SuccessContinue,
        metadata: Some(AnswerMetadata { addr: addr, time_receive: time_receive }),
    }
}

fn found(addr: IpAddress, time_receive: u64) -> Result {
    Result {
        status: ReceiveStatus::SuccessDestinationFound,
        metadata: Some(AnswerMetadata { addr: addr, time_receive: time_receive }),
    }
}

fn probe(seq: u16, ttl: u8, first_of_hop: bool) -> Option<Probe> {
    Some(Probe { seq: seq, ttl: ttl, first_of_hop: first_of_hop })
}

#[test]
fn a_run_starts_at_the_first_hop_with_sequence_zero() {
    let state = RunState::new(&config(64, 3, 3, 1));
    assert_eq!(state.current_ttl, 1);
    assert_eq!(state.current_seq, 0);
    assert!(!state.done);
    assert!(!state.destination_found);
    assert_eq!(state.tries_done, 0);
    assert_eq!(state.named, Vec::new());
    assert_eq!(state.next_probe(), probe(0, 1, true));
    let state = RunState::new(&config(64, 3, 3, 7));
    assert_eq!(state.current_ttl, 7);
    assert_eq!(state.next_probe(), probe(0, 7, true));
}

#[test]
fn the_destination_at_hop_three_ends_the_run() {
    let mut state = RunState::new(&config(64, 3, 3, 1));
    let mut reports = Vec::new();
    let mut probes = Vec::new();
    let mut clock: u64 = 0;
    while let Some(next) = state.next_probe() {
        probes.push(next);
        let time_send = clock;
        clock += 5 * MILLI;
        let result = match (next.ttl, next.seq) {
            (1, _) => hop(router(1), clock),
            (2, _) => hop(router(2), clock),
            (3, 6) => timeout(),
            (3, 7) => found(destination(), clock),
            (3, _) => timeout(),
            _ => panic!("the run went past the destination"),
        };
        reports.push(do_traceroute(&mut state, time_send, result));
    }
    assert_eq!(
        probes,
        vec![
            Probe { seq: 0, ttl: 1, first_of_hop: true },
            Probe { seq: 1, ttl: 1, first_of_hop: false },
            Probe { seq: 2, ttl: 1, first_of_hop: false },
            Probe { seq: 3, ttl: 2, first_of_hop: true },
            Probe { seq: 4, ttl: 2, first_of_hop: false },
            Probe { seq: 5, ttl: 2, first_of_hop: false },
            Probe { seq: 6, ttl: 3, first_of_hop: true },
            Probe { seq: 7, ttl: 3, first_of_hop: false },
            Probe { seq: 8, ttl: 3, first_of_hop: false },
        ]
    );
    assert_eq!(
        reports,
        vec![
            Report::ReplyWithAddress { addr: router(1), rtt: 5 * MILLI },
            Report::Reply { rtt: 5 * MILLI },
            Report::Reply { rtt: 5 * MILLI },
            Report::ReplyWithAddress { addr: router(2), rtt: 5 * MILLI },
            Report::Reply { rtt: 5 * MILLI },
            Report::Reply { rtt: 5 * MILLI },
            Report::Timeout,
            Report::ReplyWithAddress { addr: destination(), rtt: 5 * MILLI },
            Report::Timeout,
        ]
    );
    assert!(state.done);
    assert!(state.destination_found);
    assert_eq!(state.current_ttl, 4);
    assert_eq!(state.current_seq, 9);
    assert!(!state.reached_max_hops());
}

#[test]
fn the_destination_at_hop_three_through_the_poll() {
    let protocol = IcmpTraceroute::with_identifier(0x4242);
    let mut state = RunState::new(&config(64, 3, 3, 1));
    let mut clock: u64 = 0;
    let mut outcomes = Vec::new();
    while let Some(next) = state.next_probe() {
        let packet = protocol.create_probe(0, destination(), next.seq);
        assert_eq!(packet[6], (next.seq >> 8) as u8);
        assert_eq!(packet[7], (next.seq & 0xFF) as u8);
        let time_send = clock;
        let (mut poll, mut action) =
            protocol.begin_poll(destination(), 0, time_send, 3);
        let result = loop {
            match action {
                PollAction::Finish { teardown, result } => {
                    assert_eq!(teardown, None);
                    break result;
                },
                PollAction::ReadProtocol => panic!("an ICMP probe has no receiver of its own"),
                PollAction::ReadIcmp => {
                    clock += MILLI;
                    let received = match (next.ttl, next.seq) {
                        (1, _) => Some(Datagram {
                            packet: vec![11, 0, 0, 0, 0, 0, 0, 0],
                            sender: router(1),
                        }),
                        (2, _) => Some(Datagram {
                            packet: vec![11, 0, 0, 0, 0, 0, 0, 0],
                            sender: router(2),
                        }),
                        (3, 7) => Some(Datagram {
                            packet: vec![0, 0, 0, 0, 0x42, 0x42, 0, 7],
                            sender: destination(),
                        }),
                        _ => None,
                    };
                    action = protocol.poll(&mut poll, received, clock);
                },
            }
        };
        outcomes.push(result.status);
        do_traceroute(&mut state, time_send, result);
    }
    assert_eq!(
        outcomes,
        vec![
            ReceiveStatus::SuccessContinue,
            ReceiveStatus::SuccessContinue,
            ReceiveStatus::SuccessContinue,
            ReceiveStatus::SuccessContinue,
            ReceiveStatus::SuccessContinue,
            ReceiveStatus::SuccessContinue,
            ReceiveStatus::Timeout,
            ReceiveStatus::SuccessDestinationFound,
            ReceiveStatus::Timeout,
        ]
    );
    assert!(state.done);
    assert_eq!(state.current_ttl, 4);
}

#[test]
fn a_silent_hop_gets_three_marks_and_the_ttl_advances() {
    let mut state = RunState::new(&config(64, 3, 1, 5));
    assert_eq!(state.next_probe(), probe(0, 5, true));
    assert_eq!(do_traceroute(&mut state, 0, timeout()), Report::Timeout);
    assert_eq!(state.next_probe(), probe(1, 5, false));
    assert_eq!(do_traceroute(&mut state, 10, timeout()), Report::Timeout);
    assert_eq!(state.next_probe(), probe(2, 5, false));
    assert_eq!(do_traceroute(&mut state, 20, timeout()), Report::Timeout);
    assert_eq!(state.current_ttl, 6);
    assert!(!state.done);
    assert_eq!(state.next_probe(), probe(3, 6, true));
}

#[test]
fn the_hop_ceiling_ends_the_run() {
    let mut state = RunState::new(&config(5, 3, 1, 1));
    let mut ttls = Vec::new();
    let mut clock = 0;
    while let Some(next) = state.next_probe() {
        ttls.push(next.ttl);
        clock += 1;
        let result = if next.seq % 2 == 0 {
            hop(router(next.ttl), clock)
        } else {
            timeout()
        };
        do_traceroute(&mut state, clock, result);
    }
    assert_eq!(ttls, vec![1, 1, 1, 2, 2, 2, 3, 3, 3, 4, 4, 4]);
    assert!(state.done);
    assert!(!state.destination_found);
    assert!(state.reached_max_hops());
    assert_eq!(state.current_ttl, 5);
    assert_eq!(state.current_seq, 12);
}

#[test]
fn the_first_hop_is_probed_even_at_the_ceiling() {
    let mut state = RunState::new(&config(1, 2, 1, 1));
    assert_eq!(state.next_probe(), probe(0, 1, true));
    do_traceroute(&mut state, 0, timeout());
    assert_eq!(state.next_probe(), probe(1, 1, false));
    do_traceroute(&mut state, 0, timeout());
    assert_eq!(state.next_probe(), None);
    assert!(state.reached_max_hops());
    assert_eq!(state.current_ttl, 2);
    let mut state = RunState::new(&config(3, 1, 1, 9));
    assert_eq!(state.next_probe(), probe(0, 9, true));
    do_traceroute(&mut state, 0, timeout());
    assert_eq!(state.next_probe(), None);
    assert!(state.reached_max_hops());
}

#[test]
fn the_last_ttl_does_not_wrap() {
    let mut state = RunState::new(&config(255, 2, 1, 255));
    assert_eq!(state.next_probe(), probe(0, 255, true));
    do_traceroute(&mut state, 0, timeout());
    assert_eq!(state.next_probe(), probe(1, 255, false));
    do_traceroute(&mut state, 0, timeout());
    assert_eq!(state.next_probe(), None);
    assert_eq!(state.current_ttl, 256);
    assert!(state.done);
    assert!(state.reached_max_hops());
}

#[test]
fn the_longest_run_keeps_its_numbers_apart() {
    let mut state = RunState::new(&config(255, 255, 1, 1));
    let mut previous: Option<Probe> = None;
    let mut count: u32 = 0;
    let mut at_this_ttl: u32 = 0;
    while let Some(next) = state.next_probe() {
        match previous {
            None => {
                assert_eq!(next.seq, 0);
                at_this_ttl = 1;
            },
            Some(before) => {
                assert!(next.seq > before.seq);
                assert_eq!(next.seq, before.seq + 1);
                assert!(next.ttl >= before.ttl);
                if next.ttl == before.ttl {
                    at_this_ttl += 1;
                    assert!(!next.first_of_hop);
                } else {
                    assert_eq!(next.ttl, before.ttl + 1);
                    assert_eq!(at_this_ttl, 255);
                    assert!(next.first_of_hop);
                    at_this_ttl = 1;
                }
                assert!(at_this_ttl <= 255);
            },
        }
        previous = Some(next);
        count += 1;
        do_traceroute(&mut state, 0, timeout());
    }
    assert_eq!(count, 254 * 255);
    assert_eq!(state.current_seq, 64770);
    assert_eq!(state.current_ttl, 255);
    assert!(state.reached_max_hops());
}

#[test]
fn the_hop_is_finished_after_the_destination_answers() {
    let mut state = RunState::new(&config(64, 3, 3, 1));
    assert_eq!(
        do_traceroute(&mut state, 100, found(destination(), 350)),
        Report::ReplyWithAddress { addr: destination(), rtt: 250 }
    );
    assert!(state.destination_found);
    assert!(!state.done);
    assert_eq!(state.next_probe(), probe(1, 1, false));
    assert_eq!(do_traceroute(&mut state, 400, found(destination(), 600)), Report::Reply { rtt: 200 });
    assert_eq!(state.next_probe(), probe(2, 1, false));
    assert_eq!(do_traceroute(&mut state, 700, timeout()), Report::Timeout);
    assert!(state.done);
    assert_eq!(state.next_probe(), None);
    assert!(!state.reached_max_hops());
    assert_eq!(state.current_ttl, 2);
}

#[test]
fn each_responder_of_a_hop_is_named_once() {
    let mut state = RunState::new(&config(64, 6, 3, 1));
    assert_eq!(
        do_traceroute(&mut state, 0, hop(router(1), 10)),
        Report::ReplyWithAddress { addr: router(1), rtt: 10 }
    );
    assert_eq!(state.named, vec![router(1)]);
    assert_eq!(do_traceroute(&mut state, 20, timeout()), Report::Timeout);
    assert_eq!(do_traceroute(&mut state, 30, hop(router(1), 45)), Report::Reply { rtt: 15 });
    assert_eq!(
        do_traceroute(&mut state, 50, hop(router(2), 70)),
        Report::ReplyWithAddress { addr: router(2), rtt: 20 }
    );
    assert_eq!(state.named, vec![router(1), router(2)]);
    assert_eq!(do_traceroute(&mut state, 80, hop(router(1), 85)), Report::Reply { rtt: 5 });
    assert_eq!(state.named, vec![router(1), router(2)]);
    assert_eq!(state.current_ttl, 1);
    assert_eq!(do_traceroute(&mut state, 86, hop(router(2), 90)), Report::Reply { rtt: 4 });
    assert_eq!(state.current_ttl, 2);
    assert_eq!(state.named, Vec::new());
    assert_eq!(
        do_traceroute(&mut state, 90, hop(router(1), 95)),
        Report::ReplyWithAddress { addr: router(1), rtt: 5 }
    );
}

#[test]
fn a_responder_that_answers_again_after_another_is_not_named_again() {
    let mut state = RunState::new(&config(64, 3, 3, 1));
    let mut reports = Vec::new();
    reports.push(do_traceroute(&mut state, 0, hop(router(1), 1)));
    reports.push(do_traceroute(&mut state, 0, hop(router(2), 2)));
    reports.push(do_traceroute(&mut state, 0, hop(router(1), 3)));
    assert_eq!(
        reports,
        vec![
            Report::ReplyWithAddress { addr: router(1), rtt: 1 },
            Report::ReplyWithAddress { addr: router(2), rtt: 2 },
            Report::Reply { rtt: 3 },
        ]
    );
}

#[test]
fn no_hop_names_a_responder_twice() {
    let mut state = RunState::new(&config(6, 255, 1, 1));
    let mut named_in_hop: Vec<IpAddress> = Vec::new();
    let mut ttl = 0;
    while let Some(next) = state.next_probe() {
        if next.ttl != ttl {
            ttl = next.ttl;
            named_in_hop.clear();
        }
        let responder = router((next.seq % 7) as u8);
        let result = if next.seq % 5 == 0 { timeout() } else { hop(responder, 9) };
        match do_traceroute(&mut state, 0, result) {
            Report::ReplyWithAddress { addr, .. } => {
                assert_eq!(addr, responder);
                assert!(!named_in_hop.contains(&addr));
                named_in_hop.push(addr);
            },
            Report::Reply { .. } => assert!(named_in_hop.contains(&responder)),
            Report::Timeout => assert_eq!(next.seq % 5, 0),
            Report::Nothing => panic!("every outcome here is a reply or a timeout"),
        }
    }
    assert_eq!(ttl, 5);
}

#[test]
fn round_trip_is_measured_from_the_probe_that_was_answered() {
    let mut state = RunState::new(&config(64, 3, 3, 1));
    assert_eq!(
        do_traceroute(&mut state, 1_000, hop(router(1), 1_000 + 12 * MILLI)),
        Report::ReplyWithAddress { addr: router(1), rtt: 12 * MILLI }
    );
    assert_eq!(
        do_traceroute(&mut state, 50 * MILLI, hop(router(1), 53 * MILLI)),
        Report::Reply { rtt: 3 * MILLI }
    );
    assert_eq!(
        do_traceroute(&mut state, 60 * MILLI, hop(router(1), 59 * MILLI)),
        Report::Reply { rtt: 0 }
    );
}

#[test]
fn anomalies_use_up_a_try_and_report_nothing() {
    let mut state = RunState::new(&config(64, 2, 3, 1));
    assert_eq!(do_traceroute(&mut state, 0, anomaly()), Report::Nothing);
    assert_eq!(state.next_probe(), probe(1, 1, false));
    assert_eq!(do_traceroute(&mut state, 0, anomaly()), Report::Nothing);
    assert_eq!(state.next_probe(), probe(2, 2, true));
}

#[test]
fn a_finished_run_takes_nothing_more() {
    let mut state = RunState::new(&config(2, 1, 1, 1));
    do_traceroute(&mut state, 0, timeout());
    assert!(state.done);
    let finished = RunState {
        tries: 1,
        hops: 2,
        first_hop_ttl: 1,
        current_ttl: 2,
        current_seq: 1,
        tries_done: 0,
        destination_found: false,
        done: true,
        named: Vec::new(),
    };
    assert_eq!(state, finished);
    assert_eq!(do_traceroute(&mut state, 0, found(destination(), 5)), Report::Nothing);
    assert_eq!(state, finished);
    assert_eq!(do_traceroute(&mut state, 0, timeout()), Report::Nothing);
    assert_eq!(state, finished);
    assert_eq!(state.next_probe(), None);
}

#[test]
fn a_parsed_configuration_starts_a_run() {
    let parsed = parse_config(Arguments::with_defaults("example.org".to_string()));
    let config = match parsed {
        Ok(config) => config,
        Err(_) => panic!("the defaults were refused"),
    };
    let state = RunState::new(&config);
    assert_eq!(state.tries, 3);
    assert_eq!(state.hops, 64);
    assert_eq!(state.first_hop_ttl, 1);
    assert_eq!(state.next_probe(), probe(0, 1, true));
}
