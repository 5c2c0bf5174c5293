use traceroute_rust::args::{
    parse_config, parse_count, parse_method, parse_number, parse_port, Arguments, Config,
    ConfigError, Method,
};

fn arguments(
    max_hops: &str,
    method: &str,
    tries: &str,
    wait_secs: &str,
    port: &str,
    first_hop: &str,
) -> Arguments {
    Arguments {
        host: "example.org".to_string(),
        max_hops: max_hops.to_string(),
        method: method.to_string(),
        tries: tries.to_string(),
        wait_secs: wait_secs.to_string(),
        port: port.to_string(),
        first_hop: first_hop.to_string(),
        resolve_hostnames: true,
    }
}

fn refused(arguments: Arguments) -> ConfigError {
    match parse_config(arguments) {
        Ok(_) => panic!("the arguments were accepted"),
        Err(error) => error,
    }
}

#[test]
fn defaults_give_the_default_configuration() {
    let parsed = parse_config(Arguments::with_defaults("example.org".to_string()));
    let config = match parsed {
        Ok(config) => config,
        Err(error) => panic!("the defaults were refused: {:?}", error),
    };
    assert_eq!(config.host, "example.org");
    assert_eq!(config.hops, 64);
    assert_eq!(config.method, Method::ICMP);
    assert_eq!(config.tries, 3);
    assert_eq!(config.wait_secs, 3);
    assert_eq!(config.port, 33434);
    assert_eq!(config.first_hop_ttl, 1);
    assert!(!config.resolve_hostnames);
    assert!(config.is_well_formed());
}

#[test]
fn a_configuration_needs_every_limit_to_be_at_least_one() {
    let build = |hops: u8, tries: u8, wait_secs: u8, first_hop_ttl: u8| Config {
        host: String::new(),
        hops: hops,
        method: Method::UDP,
        tries: tries,
        wait_secs: wait_secs,
        port: 0,
        first_hop_ttl: first_hop_ttl,
        resolve_hostnames: false,
    };
    assert!(build(1, 1, 1, 1).is_well_formed());
    assert!(build(255, 255, 255, 255).is_well_formed());
    assert!(!build(0, 1, 1, 1).is_well_formed());
    assert!(!build(1, 0, 1, 1).is_well_formed());
    assert!(!build(1, 1, 0, 1).is_well_formed());
    assert!(!build(1, 1, 1, 0).is_well_formed());
}

#[test]
fn every_argument_is_carried_over() {
    let parsed = parse_config(arguments("255", "tcp", "1", "+7", "0", "009"));
    let config = match parsed {
        Ok(config) => config,
        Err(error) => panic!("the arguments were refused: {:?}", error),
    };
    assert_eq!(config.host, "example.org");
    assert_eq!(config.hops, 255);
    assert_eq!(config.method, Method::TCP);
    assert_eq!(config.tries, 1);
    assert_eq!(config.wait_secs, 7);
    assert_eq!(config.port, 0);
    assert_eq!(config.first_hop_ttl, 9);
    assert!(config.resolve_hostnames);
}

#[test]
fn an_unknown_method_is_refused() {
    assert_eq!(refused(arguments("64", "sctp", "3", "3", "33434", "1")), ConfigError::Method);
    assert_eq!(refused(arguments("64", "ICMP", "3", "3", "33434", "1")), ConfigError::Method);
    assert_eq!(refused(arguments("64", "", "3", "3", "33434", "1")), ConfigError::Method);
    assert_eq!(refused(arguments("64", "icmp ", "3", "3", "33434", "1")), ConfigError::Method);
}

#[test]
fn a_bad_hop_ceiling_is_refused() {
    assert_eq!(refused(arguments("0", "icmp", "3", "3", "33434", "1")), ConfigError::MaxHops);
    assert_eq!(refused(arguments("256", "icmp", "3", "3", "33434", "1")), ConfigError::MaxHops);
    assert_eq!(refused(arguments("", "icmp", "3", "3", "33434", "1")), ConfigError::MaxHops);
    assert_eq!(refused(arguments("-1", "icmp", "3", "3", "33434", "1")), ConfigError::MaxHops);
}

#[test]
fn a_bad_number_of_tries_is_refused() {
    assert_eq!(refused(arguments("64", "udp", "0", "3", "33434", "1")), ConfigError::Tries);
    assert_eq!(refused(arguments("64", "udp", "three", "3", "33434", "1")), ConfigError::Tries);
}

#[test]
fn a_bad_wait_is_refused() {
    assert_eq!(refused(arguments("64", "udp", "3", "0", "33434", "1")), ConfigError::WaitSecs);
    assert_eq!(refused(arguments("64", "udp", "3", "1.5", "33434", "1")), ConfigError::WaitSecs);
}

#[test]
fn a_bad_port_is_refused() {
    assert_eq!(refused(arguments("64", "udp", "3", "3", "65536", "1")), ConfigError::Port);
    assert_eq!(refused(arguments("64", "udp", "3", "3", "http", "1")), ConfigError::Port);
}

#[test]
fn a_bad_first_hop_is_refused() {
    assert_eq!(refused(arguments("64", "udp", "3", "3", "33434", "0")), ConfigError::FirstHop);
    assert_eq!(refused(arguments("64", "udp", "3", "3", "33434", "300")), ConfigError::FirstHop);
}

#[test]
fn the_first_refused_argument_is_reported() {
    assert_eq!(refused(arguments("0", "nope", "0", "0", "x", "0")), ConfigError::Method);
    assert_eq!(refused(arguments("0", "icmp", "0", "0", "x", "0")), ConfigError::MaxHops);
    assert_eq!(refused(arguments("1", "icmp", "0", "0", "x", "0")), ConfigError::Tries);
    assert_eq!(refused(arguments("1", "icmp", "1", "0", "x", "0")), ConfigError::WaitSecs);
    assert_eq!(refused(arguments("1", "icmp", "1", "1", "x", "0")), ConfigError::Port);
    assert_eq!(refused(arguments("1", "icmp", "1", "1", "1", "0")), ConfigError::FirstHop);
}

#[test]
fn methods_by_name() {
    assert_eq!(parse_method(&"icmp".to_string()), Some(Method::ICMP));
    assert_eq!(parse_method(&"udp".to_string()), Some(Method::UDP));
    assert_eq!(parse_method(&"tcp".to_string()), Some(Method::TCP));
    assert_eq!(parse_method(&"tcpx".to_string()), None);
    assert_eq!(parse_method(&"Udp".to_string()), None);
}

#[test]
fn numerals() {
    assert_eq!(parse_number("0", 255), Some(0));
    assert_eq!(parse_number("7", 255), Some(7));
    assert_eq!(parse_number("255", 255), Some(255));
    assert_eq!(parse_number("256", 255), None);
    assert_eq!(parse_number("+12", 255), Some(12));
    assert_eq!(parse_number("0012", 255), Some(12));
    assert_eq!(parse_number("+0012", 255), Some(12));
    assert_eq!(parse_number("00000000000000000000000000000000000255", 255), Some(255));
    assert_eq!(parse_number("99999999999999999999999999999999999999", 255), None);
    assert_eq!(parse_number("4294967295", 4294967295), Some(4294967295));
    assert_eq!(parse_number("4294967296", 4294967295), None);
    assert_eq!(parse_number("65535", 65535), Some(65535));
    assert_eq!(parse_number("65536", 65535), None);
}

#[test]
fn texts_that_are_no_numerals() {
    assert_eq!(parse_number("", 255), None);
    assert_eq!(parse_number("+", 255), None);
    assert_eq!(parse_number("++1", 255), None);
    assert_eq!(parse_number("-1", 255), None);
    assert_eq!(parse_number("1+", 255), None);
    assert_eq!(parse_number(" 1", 255), None);
    assert_eq!(parse_number("1 ", 255), None);
    assert_eq!(parse_number("1a", 255), None);
    assert_eq!(parse_number("0x10", 255), None);
    assert_eq!(parse_number("1.0", 255), None);
    assert_eq!(parse_number("\u{0661}", 255), None);
    assert_eq!(parse_number("1\u{00e9}", 255), None);
    assert_eq!(parse_number("+\u{ff11}", 255), None);
}

#[test]
fn counts_and_ports() {
    assert_eq!(parse_count(&"1".to_string()), Some(1));
    assert_eq!(parse_count(&"255".to_string()), Some(255));
    assert_eq!(parse_count(&"0".to_string()), None);
    assert_eq!(parse_count(&"256".to_string()), None);
    assert_eq!(parse_port(&"0".to_string()), Some(0));
    assert_eq!(parse_port(&"65535".to_string()), Some(65535));
    assert_eq!(parse_port(&"65536".to_string()), None);
    assert_eq!(parse_port(&"".to_string()), None);
}
