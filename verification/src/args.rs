//! The configuration of a run, and how it is read from the text of the
//! command line's arguments.

use vstd::prelude::*;
use vstd::string::StringSliceAdditionalSpecFns;

verus! {

/// The probe method.
#[derive(Clone, Copy, Debug, PartialEq, Eq, Structural)]
pub enum Method {
    ICMP,
    UDP,
    TCP,
}

/// The configuration of a run.
pub struct Config {
    pub host: String,
    pub hops: u8,
    pub method: Method,
    pub tries: u8,
    pub wait_secs: u8,
    pub port: u16,
    pub first_hop_ttl: u8,
    pub resolve_hostnames: bool,
}

impl Config {
    /// The hop ceiling, the tries per hop, the wait and the first hop are all
    /// at least one.
    pub open spec fn wf(&self) -> bool {
        &&& self.hops >= 1
        &&& self.tries >= 1
        &&& self.wait_secs >= 1
        &&& self.first_hop_ttl >= 1
    }

    /// Whether the configuration is well-formed.
    pub fn is_well_formed(&self) -> (ok: bool)
        ensures
            ok == self.wf(),
    {
        self.hops >= 1 && self.tries >= 1 && self.wait_secs >= 1 && self.first_hop_ttl >= 1
    }
}

/// The arguments as the command line gives them: each value still text.
pub struct Arguments {
    pub host: String,
    pub max_hops: String,
    pub method: String,
    pub tries: String,
    pub wait_secs: String,
    pub port: String,
    pub first_hop: String,
    pub resolve_hostnames: bool,
}

/// The argument that was refused.
#[derive(Clone, Copy, Debug, PartialEq, Eq, Structural)]
pub enum ConfigError {
    Method,
    MaxHops,
    Tries,
    WaitSecs,
    Port,
    FirstHop,
}

/// Whether `c` is a decimal digit.
pub open spec fn is_digit(c: char) -> bool {
    '0' <= c <= '9'
}

/// The number that a decimal digit stands for.
pub open spec fn digit_value(c: char) -> nat {
    if is_digit(c) {
        (c as u32 - '0' as u32) as nat
    } else {
        0
    }
}

/// The number that a sequence of decimal digits stands for.
pub open spec fn digits_value(digits: Seq<char>) -> nat
    decreases digits.len(),
{
    if digits.len() == 0 {
        0
    } else {
        digits_value(digits.drop_last()) * 10 + digit_value(digits.last())
    }
}

/// Whether every one of `digits` is a decimal digit.
pub open spec fn all_digits(digits: Seq<char>) -> bool {
    forall|i: int| 0 <= i < digits.len() ==> is_digit(#[trigger] digits[i])
}

/// The digits of a numeral: the text without one leading plus sign.
pub open spec fn numeral_digits(text: Seq<char>) -> Seq<char> {
    if text.len() > 0 && text[0] == '+' {
        text.drop_first()
    } else {
        text
    }
}

/// The number that `text` stands for, where it is a numeral no larger than
/// `max`: at least one decimal digit and nothing else, but for one plus sign
/// that may stand in front.
pub open spec fn numeral_value(text: Seq<char>, max: nat) -> Option<nat> {
    let digits = numeral_digits(text);
    if digits.len() > 0 && all_digits(digits) && digits_value(digits) <= max {
        Some(digits_value(digits))
    } else {
        None
    }
}

/// More digits never make a smaller number.
pub proof fn lemma_digits_value_grows(digits: Seq<char>, n: int)
    requires
        0 <= n <= digits.len(),
    ensures
        digits_value(digits.take(n)) <= digits_value(digits),
    decreases digits.len() - n,
{
    if n == digits.len() {
        assert(digits.take(n) =~= digits);
    } else {
        lemma_digits_value_grows(digits.drop_last(), n);
        assert(digits.drop_last().take(n) =~= digits.take(n));
    }
}

/// An ASCII character is a digit exactly when its byte is one, and the byte
/// gives the digit's value.
proof fn lemma_ascii_digit(c: char, b: u8)
    requires
        b == c as u8,
        (c as nat) < 128,
    ensures
        is_digit(c) <==> 0x30 <= b <= 0x39,
        is_digit(c) ==> digit_value(c) == b - 0x30,
{
    assert(c as u32 == b as u32);
}

/// Reads a numeral no larger than `max`.
pub fn parse_number(text: &str, max: u32) -> (value: Option<u32>)
    ensures
        match value {
            Some(v) => numeral_value(text@, max as nat) == Some(v as nat),
            None => numeral_value(text@, max as nat) is None,
        },
{
    let ghost digits = numeral_digits(text@);
    if !text.is_ascii() {
        proof {
            let i = choose|i: int|
                0 <= i < text@.len() && !('\0' <= #[trigger] text@[i] <= '\u{7f}');
            if i == 0 {
                assert(text@[0] != '+');
                assert(!is_digit(digits[0]));
            } else if text@[0] == '+' {
                assert(!is_digit(digits[i - 1]));
            } else {
                assert(!is_digit(digits[i]));
            }
        }
        return None;
    }
    let bytes = text.as_bytes();
    proof {
        vstd::string::is_ascii_spec_bytes(text);
        vstd::utf8::is_ascii_chars_nat_bound(text@);
    }
    let n = bytes.len();
    assert(n == text@.len());
    assert(forall|k: int| 0 <= k < n ==> bytes@[k] == #[trigger] text@[k] as u8);
    let start: usize = if n > 0 && bytes[0] == 0x2B {
        1
    } else {
        0
    };
    assert(digits =~= text@.skip(start as int));
    if start == n {
        return None;
    }
    let mut i: usize = start;
    let mut acc: u32 = 0;
    assert(digits.take(0) =~= Seq::<char>::empty());
    while i < n
        invariant
            start <= i <= n,
            n == bytes@.len(),
            n == text@.len(),
            digits == numeral_digits(text@),
            digits =~= text@.skip(start as int),
            forall|k: int| 0 <= k < n ==> bytes@[k] == #[trigger] text@[k] as u8,
            forall|k: int| 0 <= k < n ==> (#[trigger] text@[k] as nat) < 128,
            all_digits(digits.take(i - start)),
            acc == digits_value(digits.take(i - start)),
            acc <= max,
        decreases n - i,
    {
        let b = bytes[i];
        let ghost c = text@[i as int];
        assert(c == digits[i - start]);
        assert(b == c as u8);
        proof {
            lemma_ascii_digit(c, b);
        }
        if b < 0x30 || b > 0x39 {
            assert(!is_digit(digits[i - start]));
            return None;
        }
        let d: u64 = (b - 0x30) as u64;
        let next: u64 = (acc as u64) * 10 + d;
        assert(digits.take(i + 1 - start).drop_last() =~= digits.take(i - start));
        assert(digits.take(i + 1 - start).last() == c);
        assert(next == digits_value(digits.take(i + 1 - start)));
        if next > max as u64 {
            proof {
                lemma_digits_value_grows(digits, i + 1 - start);
            }
            return None;
        }
        acc = next as u32;
        i += 1;
    }
    assert(digits.take(n - start) =~= digits);
    Some(acc)
}

/// The probe method that `text` names.
pub open spec fn method_of(text: Seq<char>) -> Option<Method> {
    if text == "icmp"@ {
        Some(Method::ICMP)
    } else if text == "udp"@ {
        Some(Method::UDP)
    } else if text == "tcp"@ {
        Some(Method::TCP)
    } else {
        None
    }
}

/// The count between 1 and 255 that `text` stands for.
pub open spec fn count_of(text: Seq<char>) -> Option<u8> {
    match numeral_value(text, 255) {
        Some(v) => if v >= 1 {
            Some(v as u8)
        } else {
            None
        },
        None => None,
    }
}

/// The port between 0 and 65535 that `text` stands for.
pub open spec fn port_of(text: Seq<char>) -> Option<u16> {
    match numeral_value(text, 65535) {
        Some(v) => Some(v as u16),
        None => None,
    }
}

/// The configuration that the arguments stand for, or the first argument
/// that is refused: the method is looked at first, then the hop ceiling, the
/// tries, the wait, the port and the first hop.
pub open spec fn parsed_config(arguments: Arguments) -> Result<Config, ConfigError> {
    if method_of(arguments.method@) is None {
        Err(ConfigError::Method)
    } else if count_of(arguments.max_hops@) is None {
        Err(ConfigError::MaxHops)
    } else if count_of(arguments.tries@) is None {
        Err(ConfigError::Tries)
    } else if count_of(arguments.wait_secs@) is None {
        Err(ConfigError::WaitSecs)
    } else if port_of(arguments.port@) is None {
        Err(ConfigError::Port)
    } else if count_of(arguments.first_hop@) is None {
        Err(ConfigError::FirstHop)
    } else {
        Ok(
            Config {
                host: arguments.host,
                hops: count_of(arguments.max_hops@).unwrap(),
                method: method_of(arguments.method@).unwrap(),
                tries: count_of(arguments.tries@).unwrap(),
                wait_secs: count_of(arguments.wait_secs@).unwrap(),
                port: port_of(arguments.port@).unwrap(),
                first_hop_ttl: count_of(arguments.first_hop@).unwrap(),
                resolve_hostnames: arguments.resolve_hostnames,
            },
        )
    }
}

/// Reads the name of a probe method.
pub fn parse_method(text: &String) -> (method: Option<Method>)
    ensures
        method == method_of(text@),
{
    if *text == "icmp".to_owned() {
        Some(Method::ICMP)
    } else if *text == "udp".to_owned() {
        Some(Method::UDP)
    } else if *text == "tcp".to_owned() {
        Some(Method::TCP)
    } else {
        None
    }
}

/// Reads a count between 1 and 255.
pub fn parse_count(text: &String) -> (count: Option<u8>)
    ensures
        count == count_of(text@),
{
    match parse_number(text.as_str(), 255) {
        Some(v) => if v >= 1 {
            Some(v as u8)
        } else {
            None
        },
        None => None,
    }
}

/// Reads a port.
pub fn parse_port(text: &String) -> (port: Option<u16>)
    ensures
        port == port_of(text@),
{
    match parse_number(text.as_str(), 65535) {
        Some(v) => Some(v as u16),
        None => None,
    }
}

/// Reads the configuration of a run from the arguments' text.
pub fn parse_config(arguments: Arguments) -> (parsed: Result<Config, ConfigError>)
    ensures
        parsed == parsed_config(arguments),
        parsed matches Ok(config) ==> config.wf(),
{
    let method = match parse_method(&arguments.method) {
        Some(method) => method,
        None => {
            return Err(ConfigError::Method);
        },
    };
    let hops = match parse_count(&arguments.max_hops) {
        Some(hops) => hops,
        None => {
            return Err(ConfigError::MaxHops);
        },
    };
    let tries = match parse_count(&arguments.tries) {
        Some(tries) => tries,
        None => {
            return Err(ConfigError::Tries);
        },
    };
    let wait_secs = match parse_count(&arguments.wait_secs) {
        Some(wait_secs) => wait_secs,
        None => {
            return Err(ConfigError::WaitSecs);
        },
    };
    let port = match parse_port(&arguments.port) {
        Some(port) => port,
        None => {
            return Err(ConfigError::Port);
        },
    };
    let first_hop_ttl = match parse_count(&arguments.first_hop) {
        Some(first_hop_ttl) => first_hop_ttl,
        None => {
            return Err(ConfigError::FirstHop);
        },
    };
    Ok(
        Config {
            host: arguments.host,
            hops: hops,
            method: method,
            tries: tries,
            wait_secs: wait_secs,
            port: port,
            first_hop_ttl: first_hop_ttl,
            resolve_hostnames: arguments.resolve_hostnames,
        },
    )
}

impl Arguments {
    /// The arguments for `host` with every option left at its default: at
    /// most 64 hops, ICMP probes, 3 tries per hop, 3 seconds of wait, port
    /// 33434, first hop 1, no reverse lookup of the responders.
    pub fn with_defaults(host: String) -> (arguments: Arguments)
        ensures
            arguments.host == host,
            arguments.max_hops@ == "64"@,
            arguments.method@ == "icmp"@,
            arguments.tries@ == "3"@,
            arguments.wait_secs@ == "3"@,
            arguments.port@ == "33434"@,
            arguments.first_hop@ == "1"@,
            !arguments.resolve_hostnames,
    {
        Arguments {
            host: host,
            max_hops: "64".to_owned(),
            method: "icmp".to_owned(),
            tries: "3".to_owned(),
            wait_secs: "3".to_owned(),
            port: "33434".to_owned(),
            first_hop: "1".to_owned(),
            resolve_hostnames: false,
        }
    }
}

} // verus!
