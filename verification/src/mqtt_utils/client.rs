//! The settings of a broker client, worked out from its configuration.
//! The client itself, its TLS connector and its network connection are
//! made from these settings by the program around the library.

use vstd::prelude::*;

use crate::config::{BrokerConfig, TlsConfig};
use crate::mqtt_utils::message::LastWill;
use crate::text::{chars_of, split_chars, split_on, string_of_chars};

verus! {

/// The port used when an address names none or names an invalid one.
pub const DEFAULT_PORT: u16 = 1883;

/// Everything a broker client is made from.
#[derive(Debug, Clone, PartialEq, Eq)]
pub struct ClientSettings {
    /// Client ID
    pub client_id: String,
    /// Broker host
    pub host: String,
    /// Broker port
    pub port: u16,
    /// Keep-alive interval in seconds
    pub keep_alive_secs: u16,
    /// Whether to use a clean session
    pub clean_session: bool,
    /// Maximum number of in-flight messages
    pub max_inflight: u16,
    /// Username and password, when both are configured
    pub credentials: Option<(String, String)>,
    /// Last will of the connection
    pub last_will: Option<LastWill>,
    /// TLS settings
    pub tls: Option<TlsConfig>,
}

/// The value of a decimal digit character.
pub open spec fn digit_value(c: char) -> int {
    c as int - '0' as int
}

/// Whether `c` is a decimal digit.
pub open spec fn is_digit(c: char) -> bool {
    '0' <= c <= '9'
}

/// The number written by the decimal digits `s`.
pub open spec fn decimal_value(s: Seq<char>) -> int
    decreases s.len(),
{
    if s.len() == 0 {
        0
    } else {
        decimal_value(s.drop_last()) * 10 + digit_value(s.last())
    }
}

/// A port number as `u16::from_str` reads it: an optional `+` then one or
/// more decimal digits, of value at most 65535.
pub open spec fn spec_parse_port(s: Seq<char>) -> Option<u16> {
    let digits = port_digits(s);
    if digits.len() > 0 && (forall|i: int| 0 <= i < digits.len() ==> is_digit(#[trigger] digits[i]))
        && decimal_value(digits) <= u16::MAX {
        Some(decimal_value(digits) as u16)
    } else {
        None
    }
}

/// Host and port of a broker address, split at `:`. An address of exactly
/// two pieces is `host:port`, the port falling back to 1883 when it does
/// not read as a number; any other address is all host, on port 1883.
pub open spec fn spec_broker_addr(addr: Seq<char>) -> (Seq<char>, u16) {
    let parts = split_on(addr, ':');
    if parts.len() == 2 {
        let port = match spec_parse_port(parts[1]) {
            Some(p) => p,
            None => DEFAULT_PORT,
        };
        (parts[0], port)
    } else {
        (addr, DEFAULT_PORT)
    }
}

proof fn lemma_decimal_value_grows(s: Seq<char>, k: int)
    requires
        0 <= k <= s.len(),
        forall|i: int| 0 <= i < s.len() ==> is_digit(#[trigger] s[i]),
    ensures
        decimal_value(s.take(k)) <= decimal_value(s),
    decreases s.len() - k,
{
    if k < s.len() {
        lemma_decimal_value_grows(s, k + 1);
        assert(s.take(k + 1).drop_last() =~= s.take(k));
        lemma_decimal_value_nonneg(s.take(k));
    } else {
        assert(s.take(k) =~= s);
    }
}

proof fn lemma_decimal_value_nonneg(s: Seq<char>)
    requires
        forall|i: int| 0 <= i < s.len() ==> is_digit(#[trigger] s[i]),
    ensures
        decimal_value(s) >= 0,
    decreases s.len(),
{
    if s.len() > 0 {
        lemma_decimal_value_nonneg(s.drop_last());
    }
}

/// The digits part of a port string: without its leading `+`, if any.
pub open spec fn port_digits(s: Seq<char>) -> Seq<char> {
    if s.len() > 0 && s[0] == '+' {
        s.drop_first()
    } else {
        s
    }
}

proof fn lemma_port_not_digits(s: Seq<char>, j: int)
    requires
        0 <= j < port_digits(s).len(),
        !is_digit(port_digits(s)[j]),
    ensures
        spec_parse_port(s) is None,
{
}

/// A port number as `u16::from_str` reads it (see [`spec_parse_port`]).
pub fn parse_port(s: &Vec<char>) -> (r: Option<u16>)
    ensures
        r == spec_parse_port(s@),
{
    let mut first: usize = 0;
    if s.len() > 0 && s[0] == '+' {
        first = 1;
    }
    let ghost digits = s@.skip(first as int);
    assert(digits =~= (if s@.len() > 0 && s@[0] == '+' {
        s@.drop_first()
    } else {
        s@
    }));
    if first == s.len() {
        return None;
    }
    let mut i = first;
    let mut value: u32 = 0;
    assert(s@.subrange(first as int, first as int) =~= Seq::<char>::empty());
    while i < s.len()
        invariant
            first < s.len(),
            first <= i <= s.len(),
            digits == s@.skip(first as int),
            digits == port_digits(s@),
            forall|j: int| first <= j < i ==> is_digit(#[trigger] s@[j]),
            value as int == decimal_value(s@.subrange(first as int, i as int)),
            value <= u16::MAX,
        decreases s.len() - i,
    {
        let c = s[i];
        if !('0' <= c && c <= '9') {
            assert(digits[i - first] == c);
            proof {
                lemma_port_not_digits(s@, i - first);
            }
            return None;
        }
        assert(s@.subrange(first as int, i + 1).drop_last() =~= s@.subrange(first as int, i as int));
        let d = (c as u32) - ('0' as u32);
        assert(d as int == digit_value(c));
        value = value * 10 + d;
        assert(value as int == decimal_value(s@.subrange(first as int, i + 1)));
        if value > 65535 {
            proof {
                if forall|j: int| 0 <= j < digits.len() ==> is_digit(#[trigger] digits[j]) {
                    lemma_decimal_value_grows(digits, i + 1 - first);
                    assert(digits.take(i + 1 - first) =~= s@.subrange(first as int, i + 1));
                    assert(decimal_value(digits) > u16::MAX);
                } else {
                    let j = choose|j: int| 0 <= j < digits.len() && !is_digit(#[trigger] digits[j]);
                    lemma_port_not_digits(s@, j);
                }
            }
            return None;
        }
        i = i + 1;
    }
    assert(s@.subrange(first as int, i as int) =~= digits);
    Some(value as u16)
}

/// A copy of an optional string.
fn copy_opt_string(o: &Option<String>) -> (r: Option<String>)
    ensures
        r == *o,
{
    match o {
        Some(s) => Some(s.clone()),
        None => None,
    }
}

/// A copy of optional TLS settings.
fn copy_tls(t: &Option<TlsConfig>) -> (r: Option<TlsConfig>)
    ensures
        r == *t,
{
    match t {
        Some(t) => Some(
            TlsConfig {
                ca_file: copy_opt_string(&t.ca_file),
                client_cert: copy_opt_string(&t.client_cert),
                client_password: copy_opt_string(&t.client_password),
                danger_accept_invalid_certs: t.danger_accept_invalid_certs,
            },
        ),
        None => None,
    }
}

/// Host and port of a broker address (see [`spec_broker_addr`]).
pub fn parse_broker_addr(addr: &str) -> (r: (String, u16))
    ensures
        r.0@ == spec_broker_addr(addr@).0,
        r.1 == spec_broker_addr(addr@).1,
{
    let parts = split_chars(&chars_of(addr), ':');
    if parts.len() == 2 {
        let port = match parse_port(&parts[1]) {
            Some(p) => p,
            None => DEFAULT_PORT,
        };
        (string_of_chars(&parts[0]), port)
    } else {
        (addr.to_owned(), DEFAULT_PORT)
    }
}

/// The settings of a client for the broker configuration `config` with
/// the last will `last_will`: the address split into host and port, the
/// credentials kept only when both username and password are given, the
/// other settings as configured.
pub fn client_settings(config: &BrokerConfig, last_will: Option<LastWill>) -> (r: ClientSettings)
    ensures
        r.client_id@ == config.client_id@,
        r.host@ == spec_broker_addr(config.addr@).0,
        r.port == spec_broker_addr(config.addr@).1,
        r.keep_alive_secs == config.keep_alive_secs,
        r.clean_session == config.clean_session,
        r.max_inflight == config.max_inflight,
        match (config.username, config.password) {
            (Some(u), Some(p)) => r.credentials matches Some((ru, rp)) && ru@ == u@ && rp@ == p@,
            _ => r.credentials is None,
        },
        r.last_will == last_will,
        r.tls == config.tls,
{
    let (host, port) = parse_broker_addr(config.addr.as_str());
    let credentials = match (&config.username, &config.password) {
        (Some(u), Some(p)) => Some((u.clone(), p.clone())),
        _ => None,
    };
    ClientSettings {
        client_id: config.client_id.clone(),
        host,
        port,
        keep_alive_secs: config.keep_alive_secs,
        clean_session: config.clean_session,
        max_inflight: config.max_inflight,
        credentials,
        last_will,
        tls: copy_tls(&config.tls),
    }
}

} // verus!
