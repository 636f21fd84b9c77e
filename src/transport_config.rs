//! Which transport the server runs on, and with which settings.

use vstd::prelude::*;
use vstd::string::StringExecFns;
use vstd::string::StrSliceExecFns;
use crate::text::{decimal, decimal_string, lower_of, lowercase, str_equals};

verus! {

/// Port of the raw-socket transport when none is configured.
pub const DEFAULT_TCP_PORT: u16 = 3000;

/// Port of the HTTP transport when none is configured.
pub const DEFAULT_HTTP_PORT: u16 = 8080;

/// Settings of the raw-socket transport.
#[derive(Debug, Clone)]
pub struct TcpConfig {
    pub port: u16,
    pub host: String,
}

/// Settings of the HTTP transport.
#[derive(Debug, Clone)]
pub struct HttpConfig {
    pub port: u16,
    pub host: String,
    /// Path of the JSON-RPC endpoint.
    pub rpc_path: String,
    /// Whether cross-origin headers are attached to every route.
    pub enable_cors: bool,
}

/// The one transport that a process serves on.
#[derive(Debug, Clone)]
pub enum TransportConfig {
    /// The process's standard input and output.
    Stdio,
    /// A listening socket, one session per connection.
    Tcp(TcpConfig),
    /// JSON-RPC over HTTP POST.
    Http(HttpConfig),
}

/// Host bound when none is configured.
pub fn default_host() -> (r: String)
    ensures
        r@ == "127.0.0.1"@,
{
    String::from_str("127.0.0.1")
}

/// JSON-RPC endpoint path when none is configured.
pub fn default_rpc_path() -> (r: String)
    ensures
        r@ == "/mcp"@,
{
    String::from_str("/mcp")
}

/// Whether cross-origin headers are on when nothing is configured.
pub fn default_cors() -> (r: bool)
    ensures
        r,
{
    true
}

impl Default for TcpConfig {
    fn default() -> (r: TcpConfig)
        ensures
            r.port == DEFAULT_TCP_PORT,
            r.host@ == "127.0.0.1"@,
    {
        TcpConfig { port: DEFAULT_TCP_PORT, host: default_host() }
    }
}

impl Default for HttpConfig {
    fn default() -> (r: HttpConfig)
        ensures
            r.port == DEFAULT_HTTP_PORT,
            r.host@ == "127.0.0.1"@,
            r.rpc_path@ == "/mcp"@,
            r.enable_cors,
    {
        HttpConfig {
            port: DEFAULT_HTTP_PORT,
            host: default_host(),
            rpc_path: default_rpc_path(),
            enable_cors: default_cors(),
        }
    }
}

impl Default for TransportConfig {
    fn default() -> (r: TransportConfig)
        ensures
            r is Stdio,
    {
        TransportConfig::Stdio
    }
}

/// The environment variables that select and tune the transport, as read
/// from the process environment (`None`: not set).
#[derive(Debug, Clone)]
pub struct TransportEnv {
    pub transport: Option<String>,
    pub tcp_host: Option<String>,
    pub tcp_port: Option<String>,
    pub http_host: Option<String>,
    pub http_port: Option<String>,
    pub http_path: Option<String>,
    pub http_cors: Option<String>,
}

/// Value of a decimal digit character.
pub open spec fn digit_value(c: char) -> nat {
    ((c as int) - ('0' as int)) as nat
}

pub open spec fn is_digit(c: char) -> bool {
    '0' <= c && c <= '9'
}

/// Value of a string of decimal digits.
pub open spec fn digits_value(s: Seq<char>) -> nat
    decreases s.len(),
{
    if s.len() == 0 {
        0
    } else {
        digits_value(s.drop_last()) * 10 + digit_value(s.last())
    }
}

/// The port that a string names: decimal digits, an optional leading `+`,
/// with a value that fits in sixteen bits.
pub open spec fn all_digits(d: Seq<char>) -> bool {
    forall|i: int| 0 <= i < d.len() ==> is_digit(#[trigger] d[i])
}

/// The digits of a port number: the string without its leading `+`, if any.
pub open spec fn unsigned_part(s: Seq<char>) -> Seq<char> {
    if s.len() > 0 && s[0] == '+' { s.drop_first() } else { s }
}

pub open spec fn port_of(s: Seq<char>) -> Option<u16> {
    let d = unsigned_part(s);
    if d.len() > 0 && all_digits(d) && digits_value(d) <= u16::MAX {
        Some(digits_value(d) as u16)
    } else {
        None
    }
}

/// Reads a port number as `str::parse::<u16>` does.
pub fn parse_port(s: &str) -> (r: Option<u16>)
    ensures
        r == port_of(s@),
{
    let n = s.unicode_len();
    let mut start: usize = 0;
    if n > 0 && s.get_char(0) == '+' {
        start = 1;
    }
    let ghost d = unsigned_part(s@);
    assert(d =~= s@.subrange(start as int, n as int));
    if start == n {
        return None;
    }
    let mut value: u32 = 0;
    let mut i: usize = start;
    while i < n
        invariant
            n == s@.len(),
            start <= i <= n,
            d == s@.subrange(start as int, n as int),
            d == unsigned_part(s@),
            value <= u16::MAX,
            value == digits_value(s@.subrange(start as int, i as int)),
            forall|j: int| start <= j < i ==> is_digit(#[trigger] s@[j]),
        decreases n - i,
    {
        let c = s.get_char(i);
        proof {
            assert(s@.subrange(start as int, i as int + 1).drop_last() =~= s@.subrange(start as int, i as int));
        }
        if !('0' <= c && c <= '9') {
            proof {
                let k = (i - start) as int;
                assert(d[k] == s@[i as int]);
                assert(!is_digit(d[k]));
                assert(!all_digits(d));
            }
            return None;
        }
        let v = value * 10 + ((c as u32) - ('0' as u32));
        if v > 65535 {
            proof {
                let k = (i - start + 1) as int;
                let pre = s@.subrange(start as int, i as int + 1);
                assert(pre.last() == c);
                assert(digits_value(pre) == v);
                assert(d.subrange(0, k) =~= pre);
                assert forall|j: int| 0 <= j < d.len() implies is_digit(#[trigger] d[j]) || j >= k by {
                    if j < k {
                        assert(d[j] == s@[start + j]);
                    }
                }
                lemma_digits_grow(d, k);
                assert(!all_digits(d) || digits_value(d) > u16::MAX);
            }
            return None;
        }
        value = v;
        i = i + 1;
    }
    assert(s@.subrange(start as int, n as int) =~= d);
    assert forall|j: int| 0 <= j < d.len() implies is_digit(#[trigger] d[j]) by {
        assert(d[j] == s@[start + j]);
    }
    assert(all_digits(d));
    Some(value as u16)
}

/// A digit string is worth at least each of its prefixes.
proof fn lemma_digits_grow(s: Seq<char>, k: int)
    requires
        0 <= k <= s.len(),
        forall|i: int| 0 <= i < s.len() ==> is_digit(#[trigger] s[i]) || i >= k,
    ensures
        (forall|i: int| 0 <= i < s.len() ==> is_digit(#[trigger] s[i])) ==> digits_value(s.subrange(0, k)) <= digits_value(s),
    decreases s.len(),
{
    if k < s.len() {
        if forall|i: int| 0 <= i < s.len() ==> is_digit(#[trigger] s[i]) {
            let t = s.drop_last();
            assert forall|i: int| 0 <= i < t.len() implies is_digit(#[trigger] t[i]) || i >= k by {
                assert(t[i] == s[i]);
            }
            lemma_digits_grow(t, k);
            assert(t.subrange(0, k) =~= s.subrange(0, k));
            assert forall|i: int| 0 <= i < t.len() implies is_digit(#[trigger] t[i]) by {
                assert(t[i] == s[i]);
            }
        }
    } else {
        assert(s.subrange(0, k) =~= s);
    }
}

/// The value of an optional setting, or its default.
pub open spec fn setting_or(v: Option<String>, default: Seq<char>) -> Seq<char> {
    match v {
        Some(s) => s@,
        None => default,
    }
}

/// The port that an optional setting names, or `default` when it is unset
/// or names no port.
pub open spec fn port_setting(v: Option<String>, default: u16) -> u16 {
    match v {
        Some(s) => match port_of(s@) {
            Some(p) => p,
            None => default,
        },
        None => default,
    }
}

/// The cross-origin switch: on unless set to `false` (in any case) or `0`.
pub open spec fn cors_setting(v: Option<String>) -> bool {
    match v {
        Some(s) => lower_of(s@) != "false"@ && s@ != "0"@,
        None => true,
    }
}

/// Which transport a selector names.
#[derive(Debug, Clone, Copy, PartialEq, Eq, Structural)]
pub enum TransportKind {
    Stdio,
    Tcp,
    Http,
}

/// The transport that a lower-case selector word names: `tcp`, `http`, or
/// anything else for the standard streams.
pub open spec fn kind_of_word(w: Seq<char>) -> TransportKind {
    if w == "tcp"@ {
        TransportKind::Tcp
    } else if w == "http"@ {
        TransportKind::Http
    } else {
        TransportKind::Stdio
    }
}

/// The transport that the selector names, in any letter case; no selector
/// is the standard streams.
pub open spec fn selected_kind(v: Option<String>) -> TransportKind {
    match v {
        Some(s) => kind_of_word(lower_of(s@)),
        None => TransportKind::Stdio,
    }
}

/// The transport that a lower-case selector word names.
pub fn transport_kind(word: &str) -> (r: TransportKind)
    ensures
        r == kind_of_word(word@),
{
    proof {
        reveal_strlit("tcp");
        reveal_strlit("http");
    }
    if str_equals(word, "tcp") {
        TransportKind::Tcp
    } else if str_equals(word, "http") {
        TransportKind::Http
    } else {
        TransportKind::Stdio
    }
}

/// The cross-origin switch for a setting `value` whose lower-case form is
/// `lowered`: off for `false` and for `0`.
pub fn cors_enabled(value: &str, lowered: &str) -> (r: bool)
    ensures
        r == (lowered@ != "false"@ && value@ != "0"@),
{
    proof {
        reveal_strlit("false");
        reveal_strlit("0");
    }
    !str_equals(lowered, "false") && !str_equals(value, "0")
}

/// `c` is the transport that the environment `env` selects, with each
/// setting taken from its variable when set and from the default otherwise.
pub open spec fn env_selects(env: TransportEnv, c: TransportConfig) -> bool {
    &&& selected_kind(env.transport) == TransportKind::Stdio ==> c is Stdio
    &&& selected_kind(env.transport) == TransportKind::Tcp ==> c is Tcp
        && c->Tcp_0.port == port_setting(env.tcp_port, DEFAULT_TCP_PORT)
        && c->Tcp_0.host@ == setting_or(env.tcp_host, "127.0.0.1"@)
    &&& selected_kind(env.transport) == TransportKind::Http ==> c is Http
        && c->Http_0.port == port_setting(env.http_port, DEFAULT_HTTP_PORT)
        && c->Http_0.host@ == setting_or(env.http_host, "127.0.0.1"@)
        && c->Http_0.rpc_path@ == setting_or(env.http_path, "/mcp"@)
        && c->Http_0.enable_cors == cors_setting(env.http_cors)
}

fn setting_string(v: &Option<String>, default: String) -> (r: String)
    ensures
        r@ == setting_or(*v, default@),
{
    match v {
        Some(s) => s.clone(),
        None => default,
    }
}

fn port_setting_exec(v: &Option<String>, default: u16) -> (r: u16)
    ensures
        r == port_setting(*v, default),
{
    match v {
        Some(s) => match parse_port(s.as_str()) {
            Some(p) => p,
            None => default,
        },
        None => default,
    }
}

impl TransportConfig {
    /// The standard-streams transport.
    pub fn stdio() -> (r: TransportConfig)
        ensures
            r is Stdio,
    {
        TransportConfig::Stdio
    }

    /// The raw-socket transport on `host:port`.
    pub fn tcp(port: u16, host: &str) -> (r: TransportConfig)
        ensures
            r is Tcp,
            r->Tcp_0.port == port,
            r->Tcp_0.host@ == host@,
    {
        TransportConfig::Tcp(TcpConfig { port, host: String::from_str(host) })
    }

    /// The HTTP transport on `host:port`, with the default endpoint path and
    /// cross-origin headers on.
    pub fn http(port: u16, host: &str) -> (r: TransportConfig)
        ensures
            r is Http,
            r->Http_0.port == port,
            r->Http_0.host@ == host@,
            r->Http_0.rpc_path@ == "/mcp"@,
            r->Http_0.enable_cors,
    {
        TransportConfig::Http(HttpConfig {
            port,
            host: String::from_str(host),
            rpc_path: default_rpc_path(),
            enable_cors: default_cors(),
        })
    }

    /// The transport that the environment selects, with each setting taken
    /// from its variable when set and from the default otherwise.
    pub fn from_env(env: &TransportEnv) -> (r: TransportConfig)
        ensures
            env_selects(*env, r),
    {
        let kind = match &env.transport {
            Some(t) => transport_kind(lowercase(t.as_str()).as_str()),
            None => TransportKind::Stdio,
        };
        match kind {
            TransportKind::Tcp => {
                let port = port_setting_exec(&env.tcp_port, DEFAULT_TCP_PORT);
                let host = setting_string(&env.tcp_host, default_host());
                TransportConfig::Tcp(TcpConfig { port, host })
            },
            TransportKind::Http => {
                let port = port_setting_exec(&env.http_port, DEFAULT_HTTP_PORT);
                let host = setting_string(&env.http_host, default_host());
                let rpc_path = setting_string(&env.http_path, default_rpc_path());
                let enable_cors = match &env.http_cors {
                    Some(v) => cors_enabled(v.as_str(), lowercase(v.as_str()).as_str()),
                    None => true,
                };
                TransportConfig::Http(HttpConfig { port, host, rpc_path, enable_cors })
            },
            TransportKind::Stdio => TransportConfig::Stdio,
        }
    }

    /// A one-line description of the transport, for the log.
    pub fn description(&self) -> (r: String)
        ensures
            r@ == description_spec(*self),
    {
        match self {
            TransportConfig::Stdio => String::from_str("STDIO (standard MCP mode)"),
            TransportConfig::Tcp(cfg) => {
                let mut s = String::from_str("TCP on ");
                s.append(cfg.host.as_str());
                s.append(":");
                s.append(decimal_string(cfg.port as u64).as_str());
                s
            },
            TransportConfig::Http(cfg) => {
                let mut s = String::from_str("HTTP on ");
                s.append(cfg.host.as_str());
                s.append(":");
                s.append(decimal_string(cfg.port as u64).as_str());
                s.append(cfg.rpc_path.as_str());
                s
            },
        }
    }

    /// Whether this is the standard-streams transport.
    pub fn is_stdio(&self) -> (r: bool)
        ensures
            r == (*self is Stdio),
    {
        match self {
            TransportConfig::Stdio => true,
            _ => false,
        }
    }
}

/// `host:port` as a bind address.
pub open spec fn address_spec(host: Seq<char>, port: u16) -> Seq<char> {
    host + ":"@ + decimal(port as nat)
}

/// The log line that describes a transport.
pub open spec fn description_spec(c: TransportConfig) -> Seq<char> {
    match c {
        TransportConfig::Stdio => "STDIO (standard MCP mode)"@,
        TransportConfig::Tcp(t) => "TCP on "@ + address_spec(t.host@, t.port),
        TransportConfig::Http(h) => "HTTP on "@ + address_spec(h.host@, h.port) + h.rpc_path@,
    }
}

/// `host:port` for a host and a port.
pub fn bind_address(host: &String, port: u16) -> (r: String)
    ensures
        r@ == address_spec(host@, port),
{
    let mut s = host.clone();
    s.append(":");
    s.append(decimal_string(port as u64).as_str());
    proof {
        reveal_strlit(":");
    }
    s
}

} // verus!
