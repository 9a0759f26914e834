//! Protocol types shared by the tunnel client and the relay server: error codes,
//! messages, constants and the checks both sides apply to subdomains and ports.
use vstd::prelude::*;
use rand::Rng;
use crate::text::{byte_len, lemma_byte_len_bounds, decimal, decimal_string, concat2, copy_text, char_to_string, char_from_ascii, is_ascii_lower, is_ascii_digit, is_ascii_alnum};

verus! {

// ---------------------------------------------------------------------------
// Error codes and errors
// ---------------------------------------------------------------------------

/// Numeric error codes: 4xxx for client errors, 5xxx for server errors.
#[derive(Debug, Clone, Copy, PartialEq, Eq, Structural)]
pub enum ErrorCode {
    InvalidAuth,
    TunnelNotFound,
    SubdomainConflict,
    LocalPortInvalid,
    InvalidRequest,
    DatabaseError,
    TlsCertificateError,
    WebSocketError,
    ProxyError,
    InternalError,
}

impl ErrorCode {
    /// The number of each code.
    pub open spec fn code_number(self) -> u16 {
        match self {
            ErrorCode::InvalidAuth => 4001,
            ErrorCode::TunnelNotFound => 4002,
            ErrorCode::SubdomainConflict => 4003,
            ErrorCode::LocalPortInvalid => 4004,
            ErrorCode::InvalidRequest => 4005,
            ErrorCode::DatabaseError => 5001,
            ErrorCode::TlsCertificateError => 5002,
            ErrorCode::WebSocketError => 5003,
            ErrorCode::ProxyError => 5004,
            ErrorCode::InternalError => 5005,
        }
    }

    /// The code's number.
    pub fn number(&self) -> (r: u16)
        ensures
            r == self.code_number(),
    {
        match self {
            ErrorCode::InvalidAuth => 4001,
            ErrorCode::TunnelNotFound => 4002,
            ErrorCode::SubdomainConflict => 4003,
            ErrorCode::LocalPortInvalid => 4004,
            ErrorCode::InvalidRequest => 4005,
            ErrorCode::DatabaseError => 5001,
            ErrorCode::TlsCertificateError => 5002,
            ErrorCode::WebSocketError => 5003,
            ErrorCode::ProxyError => 5004,
            ErrorCode::InternalError => 5005,
        }
    }

    /// The code's number written in decimal, as it is displayed.
    pub fn to_string(&self) -> (r: String)
        ensures
            r@ == decimal(self.code_number() as nat),
    {
        decimal_string(self.number() as u64)
    }
}

/// Errors of the tunnelling protocol.
#[derive(Debug, Clone)]
pub enum CourierError {
    InvalidAuth(String),
    TunnelNotFound(String),
    SubdomainConflict(String),
    InvalidLocalPort(u16),
    DatabaseError(String),
    TlsCertificateError(String),
    WebSocketError(String),
    ProxyError(String),
    InternalError(String),
    InvalidRequest(String),
}

/// The text that a `CourierError` displays: a label for its kind, a colon and its detail.
pub open spec fn courier_error_text(e: CourierError) -> Seq<char> {
    match e {
        CourierError::InvalidAuth(m) => "认证失败: "@ + m@,
        CourierError::TunnelNotFound(m) => "隧道不存在: "@ + m@,
        CourierError::SubdomainConflict(m) => "子域名冲突: "@ + m@,
        CourierError::InvalidLocalPort(p) => "无效的本地端口: "@ + decimal(p as nat),
        CourierError::DatabaseError(m) => "数据库错误: "@ + m@,
        CourierError::TlsCertificateError(m) => "TLS证书错误: "@ + m@,
        CourierError::WebSocketError(m) => "WebSocket错误: "@ + m@,
        CourierError::ProxyError(m) => "代理错误: "@ + m@,
        CourierError::InternalError(m) => "内部错误: "@ + m@,
        CourierError::InvalidRequest(m) => "无效的请求: "@ + m@,
    }
}

/// The error code of each kind of error.
pub open spec fn courier_error_code(e: CourierError) -> ErrorCode {
    match e {
        CourierError::InvalidAuth(_) => ErrorCode::InvalidAuth,
        CourierError::TunnelNotFound(_) => ErrorCode::TunnelNotFound,
        CourierError::SubdomainConflict(_) => ErrorCode::SubdomainConflict,
        CourierError::InvalidLocalPort(_) => ErrorCode::LocalPortInvalid,
        CourierError::DatabaseError(_) => ErrorCode::DatabaseError,
        CourierError::TlsCertificateError(_) => ErrorCode::TlsCertificateError,
        CourierError::WebSocketError(_) => ErrorCode::WebSocketError,
        CourierError::ProxyError(_) => ErrorCode::ProxyError,
        CourierError::InternalError(_) => ErrorCode::InternalError,
        CourierError::InvalidRequest(_) => ErrorCode::InvalidRequest,
    }
}

impl CourierError {
    /// The error code that corresponds to this error.
    pub fn code(&self) -> (r: ErrorCode)
        ensures
            r == courier_error_code(*self),
    {
        match self {
            CourierError::InvalidAuth(_) => ErrorCode::InvalidAuth,
            CourierError::TunnelNotFound(_) => ErrorCode::TunnelNotFound,
            CourierError::SubdomainConflict(_) => ErrorCode::SubdomainConflict,
            CourierError::InvalidLocalPort(_) => ErrorCode::LocalPortInvalid,
            CourierError::DatabaseError(_) => ErrorCode::DatabaseError,
            CourierError::TlsCertificateError(_) => ErrorCode::TlsCertificateError,
            CourierError::WebSocketError(_) => ErrorCode::WebSocketError,
            CourierError::ProxyError(_) => ErrorCode::ProxyError,
            CourierError::InternalError(_) => ErrorCode::InternalError,
            CourierError::InvalidRequest(_) => ErrorCode::InvalidRequest,
        }
    }

    /// The message the error displays.
    pub fn to_string(&self) -> (r: String)
        ensures
            r@ == courier_error_text(*self),
    {
        match self {
            CourierError::InvalidAuth(m) => concat2("认证失败: ", m.as_str()),
            CourierError::TunnelNotFound(m) => concat2("隧道不存在: ", m.as_str()),
            CourierError::SubdomainConflict(m) => concat2("子域名冲突: ", m.as_str()),
            CourierError::InvalidLocalPort(p) => {
                let d = decimal_string(*p as u64);
                concat2("无效的本地端口: ", d.as_str())
            },
            CourierError::DatabaseError(m) => concat2("数据库错误: ", m.as_str()),
            CourierError::TlsCertificateError(m) => concat2("TLS证书错误: ", m.as_str()),
            CourierError::WebSocketError(m) => concat2("WebSocket错误: ", m.as_str()),
            CourierError::ProxyError(m) => concat2("代理错误: ", m.as_str()),
            CourierError::InternalError(m) => concat2("内部错误: ", m.as_str()),
            CourierError::InvalidRequest(m) => concat2("无效的请求: ", m.as_str()),
        }
    }
}

// ---------------------------------------------------------------------------
// Messages
// ---------------------------------------------------------------------------

/// A client's request to open a tunnel.
#[derive(Debug, Clone)]
pub struct RegisterRequest {
    /// The client's authentication token.
    pub auth_token: String,
    /// The port of the local service.
    pub local_port: u16,
    /// The protocols the client speaks, such as "http".
    pub protocols: Vec<String>,
    /// The subdomain wanted; empty to let the server pick one.
    pub subdomain: String,
}

/// The server's answer once a tunnel is open.
#[derive(Debug, Clone)]
pub struct CourierEstablished {
    pub courier_id: String,
    pub public_url: String,
    pub server_domain: String,
    pub subdomain: String,
}

/// A keep-alive message from the client.
#[derive(Debug, Clone)]
pub struct HeartbeatRequest {
    pub courier_id: String,
    /// Unix time in seconds.
    pub timestamp: u64,
}

/// The answer to a keep-alive message.
#[derive(Debug, Clone)]
pub struct HeartbeatResponse {
    pub status: String,
}

/// Registration request of the HTTP API.
#[derive(Debug, Clone)]
pub struct ApiRegisterRequest {
    pub auth_token: String,
    pub local_port: u16,
    pub protocols: Vec<String>,
    pub subdomain: String,
}

/// Registration answer of the HTTP API.
#[derive(Debug, Clone)]
pub struct ApiRegisterResponse {
    pub courier_id: String,
    pub public_url: String,
    pub server_domain: String,
}

/// State of one tunnel as the HTTP API reports it.
#[derive(Debug, Clone)]
pub struct CourierStatusResponse {
    pub courier_id: String,
    /// "active" or "disconnected".
    pub status: String,
    pub public_url: String,
    pub connected_at: String,
    pub bytes_transferred: u64,
}

/// Answer of the health check.
#[derive(Debug, Clone)]
pub struct HealthCheckResponse {
    pub status: String,
    pub version: String,
    pub active_tunnels: usize,
    pub uptime: u64,
}

/// A JSON value, as the `serde_json` crate holds it.
#[verifier::external_type_specification]
#[verifier::external_body]
pub struct ExJsonValue(serde_json::Value);

/// The envelope of every WebSocket message: a type tag and a JSON body.
#[derive(Debug)]
pub struct WsMessage {
    /// "register", "heartbeat", "tunnel_established" and so on.
    pub msg_type: String,
    /// The JSON body.
    pub data: serde_json::Value,
}

impl WsMessage {
    /// Builds a message from its type tag and body.
    pub fn new(msg_type: &str, data: serde_json::Value) -> (r: Self)
        ensures
            r.msg_type@ == msg_type@,
            r.data == data,
    {
        WsMessage { msg_type: copy_text(msg_type), data }
    }
}

/// A dashboard's request to follow tunnel events.
#[derive(Debug, Clone)]
pub struct SubscribeRequest {}

/// Event sent to dashboards when a tunnel comes up.
#[derive(Debug, Clone)]
pub struct TunnelConnectedEvent {
    pub courier_id: String,
    pub subdomain: String,
    pub public_url: String,
    pub local_port: u16,
}

/// Event sent to dashboards when a tunnel goes down.
#[derive(Debug, Clone)]
pub struct TunnelDisconnectedEvent {
    pub courier_id: String,
}

/// Traffic counter of one tunnel.
#[derive(Debug, Clone)]
pub struct TunnelStats {
    pub courier_id: String,
    pub bytes_transferred: u64,
}

/// Periodic traffic report sent to dashboards.
#[derive(Debug, Clone)]
pub struct StatsUpdateEvent {
    pub tunnels: Vec<TunnelStats>,
}

/// Acknowledgement of a heartbeat.
#[derive(Debug, Clone)]
pub struct HeartbeatAck {
    pub status: String,
}

impl HeartbeatAck {
    /// The acknowledgement the server sends for every heartbeat.
    pub fn ok() -> (r: Self)
        ensures
            r.status@ == "ok"@,
    {
        HeartbeatAck { status: copy_text("ok") }
    }
}

// ---------------------------------------------------------------------------
// Constants
// ---------------------------------------------------------------------------

/// Seconds between heartbeats.
pub const HEARTBEAT_INTERVAL: u64 = 30;

/// Seconds after which a silent tunnel counts as gone.
pub const HEARTBEAT_TIMEOUT: u64 = 90;

/// Most reconnection attempts.
pub const MAX_RETRIES: u32 = 10;

/// First reconnection delay, in milliseconds.
pub const BASE_RETRY_DELAY_MS: u64 = 1000;

/// Longest reconnection delay, in milliseconds.
pub const MAX_RETRY_DELAY_MS: u64 = 60000;

/// Length of a generated subdomain.
pub const SUBDOMAIN_LENGTH: usize = 6;

/// Default HTTP port of the server.
pub const DEFAULT_SERVER_PORT: u16 = 8080;

/// Default HTTPS port of the server.
pub const DEFAULT_HTTPS_PORT: u16 = 443;

// ---------------------------------------------------------------------------
// Subdomains and ports
// ---------------------------------------------------------------------------

/// The alphabet of generated subdomains: `a`..`z` then `0`..`9`.
pub open spec fn alphabet_char(i: int) -> char {
    if i < 26 {
        (97 + i) as char
    } else {
        (48 + (i - 26)) as char
    }
}

/// Size of the alphabet of generated subdomains.
pub const ALPHABET_SIZE: usize = 36;

/// The character at index `i` of the alphabet of generated subdomains.
pub fn alphabet_at(i: usize) -> (c: char)
    requires
        i < ALPHABET_SIZE,
    ensures
        c == alphabet_char(i as int),
        is_ascii_lower(c) || is_ascii_digit(c),
{
    let b: u8 = if i < 26 { (97 + i) as u8 } else { (48 + (i - 26)) as u8 };
    let c = char_from_ascii(b);
    proof {
        vstd::utf8::char_u32_cast(c, b as u32);
    }
    c
}

/// The subdomain spelled by a list of alphabet indices.
pub open spec fn subdomain_of_indices(idx: Seq<usize>) -> Seq<char> {
    Seq::new(idx.len(), |i: int| alphabet_char(idx[i] as int))
}

/// Spells out a subdomain from alphabet indices.
pub fn subdomain_from_indices(idx: &Vec<usize>) -> (r: String)
    requires
        forall|i: int| 0 <= i < idx@.len() ==> idx@[i] < ALPHABET_SIZE,
    ensures
        r@ == subdomain_of_indices(idx@),
        forall|i: int| 0 <= i < r@.len() ==> is_ascii_lower(#[trigger] r@[i]) || is_ascii_digit(r@[i]),
{
    let mut out = String::new();
    let mut k: usize = 0;
    while k < idx.len()
        invariant
            k <= idx@.len(),
            forall|i: int| 0 <= i < idx@.len() ==> idx@[i] < ALPHABET_SIZE,
            out@ =~= subdomain_of_indices(idx@.subrange(0, k as int)),
            forall|i: int| 0 <= i < out@.len() ==> is_ascii_lower(#[trigger] out@[i]) || is_ascii_digit(out@[i]),
        decreases idx@.len() - k,
    {
        let c = alphabet_at(idx[k]);
        let t = char_to_string(c);
        out.append(t.as_str());
        assert(idx@.subrange(0, k + 1) =~= idx@.subrange(0, k as int).push(idx@[k as int]));
        k = k + 1;
    }
    assert(idx@.subrange(0, idx@.len() as int) =~= idx@);
    out
}

/// A generated subdomain: `SUBDOMAIN_LENGTH` characters of the alphabet.
pub open spec fn is_generated_subdomain(s: Seq<char>) -> bool {
    &&& s.len() == SUBDOMAIN_LENGTH
    &&& forall|i: int| 0 <= i < s.len() ==> is_ascii_lower(#[trigger] s[i]) || is_ascii_digit(s[i])
}

/// The random generator of the current thread, from `rand`.
#[verifier::external_type_specification]
#[verifier::external_body]
pub struct ExThreadRng(rand::rngs::ThreadRng);

/// `rand::thread_rng`: the current thread's random generator.
#[verifier::external_body]
fn thread_rng() -> rand::rngs::ThreadRng {
    rand::thread_rng()
}

/// `Rng::gen_range` over `0..bound`: a random number below `bound` (the range
/// must not be empty, else `rand` panics).
#[verifier::external_body]
fn random_below(rng: &mut rand::rngs::ThreadRng, bound: usize) -> (r: usize)
    requires
        bound > 0,
    ensures
        r < bound,
{
    rng.gen_range(0..bound)
}

/// A random subdomain of `SUBDOMAIN_LENGTH` lowercase letters and digits.
pub fn generate_subdomain() -> (r: String)
    ensures
        is_generated_subdomain(r@),
        is_valid_subdomain(r@),
        exists|idx: Seq<usize>| idx.len() == SUBDOMAIN_LENGTH
            && (forall|i: int| 0 <= i < idx.len() ==> idx[i] < ALPHABET_SIZE)
            && r@ == #[trigger] subdomain_of_indices(idx),
{
    let mut rng = thread_rng();
    let mut idx: Vec<usize> = Vec::new();
    let mut k: usize = 0;
    while k < SUBDOMAIN_LENGTH
        invariant
            k <= SUBDOMAIN_LENGTH,
            idx@.len() == k,
            forall|i: int| 0 <= i < idx@.len() ==> idx@[i] < ALPHABET_SIZE,
        decreases SUBDOMAIN_LENGTH - k,
    {
        let j = random_below(&mut rng, ALPHABET_SIZE);
        idx.push(j);
        k = k + 1;
    }
    let r = subdomain_from_indices(&idx);
    proof {
        law_generated_subdomain_is_valid(r@);
        assert(r@ == subdomain_of_indices(idx@));
    }
    r
}

/// Unicode's alphanumeric property of a character (std's `char::is_alphanumeric`).
pub uninterp spec fn unicode_alphanumeric(c: char) -> bool;

/// `char::is_alphanumeric`: whether `c` is alphabetic or numeric in Unicode. On
/// ASCII characters this is exactly the letters and digits, as std documents.
#[verifier::external_body]
fn char_is_alphanumeric(c: char) -> (r: bool)
    ensures
        r == unicode_alphanumeric(c),
        (c as u32) < 128 ==> (r == is_ascii_alnum(c)),
{
    c.is_alphanumeric()
}

/// A character allowed in a subdomain by the shared protocol check: a hyphen,
/// or an alphanumeric character in Unicode's sense, which among ASCII
/// characters are exactly the letters and digits.
pub open spec fn shared_subdomain_char(c: char) -> bool {
    (if (c as u32) < 128 { is_ascii_alnum(c) } else { unicode_alphanumeric(c) }) || c == '-'
}

/// The shared protocol's rule for subdomains: 1 to 63 bytes, alphanumeric
/// characters and hyphens, not starting or ending with a hyphen.
pub open spec fn is_valid_subdomain(s: Seq<char>) -> bool {
    &&& s.len() > 0
    &&& byte_len(s) <= 63
    &&& forall|i: int| 0 <= i < s.len() ==> shared_subdomain_char(s[i])
    &&& s[0] != '-'
    &&& s[s.len() - 1] != '-'
}

/// Every generated subdomain passes the shared protocol's check: six ASCII
/// letters and digits are alphanumeric, take six bytes, and have no hyphen.
pub proof fn law_generated_subdomain_is_valid(s: Seq<char>)
    requires
        is_generated_subdomain(s),
    ensures
        is_valid_subdomain(s),
{
    assert(vstd::utf8::is_ascii_chars(s)) by {
        assert forall|i: int| 0 <= i < s.len() implies '\0' <= #[trigger] s[i] <= '\u{7f}' by {
            assert(is_ascii_lower(s[i]) || is_ascii_digit(s[i]));
        }
    }
    vstd::utf8::is_ascii_chars_encode_utf8(s);
    assert forall|i: int| 0 <= i < s.len() implies shared_subdomain_char(s[i]) by {
        assert(is_ascii_lower(s[i]) || is_ascii_digit(s[i]));
    }
    assert(is_ascii_lower(s[0]) || is_ascii_digit(s[0]));
    assert(is_ascii_lower(s[s.len() - 1]) || is_ascii_digit(s[s.len() - 1]));
}

/// Checks a subdomain against the shared protocol's rule.
pub fn validate_subdomain(subdomain: &str) -> (r: bool)
    ensures
        r == is_valid_subdomain(subdomain@),
{
    if subdomain.is_empty() {
        return false;
    }
    let n = subdomain.unicode_len();
    proof { lemma_byte_len_bounds(subdomain@); }
    if n > 63 || subdomain.len() > 63 {
        return false;
    }
    let mut i: usize = 0;
    while i < n
        invariant
            n == subdomain@.len(),
            i <= n,
            forall|j: int| 0 <= j < i ==> shared_subdomain_char(subdomain@[j]),
        decreases n - i,
    {
        let c = subdomain.get_char(i);
        if !(char_is_alphanumeric(c) || c == '-') {
            return false;
        }
        i = i + 1;
    }
    subdomain.get_char(0) != '-' && subdomain.get_char(n - 1) != '-'
}

/// Whether a local port can be tunnelled: every port but 0.
pub fn validate_local_port(port: u16) -> (r: bool)
    ensures
        r == (port > 0),
{
    port > 0
}

} // verus!
