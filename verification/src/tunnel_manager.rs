//! The tunnel client's decisions: reconnection back-off, the registration
//! handshake with the relay server and the keep-alive messages. The caller owns
//! the connection, performs each action and reports what the server sent.
use vstd::prelude::*;
use crate::config::{ClientConfig, config_error};
use crate::protocol::{RegisterRequest, HeartbeatRequest, MAX_RETRIES, BASE_RETRY_DELAY_MS, MAX_RETRY_DELAY_MS};
use crate::text::{copy_text, concat2, char_to_string, is_err_with};

verus! {

/// 2 to the power `n`.
pub open spec fn two_pow(n: nat) -> nat
    decreases n,
{
    if n == 0 { 1 } else { 2 * two_pow((n - 1) as nat) }
}

/// The reconnection delay before attempt `attempt`, in milliseconds: the base
/// delay doubled `attempt` times, capped at the longest delay.
pub open spec fn backoff_delay(attempt: nat) -> nat {
    if (BASE_RETRY_DELAY_MS as nat) * two_pow(attempt) <= MAX_RETRY_DELAY_MS as nat {
        (BASE_RETRY_DELAY_MS as nat) * two_pow(attempt)
    } else {
        MAX_RETRY_DELAY_MS as nat
    }
}

proof fn lemma_two_pow_positive(n: nat)
    ensures
        two_pow(n) >= 1,
    decreases n,
{
    if n > 0 {
        lemma_two_pow_positive((n - 1) as nat);
    }
}

proof fn lemma_two_pow_monotone(a: nat, b: nat)
    requires
        a <= b,
    ensures
        two_pow(a) <= two_pow(b),
    decreases b,
{
    if a < b {
        lemma_two_pow_monotone(a, (b - 1) as nat);
        lemma_two_pow_positive((b - 1) as nat);
    }
}

/// `2u64.saturating_pow(n)`: 2 to the `n`, or `u64::MAX` when that does not fit.
fn saturating_pow2(n: u32) -> (r: u64)
    ensures
        r == (if two_pow(n as nat) <= u64::MAX { two_pow(n as nat) } else { u64::MAX as nat }),
{
    let mut acc: u64 = 1;
    let mut i: u32 = 0;
    while i < n
        invariant
            i <= n,
            acc == (if two_pow(i as nat) <= u64::MAX { two_pow(i as nat) } else { u64::MAX as nat }),
        decreases n - i,
    {
        if acc > u64::MAX / 2 {
            acc = u64::MAX;
        } else {
            acc = acc * 2;
        }
        i = i + 1;
    }
    acc
}

/// The reconnection delay before attempt `attempt`: `BASE_RETRY_DELAY_MS`
/// multiplied by 2 to the `attempt` (both saturating), capped at
/// `MAX_RETRY_DELAY_MS`.
pub fn calculate_backoff_delay(attempt: u32) -> (r: u64)
    ensures
        r == backoff_delay(attempt as nat),
{
    let p = saturating_pow2(attempt);
    let d = match BASE_RETRY_DELAY_MS.checked_mul(p) {
        Some(v) => v,
        None => u64::MAX,
    };
    proof {
        lemma_two_pow_positive(attempt as nat);
        if two_pow(attempt as nat) > u64::MAX {
            assert(BASE_RETRY_DELAY_MS * two_pow(attempt as nat) > MAX_RETRY_DELAY_MS);
        }
    }
    if d < MAX_RETRY_DELAY_MS { d } else { MAX_RETRY_DELAY_MS }
}

/// The delay never exceeds `MAX_RETRY_DELAY_MS`, and never falls below `BASE_RETRY_DELAY_MS`.
pub proof fn law_backoff_bounded(attempt: nat)
    ensures
        BASE_RETRY_DELAY_MS <= backoff_delay(attempt) <= MAX_RETRY_DELAY_MS,
{
    lemma_two_pow_positive(attempt);
}

/// A later attempt never waits less than an earlier one.
pub proof fn law_backoff_monotone(a: nat, b: nat)
    requires
        a <= b,
    ensures
        backoff_delay(a) <= backoff_delay(b),
{
    lemma_two_pow_monotone(a, b);
}

/// Each attempt waits twice as long as the one before, up to `MAX_RETRY_DELAY_MS`.
pub proof fn law_backoff_doubles(attempt: nat)
    ensures
        backoff_delay(attempt + 1) == (if 2 * backoff_delay(attempt) <= MAX_RETRY_DELAY_MS {
            2 * backoff_delay(attempt)
        } else {
            MAX_RETRY_DELAY_MS as nat
        }),
{
    assert(two_pow(attempt + 1) == 2 * two_pow(attempt));
}

/// What the client learns from one frame while it waits for its tunnel.
#[derive(Debug, Clone)]
pub enum ServerFrame {
    /// A text frame holding a message of this type.
    Text(String),
    /// A text frame that is not a message; the parser's complaint.
    Malformed(String),
    /// A binary, ping or other non-text frame.
    NonText,
    /// The connection failed with this error.
    Error(String),
    /// The server closed the connection.
    Closed,
}

/// What to do after a frame while waiting for the tunnel.
#[derive(Debug, Clone)]
pub enum WaitOutcome {
    /// The frame announces the tunnel: read its body and start the keep-alive.
    Established,
    /// Keep waiting.
    KeepWaiting,
    /// Give up with this error.
    Fail(String),
}

/// The decision on one frame received while waiting for `tunnel_established`.
pub fn on_server_frame(frame: &ServerFrame) -> (r: WaitOutcome)
    ensures
        match frame {
            ServerFrame::Text(t) => if t@ == "tunnel_established"@ { r is Established } else { r is KeepWaiting },
            ServerFrame::Malformed(e) => r matches WaitOutcome::Fail(m) && m@ == e@,
            ServerFrame::NonText => r is KeepWaiting,
            ServerFrame::Error(e) => r matches WaitOutcome::Fail(m) && m@ == "WebSocket error: "@ + e@,
            ServerFrame::Closed => r matches WaitOutcome::Fail(m) && m@ == "服务器关闭了连接"@,
        },
{
    match frame {
        ServerFrame::Text(t) => {
            if crate::text::text_eq(t.as_str(), "tunnel_established") {
                WaitOutcome::Established
            } else {
                WaitOutcome::KeepWaiting
            }
        },
        ServerFrame::Malformed(e) => WaitOutcome::Fail(copy_text(e.as_str())),
        ServerFrame::NonText => WaitOutcome::KeepWaiting,
        ServerFrame::Error(e) => WaitOutcome::Fail(concat2("WebSocket error: ", e.as_str())),
        ServerFrame::Closed => WaitOutcome::Fail(copy_text("服务器关闭了连接")),
    }
}

/// `s` with every occurrence of `p` removed, scanning left to right (what
/// `str::replace(p, "")` gives for a non-empty `p`).
pub open spec fn remove_all(s: Seq<char>, p: Seq<char>) -> Seq<char>
    decreases s.len(),
{
    if p.len() == 0 || s.len() < p.len() {
        s
    } else if s.subrange(0, p.len() as int) == p {
        remove_all(s.subrange(p.len() as int, s.len() as int), p)
    } else {
        seq![s[0]] + remove_all(s.subrange(1, s.len() as int), p)
    }
}

/// Whether `p` occurs in `s` at position `i`.
fn occurs_at(s: &str, p: &str, i: usize) -> (r: bool)
    requires
        i + p@.len() <= s@.len(),
        s@.len() <= usize::MAX,
    ensures
        r == (s@.subrange(i as int, i + p@.len()) == p@),
{
    let k = p.unicode_len();
    let mut j: usize = 0;
    while j < k
        invariant
            k == p@.len(),
            i + k <= s@.len(),
            s@.len() <= usize::MAX,
            j <= k,
            forall|q: int| 0 <= q < j ==> s@[i + q] == p@[q],
        decreases k - j,
    {
        if s.get_char(i + j) != p.get_char(j) {
            assert(s@.subrange(i as int, i + k)[j as int] != p@[j as int]);
            return false;
        }
        j = j + 1;
    }
    assert(s@.subrange(i as int, i + k) =~= p@);
    true
}

/// `s` with every occurrence of the non-empty `p` removed.
pub fn remove_all_text(s: &str, p: &str) -> (r: String)
    requires
        p@.len() > 0,
    ensures
        r@ == remove_all(s@, p@),
{
    let n = s.unicode_len();
    let k = p.unicode_len();
    let mut out = String::new();
    let mut i: usize = 0;
    assert(s@.subrange(0, n as int) =~= s@);
    while i < n
        invariant
            n == s@.len(),
            k == p@.len(),
            k > 0,
            i <= n,
            remove_all(s@, p@) == out@ + remove_all(s@.subrange(i as int, n as int), p@),
        decreases n - i,
    {
        let ghost rest = s@.subrange(i as int, n as int);
        if k <= n - i && occurs_at(s, p, i) {
            assert(rest.subrange(0, k as int) =~= s@.subrange(i as int, i + k));
            assert(rest.subrange(k as int, rest.len() as int) =~= s@.subrange(i + k, n as int));
            i = i + k;
        } else {
            if k <= n - i {
                assert(rest.subrange(0, k as int) =~= s@.subrange(i as int, i + k));
            }
            assert(rest.subrange(1, rest.len() as int) =~= s@.subrange(i + 1, n as int));
            let c = s.get_char(i);
            let t = char_to_string(c);
            out.append(t.as_str());
            assert(out@ + remove_all(s@.subrange(i + 1, n as int), p@) =~= (out@.drop_last() + seq![c]) + remove_all(s@.subrange(i + 1, n as int), p@));
            i = i + 1;
        }
    }
    assert(remove_all(s@.subrange(n as int, n as int), p@) =~= Seq::<char>::empty());
    out
}

/// The host and port part of a WebSocket address: the address with every
/// `ws://` removed, then every `wss://` removed.
pub open spec fn tcp_address_of(server_address: Seq<char>) -> Seq<char> {
    remove_all(remove_all(server_address, "ws://"@), "wss://"@)
}

/// The tunnel client: its configuration and its reconnection count.
pub struct TunnelManager {
    config: ClientConfig,
    retry_count: u32,
}

impl TunnelManager {
    /// The configuration the client runs with.
    pub closed spec fn config_view(&self) -> ClientConfig {
        self.config
    }

    /// The number of reconnection attempts made so far.
    pub closed spec fn retries(&self) -> u32 {
        self.retry_count
    }

    /// A client for a configuration that passes validation.
    pub fn new(config: ClientConfig) -> (r: Result<Self, String>)
        ensures
            match config_error(config) {
                None => r matches Ok(m) && m.config_view() == config && m.retries() == 0,
                Some(e) => is_err_with(r, e),
            },
    {
        match config.validate() {
            Err(e) => Err(e),
            Ok(()) => Ok(TunnelManager { config, retry_count: 0 }),
        }
    }

    /// The configuration the client runs with.
    pub fn config(&self) -> (r: &ClientConfig)
        ensures
            *r == self.config_view(),
    {
        &self.config
    }

    /// After a failed run: the delay before the next attempt, which counts as
    /// one more attempt, or the error that ends the client once `MAX_RETRIES`
    /// attempts were made.
    pub fn handle_error(&mut self) -> (r: Result<u64, String>)
        ensures
            final(self).config_view() == old(self).config_view(),
            old(self).retries() >= MAX_RETRIES ==> is_err_with(r, "达到最大重试次数，放弃连接"@)
                && final(self).retries() == old(self).retries(),
            old(self).retries() < MAX_RETRIES ==> r == Ok::<u64, String>(backoff_delay(old(self).retries() as nat) as u64)
                && final(self).retries() == old(self).retries() + 1,
    {
        if self.retry_count >= MAX_RETRIES {
            return Err(copy_text("达到最大重试次数，放弃连接"));
        }
        let delay = calculate_backoff_delay(self.retry_count);
        self.retry_count = self.retry_count + 1;
        Ok(delay)
    }

    /// The registration request sent right after connecting.
    pub fn register_request(&self) -> (r: RegisterRequest)
        ensures
            r.auth_token@ == self.config_view().auth_token@,
            r.local_port == self.config_view().local_port,
            r.protocols@.len() == self.config_view().protocols@.len(),
            forall|i: int| 0 <= i < r.protocols@.len() ==> #[trigger] r.protocols@[i]@ == self.config_view().protocols@[i]@,
            r.subdomain@ == self.config_view().subdomain@,
    {
        let mut protocols: Vec<String> = Vec::new();
        let mut i: usize = 0;
        while i < self.config.protocols.len()
            invariant
                i <= self.config.protocols@.len(),
                protocols@.len() == i,
                forall|j: int| 0 <= j < i ==> #[trigger] protocols@[j]@ == self.config.protocols@[j]@,
            decreases self.config.protocols@.len() - i,
        {
            protocols.push(copy_text(self.config.protocols[i].as_str()));
            i = i + 1;
        }
        RegisterRequest {
            auth_token: copy_text(self.config.auth_token.as_str()),
            local_port: self.config.local_port,
            protocols,
            subdomain: copy_text(self.config.subdomain.as_str()),
        }
    }

    /// The address to open the TCP connection to: the server address without
    /// its `ws://` or `wss://` scheme.
    pub fn tcp_address(&self) -> (r: String)
        ensures
            r@ == tcp_address_of(self.config_view().server_address@),
    {
        proof {
            reveal_strlit("ws://");
            reveal_strlit("wss://");
        }
        let a = remove_all_text(self.config.server_address.as_str(), "ws://");
        remove_all_text(a.as_str(), "wss://")
    }
}

/// The keep-alive message of tunnel `courier_id` at Unix time `now`.
pub fn heartbeat_request(courier_id: &str, now: u64) -> (r: HeartbeatRequest)
    ensures
        r.courier_id@ == courier_id@,
        r.timestamp == now,
{
    HeartbeatRequest { courier_id: copy_text(courier_id), timestamp: now }
}

} // verus!
