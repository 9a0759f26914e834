//! The tunnel client's local proxy: where it listens, and the steps of one
//! proxied connection. A connection alternates between reading a request from
//! the local client, forwarding it to the relay server, reading the answer and
//! writing it back; it stays open for further requests until one side closes or
//! an operation fails or times out. The caller performs each action, with a
//! timeout of `IO_TIMEOUT_SECS` on reads and writes, and reports the result.
use vstd::prelude::*;
use crate::text::{decimal, decimal_string, copy_text, concat2};

verus! {

/// Size of the buffers requests and answers are read into (64 KiB).
pub const PROXY_BUFFER_SIZE: usize = 65536;

/// Seconds a read or a write may take before it times out.
pub const IO_TIMEOUT_SECS: u64 = 30;

/// The local proxy of the tunnel client.
#[derive(Debug, Clone)]
pub struct LocalProxy {
    listen_port: u16,
    server_addr: String,
}

impl LocalProxy {
    /// The port the proxy listens on.
    pub closed spec fn port_view(&self) -> u16 {
        self.listen_port
    }

    /// The relay server address the proxy forwards to.
    pub closed spec fn server_view(&self) -> Seq<char> {
        self.server_addr@
    }

    /// A proxy listening on `127.0.0.1:local_port` and forwarding to `server_addr`.
    pub fn new(local_port: u16, server_addr: String) -> (r: Self)
        ensures
            r.port_view() == local_port,
            r.server_view() == server_addr@,
    {
        LocalProxy { listen_port: local_port, server_addr }
    }

    /// The port the proxy listens on.
    pub fn listen_port(&self) -> (r: u16)
        ensures
            r == self.port_view(),
    {
        self.listen_port
    }

    /// The listening address, `127.0.0.1:<port>`.
    pub fn listen_address(&self) -> (r: String)
        ensures
            r@ == "127.0.0.1:"@ + decimal(self.port_view() as nat),
    {
        let d = decimal_string(self.listen_port as u64);
        concat2("127.0.0.1:", d.as_str())
    }

    /// The relay server address the proxy forwards to.
    pub fn server_addr(&self) -> (r: String)
        ensures
            r@ == self.server_view(),
    {
        copy_text(self.server_addr.as_str())
    }
}

/// Where a proxied connection stands.
#[derive(Debug, Clone, Copy, PartialEq, Eq, Structural)]
pub enum ProxyPhase {
    /// Waiting for a request from the local client.
    ReadClient,
    /// Connecting to the relay server with a request of this many bytes.
    ConnectServer(usize),
    /// Writing a request of this many bytes to the relay server.
    WriteServer(usize),
    /// Waiting for the relay server's answer.
    ReadServer,
    /// Writing an answer of this many bytes back to the local client.
    WriteClient(usize),
    /// The connection is over.
    Closed,
}

/// How the last operation ended.
#[derive(Debug, Clone)]
pub enum IoResult {
    /// It succeeded; for a read, with this many bytes (0 at end of stream).
    Done(usize),
    /// It failed with this error.
    Failed(String),
    /// It took longer than `IO_TIMEOUT_SECS`.
    TimedOut,
}

/// What the caller does next.
#[derive(Debug, Clone)]
pub enum ProxyAction {
    /// Connect to the relay server.
    ConnectServer,
    /// Write the buffered request, of this many bytes, to the server.
    WriteServer(usize),
    /// Read the server's answer.
    ReadServer,
    /// Write the buffered answer, of this many bytes, to the local client.
    WriteClient(usize),
    /// Read the next request of the local client.
    ReadClient,
    /// Close the connection normally.
    Finish,
    /// Close the connection with this error.
    Fail(String),
}

/// The next phase and what to do in it.
#[derive(Debug, Clone)]
pub struct ProxyStep {
    pub phase: ProxyPhase,
    pub action: ProxyAction,
}

/// The outcomes an operation of each phase can have: connecting has no timeout.
pub open spec fn result_possible(phase: ProxyPhase, ev: IoResult) -> bool {
    match phase {
        ProxyPhase::Closed => false,
        ProxyPhase::ConnectServer(_) => !(ev is TimedOut),
        _ => true,
    }
}

/// The phase after `phase` ends with `ev`.
pub open spec fn next_phase(phase: ProxyPhase, ev: IoResult) -> ProxyPhase {
    match ev {
        IoResult::Done(n) => match phase {
            ProxyPhase::ReadClient => if n > 0 { ProxyPhase::ConnectServer(n) } else { ProxyPhase::Closed },
            ProxyPhase::ConnectServer(m) => ProxyPhase::WriteServer(m),
            ProxyPhase::WriteServer(_) => ProxyPhase::ReadServer,
            ProxyPhase::ReadServer => if n > 0 { ProxyPhase::WriteClient(n) } else { ProxyPhase::Closed },
            ProxyPhase::WriteClient(_) => ProxyPhase::ReadClient,
            ProxyPhase::Closed => ProxyPhase::Closed,
        },
        _ => ProxyPhase::Closed,
    }
}

/// The message a timeout in `phase` ends the connection with.
pub open spec fn timeout_message(phase: ProxyPhase) -> Seq<char> {
    match phase {
        ProxyPhase::ReadClient => "Client read timeout"@,
        ProxyPhase::WriteServer(_) => "Server write timeout"@,
        ProxyPhase::ReadServer => "Server read timeout"@,
        ProxyPhase::WriteClient(_) => "Client write timeout"@,
        _ => "timeout"@,
    }
}

/// The action that goes with entering the phase after `phase` ends with `ev`.
pub open spec fn action_fits(a: ProxyAction, phase: ProxyPhase, ev: IoResult) -> bool {
    match ev {
        IoResult::Failed(e) => a matches ProxyAction::Fail(m) && m@ == e@,
        IoResult::TimedOut => a matches ProxyAction::Fail(m) && m@ == timeout_message(phase),
        IoResult::Done(_) => match next_phase(phase, ev) {
            ProxyPhase::ConnectServer(_) => a is ConnectServer,
            ProxyPhase::WriteServer(m) => a == ProxyAction::WriteServer(m),
            ProxyPhase::ReadServer => a is ReadServer,
            ProxyPhase::WriteClient(m) => a == ProxyAction::WriteClient(m),
            ProxyPhase::ReadClient => a is ReadClient,
            ProxyPhase::Closed => a is Finish,
        },
    }
}

/// The proxy's decision after the operation of `phase` ended with `ev`.
pub fn proxy_step(phase: ProxyPhase, ev: IoResult) -> (r: ProxyStep)
    requires
        result_possible(phase, ev),
    ensures
        r.phase == next_phase(phase, ev),
        action_fits(r.action, phase, ev),
{
    match ev {
        IoResult::Failed(e) => ProxyStep { phase: ProxyPhase::Closed, action: ProxyAction::Fail(e) },
        IoResult::TimedOut => {
            let m = match phase {
                ProxyPhase::ReadClient => copy_text("Client read timeout"),
                ProxyPhase::WriteServer(_) => copy_text("Server write timeout"),
                ProxyPhase::ReadServer => copy_text("Server read timeout"),
                ProxyPhase::WriteClient(_) => copy_text("Client write timeout"),
                _ => copy_text("timeout"),
            };
            ProxyStep { phase: ProxyPhase::Closed, action: ProxyAction::Fail(m) }
        },
        IoResult::Done(n) => match phase {
            ProxyPhase::ReadClient => {
                if n > 0 {
                    ProxyStep { phase: ProxyPhase::ConnectServer(n), action: ProxyAction::ConnectServer }
                } else {
                    ProxyStep { phase: ProxyPhase::Closed, action: ProxyAction::Finish }
                }
            },
            ProxyPhase::ConnectServer(m) => ProxyStep { phase: ProxyPhase::WriteServer(m), action: ProxyAction::WriteServer(m) },
            ProxyPhase::WriteServer(_) => ProxyStep { phase: ProxyPhase::ReadServer, action: ProxyAction::ReadServer },
            ProxyPhase::ReadServer => {
                if n > 0 {
                    ProxyStep { phase: ProxyPhase::WriteClient(n), action: ProxyAction::WriteClient(n) }
                } else {
                    ProxyStep { phase: ProxyPhase::Closed, action: ProxyAction::Finish }
                }
            },
            ProxyPhase::WriteClient(_) => ProxyStep { phase: ProxyPhase::ReadClient, action: ProxyAction::ReadClient },
            ProxyPhase::Closed => ProxyStep { phase: ProxyPhase::Closed, action: ProxyAction::Finish },
        },
    }
}

/// Persistent connections: a request of `n > 0` bytes that is forwarded and
/// answered with `m > 0` bytes brings the connection back to waiting for the
/// next request, forwarding exactly the bytes read at each hop.
pub proof fn law_round_trip_returns_to_waiting(n: usize, m: usize, any: usize)
    requires
        n > 0,
        m > 0,
    ensures
        next_phase(ProxyPhase::ReadClient, IoResult::Done(n)) == ProxyPhase::ConnectServer(n),
        next_phase(ProxyPhase::ConnectServer(n), IoResult::Done(any)) == ProxyPhase::WriteServer(n),
        next_phase(ProxyPhase::WriteServer(n), IoResult::Done(any)) == ProxyPhase::ReadServer,
        next_phase(ProxyPhase::ReadServer, IoResult::Done(m)) == ProxyPhase::WriteClient(m),
        next_phase(ProxyPhase::WriteClient(m), IoResult::Done(any)) == ProxyPhase::ReadClient,
{
}

/// No operation outlives its timeout: a timeout or a failure in any phase
/// closes the connection with an error.
pub proof fn law_timeout_or_failure_closes(phase: ProxyPhase, ev: IoResult, a: ProxyAction)
    requires
        result_possible(phase, ev),
        !(ev is Done),
        action_fits(a, phase, ev),
    ensures
        next_phase(phase, ev) == ProxyPhase::Closed,
        a is Fail,
{
}

/// A connection ends normally only at the end of a stream: the client's while
/// waiting for a request, or the server's while waiting for its answer.
pub proof fn law_normal_end_only_at_end_of_stream(phase: ProxyPhase, ev: IoResult, a: ProxyAction)
    requires
        result_possible(phase, ev),
        action_fits(a, phase, ev),
        a is Finish,
    ensures
        ev == IoResult::Done(0),
        phase == ProxyPhase::ReadClient || phase == ProxyPhase::ReadServer,
{
}

} // verus!
