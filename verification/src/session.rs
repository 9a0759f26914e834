//! The relay server's WebSocket sessions: what the first message makes of a
//! connection, who may follow tunnel events, how a tunnel client registers, and
//! what each later frame of a client does. The caller owns the sockets, parses
//! the JSON and performs the actions.
use vstd::prelude::*;
use crate::auth::{validate_auth_token, validation_verdict, Claims};
use crate::protocol::{RegisterRequest, CourierEstablished, generate_subdomain, is_generated_subdomain};
use crate::registry::{TunnelRegistry, ClientSession, session_state};
use crate::protocol::TunnelDisconnectedEvent;
use crate::text::{text_eq, copy_text, concat2, concat4, to_ascii_upper, ascii_uppercase, is_ascii_digit, is_err_with};

verus! {

/// What a WebSocket connection is, by its first message.
#[derive(Debug, Clone, Copy, PartialEq, Eq, Structural)]
pub enum SocketRole {
    /// A tunnel client registering a tunnel.
    Client,
    /// A dashboard following tunnel events.
    Subscriber,
    /// Anything else: the connection is dropped.
    Ignored,
}

/// The role of a connection whose first message has type `msg_type`; `None`
/// when the first frame is not a text message.
pub fn route_first_message(msg_type: Option<&str>) -> (r: SocketRole)
    ensures
        match msg_type {
            None => r == SocketRole::Ignored,
            Some(t) => r == (if t@ == "register"@ {
                SocketRole::Client
            } else if t@ == "subscribe"@ {
                SocketRole::Subscriber
            } else {
                SocketRole::Ignored
            }),
        },
{
    match msg_type {
        None => SocketRole::Ignored,
        Some(t) => {
            if text_eq(t, "register") {
                SocketRole::Client
            } else if text_eq(t, "subscribe") {
                SocketRole::Subscriber
            } else {
                SocketRole::Ignored
            }
        },
    }
}

/// The token a dashboard presents: an absent one counts as empty.
pub open spec fn presented_token(token: Option<&str>) -> Seq<char> {
    match token {
        Some(t) => t@,
        None => Seq::empty(),
    }
}

/// Whether a dashboard presenting `token` (absent counts as empty) may follow
/// events: the server must have an admin password, and the token must validate
/// against it, so an admitted token passes every check of the decoder and
/// carries all four claims. A token issued with the admin password that never
/// expires is always admitted; whether any other valid token is still in time
/// depends on the clock.
pub fn admit_subscriber(token: Option<&str>, admin_password: Option<&str>) -> (r: bool)
    ensures
        match admin_password {
            None => !r,
            Some(a) => exists|v: Result<Claims, String>|
                #[trigger] validation_verdict(v, presented_token(token), a@) && r == (v is Ok),
        },
{
    let secret = match admin_password {
        None => return false,
        Some(s) => s,
    };
    let t = match token {
        None => "",
        Some(t) => t,
    };
    proof { reveal_strlit(""); }
    let v = validate_auth_token(t, secret);
    let r = v.is_ok();
    proof {
        assert(t@ == presented_token(token));
        assert(validation_verdict(v, presented_token(token), secret@) && r == (v is Ok));
    }
    r
}

/// A lowercase hexadecimal digit.
pub open spec fn is_lower_hex(c: char) -> bool {
    is_ascii_digit(c) || ('a' <= c && c <= 'f')
}

/// An uppercase hexadecimal digit.
pub open spec fn is_upper_hex(c: char) -> bool {
    is_ascii_digit(c) || ('A' <= c && c <= 'F')
}

/// The text of a UUID: 36 characters, lowercase hexadecimal digits with hyphens
/// at positions 8, 13, 18 and 23.
pub open spec fn is_uuid_text(u: Seq<char>) -> bool {
    &&& u.len() == 36
    &&& forall|i: int| 0 <= i < 36 ==> if i == 8 || i == 13 || i == 18 || i == 23 {
        u[i] == '-'
    } else {
        is_lower_hex(#[trigger] u[i])
    }
}

/// `Uuid::new_v4().to_string()` (`uuid`): a random UUID in its hyphenated
/// lowercase text form, as the crate's formatter writes it.
#[verifier::external_body]
fn random_uuid_text() -> (r: String)
    ensures
        is_uuid_text(r@),
{
    uuid::Uuid::new_v4().to_string()
}

/// The tunnel id made from a UUID's text: "tun_" and its first 8 characters in
/// uppercase.
pub open spec fn tunnel_id_of(u: Seq<char>) -> Seq<char> {
    "tun_"@ + ascii_uppercase(u.subrange(0, 8))
}

/// A tunnel id: "tun_" and 8 uppercase hexadecimal digits.
pub open spec fn is_tunnel_id(s: Seq<char>) -> bool {
    &&& s.len() == 12
    &&& s.subrange(0, 4) == "tun_"@
    &&& forall|i: int| 4 <= i < 12 ==> is_upper_hex(#[trigger] s[i])
}

/// The tunnel id made from a UUID's text.
pub fn tunnel_id_from_uuid(u: &str) -> (r: String)
    requires
        u@.len() >= 8,
    ensures
        r@ == tunnel_id_of(u@),
{
    let head = u.substring_char(0, 8);
    let up = to_ascii_upper(head);
    concat2("tun_", up.as_str())
}

/// A fresh tunnel id from a random UUID.
pub fn new_tunnel_id() -> (r: String)
    ensures
        is_tunnel_id(r@),
        exists|u: Seq<char>| is_uuid_text(u) && r@ == #[trigger] tunnel_id_of(u),
{
    let u = random_uuid_text();
    let r = tunnel_id_from_uuid(u.as_str());
    proof {
        reveal_strlit("tun_");
        assert(r@.subrange(0, 4) =~= "tun_"@);
        assert forall|i: int| 4 <= i < 12 implies is_upper_hex(#[trigger] r@[i]) by {
            assert(r@[i] == crate::text::ascii_upper(u@[i - 4]));
            assert(is_lower_hex(u@[i - 4]));
        }
        assert(is_uuid_text(u@) && r@ == tunnel_id_of(u@));
    }
    r
}

/// The public URL of a subdomain under the server's domain.
pub open spec fn public_url_of(subdomain: Seq<char>, server_domain: Seq<char>) -> Seq<char> {
    "https://"@ + subdomain + "."@ + server_domain
}

/// The public URL of a subdomain under the server's domain.
pub fn public_url(subdomain: &str, server_domain: &str) -> (r: String)
    ensures
        r@ == public_url_of(subdomain@, server_domain@),
{
    concat4("https://", subdomain, ".", server_domain)
}

/// A tunnel client's registration, decided before it is stored.
#[derive(Debug, Clone)]
pub struct ClientRegistration {
    pub courier_id: String,
    pub subdomain: String,
    pub public_url: String,
    pub server_domain: String,
    pub local_port: u16,
}

/// Decides a tunnel client's registration: refused (`None`) when the request has
/// no token; otherwise a fresh tunnel id, the requested subdomain or a generated
/// one when none is requested, and the public URL under `server_domain`.
pub fn plan_client_registration(req: &RegisterRequest, server_domain: &str) -> (r: Option<ClientRegistration>)
    ensures
        match r {
            None => req.auth_token@.len() == 0,
            Some(p) => req.auth_token@.len() > 0 && {
            &&& is_tunnel_id(p.courier_id@)
            &&& (req.subdomain@.len() > 0 ==> p.subdomain@ == req.subdomain@)
            &&& (req.subdomain@.len() == 0 ==> is_generated_subdomain(p.subdomain@))
            &&& p.public_url@ == public_url_of(p.subdomain@, server_domain@)
            &&& p.server_domain@ == server_domain@
            &&& p.local_port == req.local_port
            },
        },
{
    if req.auth_token.as_str().is_empty() {
        return None;
    }
    let courier_id = new_tunnel_id();
    let subdomain = if req.subdomain.as_str().is_empty() {
        generate_subdomain()
    } else {
        copy_text(req.subdomain.as_str())
    };
    let url = public_url(subdomain.as_str(), server_domain);
    Some(ClientRegistration {
        courier_id,
        subdomain,
        public_url: url,
        server_domain: copy_text(server_domain),
        local_port: req.local_port,
    })
}

impl ClientRegistration {
    /// The `tunnel_established` answer sent to the client.
    pub fn established(&self) -> (r: CourierEstablished)
        ensures
            r.courier_id@ == self.courier_id@,
            r.public_url@ == self.public_url@,
            r.server_domain@ == self.server_domain@,
            r.subdomain@ == self.subdomain@,
    {
        CourierEstablished {
            courier_id: copy_text(self.courier_id.as_str()),
            public_url: copy_text(self.public_url.as_str()),
            server_domain: copy_text(self.server_domain.as_str()),
            subdomain: copy_text(self.subdomain.as_str()),
        }
    }

    /// The session the registry keeps for the client: its subdomain and port,
    /// nothing transferred yet.
    pub fn session(&self) -> (r: ClientSession)
        ensures
            session_state(r) == (self.subdomain@, self.local_port, 0u64),
    {
        ClientSession::new(copy_text(self.subdomain.as_str()), self.local_port)
    }
}

/// What a registered client's frame is.
#[derive(Debug, Clone)]
pub enum ClientFrame {
    /// Binary data of this many bytes.
    Binary(u64),
    /// A text frame; the type of the message it holds, when it holds one.
    Text(Option<String>),
    /// The client closed the connection.
    Close,
    /// The connection failed.
    Error,
    /// A ping, pong or other control frame.
    Other,
}

/// What to do after a client's frame.
#[derive(Debug, Clone, Copy, PartialEq, Eq, Structural)]
pub enum FrameAction {
    /// Wait for the next frame.
    Continue,
    /// Answer with a `heartbeat_ack` message, then wait for the next frame.
    SendHeartbeatAck,
    /// End the session.
    Stop,
}

/// Handles one frame of client `courier_id`: binary data is counted, a heartbeat
/// of a registered client is acknowledged, a close or an error ends the session,
/// anything else is ignored.
pub fn on_client_frame(registry: &mut TunnelRegistry, courier_id: &str, frame: &ClientFrame) -> (r: FrameAction)
    requires
        old(registry).wf(),
        frame matches ClientFrame::Binary(n) ==> old(registry).bytes_of(courier_id@) + *n <= u64::MAX,
    ensures
        final(registry).wf(),
        final(registry).subscriber_seq() == old(registry).subscriber_seq(),
        match frame {
            ClientFrame::Binary(n) => r == FrameAction::Continue
                && final(registry).clients_view() == (if old(registry).clients_view().dom().contains(courier_id@) {
                    old(registry).clients_view().insert(courier_id@, (
                        old(registry).clients_view()[courier_id@].0,
                        old(registry).clients_view()[courier_id@].1,
                        (old(registry).clients_view()[courier_id@].2 + *n) as u64,
                    ))
                } else {
                    old(registry).clients_view()
                }),
            ClientFrame::Text(t) => final(registry).clients_view() == old(registry).clients_view()
                && r == (if t matches Some(m) && m@ == "heartbeat"@ && old(registry).clients_view().dom().contains(courier_id@) {
                    FrameAction::SendHeartbeatAck
                } else {
                    FrameAction::Continue
                }),
            ClientFrame::Close => r == FrameAction::Stop && final(registry).clients_view() == old(registry).clients_view(),
            ClientFrame::Error => r == FrameAction::Stop && final(registry).clients_view() == old(registry).clients_view(),
            ClientFrame::Other => r == FrameAction::Continue && final(registry).clients_view() == old(registry).clients_view(),
        },
{
    match frame {
        ClientFrame::Binary(n) => {
            registry.record_binary_frame(courier_id, *n);
            FrameAction::Continue
        },
        ClientFrame::Text(t) => {
            match t {
                Some(m) => {
                    if text_eq(m.as_str(), "heartbeat") && registry.contains_client(courier_id) {
                        FrameAction::SendHeartbeatAck
                    } else {
                        FrameAction::Continue
                    }
                },
                None => FrameAction::Continue,
            }
        },
        ClientFrame::Close => FrameAction::Stop,
        ClientFrame::Error => FrameAction::Stop,
        ClientFrame::Other => FrameAction::Continue,
    }
}

/// Ends the session of client `courier_id`: it leaves the registry, and the
/// event announcing it to dashboards is returned.
pub fn end_client_session(registry: &mut TunnelRegistry, courier_id: &str) -> (r: TunnelDisconnectedEvent)
    requires
        old(registry).wf(),
    ensures
        final(registry).wf(),
        final(registry).clients_view() == old(registry).clients_view().remove(courier_id@),
        final(registry).subscriber_seq() == old(registry).subscriber_seq(),
        r.courier_id@ == courier_id@,
{
    registry.remove_client(courier_id);
    TunnelRegistry::disconnected_event(courier_id)
}

/// A tunnel's whole life leaves no trace: when a client registers under an id
/// not in use, the frames of its session touch only its own entry (as
/// `register_client`, `on_client_frame` and `record_binary_frame` ensure), and
/// the session then ends, the registry's tunnels are as they were before.
pub proof fn law_session_leaves_no_trace(
    before: Map<Seq<char>, (Seq<char>, u16, u64)>,
    id: Seq<char>,
    during: Map<Seq<char>, (Seq<char>, u16, u64)>,
    after: Map<Seq<char>, (Seq<char>, u16, u64)>,
)
    requires
        !before.dom().contains(id),
        forall|k: Seq<char>| k != id ==> (#[trigger] during.dom().contains(k) <==> before.dom().contains(k)),
        forall|k: Seq<char>| k != id && during.dom().contains(k) ==> #[trigger] during[k] == before[k],
        after == during.remove(id),
    ensures
        after == before,
{
    assert(after =~= before);
}

/// Counting is exact: a registered client's counter after a binary frame is its
/// counter before plus the frame's length.
pub proof fn law_binary_frames_add_up(
    before: TunnelRegistry,
    after: TunnelRegistry,
    id: Seq<char>,
    n: u64,
)
    requires
        before.clients_view().dom().contains(id),
        before.bytes_of(id) + n <= u64::MAX,
        after.clients_view() == before.clients_view().insert(id, (
            before.clients_view()[id].0,
            before.clients_view()[id].1,
            (before.clients_view()[id].2 + n) as u64,
        )),
    ensures
        after.bytes_of(id) == before.bytes_of(id) + n,
        forall|k: Seq<char>| k != id ==> after.bytes_of(k) == before.bytes_of(k),
{
}

} // verus!
