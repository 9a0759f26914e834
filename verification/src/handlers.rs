//! The relay server's HTTP API: what each endpoint decides and answers. The
//! caller runs the database queries and writes the JSON.
use vstd::prelude::*;
use crate::auth::{generate_token, verify_password, issued_token};
use crate::db::Tunnel;
use crate::errors::ApiError;
use crate::protocol::{
    ApiRegisterRequest, ApiRegisterResponse, CourierError, CourierStatusResponse, HealthCheckResponse,
    generate_subdomain, is_generated_subdomain, is_valid_subdomain, validate_local_port, validate_subdomain,
};
use crate::session::{public_url, public_url_of};
use crate::text::{copy_text, concat2, decimal};

verus! {

/// Answer of `GET /api/v1/tunnels`.
#[derive(Debug, Clone)]
pub struct ListTunnelsResponse {
    pub tunnels: Vec<Tunnel>,
    pub total: usize,
}

impl ListTunnelsResponse {
    /// The list of all tunnels with its count.
    pub fn new(tunnels: Vec<Tunnel>) -> (r: Self)
        ensures
            r.tunnels == tunnels,
            r.total == tunnels@.len(),
    {
        let total = tunnels.len();
        ListTunnelsResponse { tunnels, total }
    }
}

/// The subdomain a registration request asks for, or why it is refused: no
/// token, port 0, or a subdomain that breaks the shared rule. An empty subdomain
/// is replaced by a generated one.
pub fn check_register_request(req: &ApiRegisterRequest) -> (r: Result<String, CourierError>)
    ensures
        req.auth_token@.len() == 0 ==> (r matches Err(CourierError::InvalidAuth(m)) && m@ == "Auth token is empty"@),
        req.auth_token@.len() > 0 && req.local_port == 0 ==> (r matches Err(CourierError::InvalidLocalPort(p)) && p == req.local_port),
        req.auth_token@.len() > 0 && req.local_port > 0 && req.subdomain@.len() == 0 ==> (r matches Ok(s) && is_generated_subdomain(s@)),
        req.auth_token@.len() > 0 && req.local_port > 0 && req.subdomain@.len() > 0 && !is_valid_subdomain(req.subdomain@)
            ==> (r matches Err(CourierError::InvalidRequest(m)) && m@ == "Invalid subdomain format"@),
        req.auth_token@.len() > 0 && req.local_port > 0 && req.subdomain@.len() > 0 && is_valid_subdomain(req.subdomain@)
            ==> (r matches Ok(s) && s@ == req.subdomain@),
{
    if req.auth_token.as_str().is_empty() {
        return Err(CourierError::InvalidAuth(copy_text("Auth token is empty")));
    }
    if !validate_local_port(req.local_port) {
        return Err(CourierError::InvalidLocalPort(req.local_port));
    }
    if req.subdomain.as_str().is_empty() {
        Ok(generate_subdomain())
    } else {
        if !validate_subdomain(req.subdomain.as_str()) {
            return Err(CourierError::InvalidRequest(copy_text("Invalid subdomain format")));
        }
        Ok(copy_text(req.subdomain.as_str()))
    }
}

/// After the conflict check of `subdomain`: any failure of the check refuses
/// the subdomain as taken.
pub fn after_conflict_check(check: Result<(), CourierError>, subdomain: String) -> (r: Result<String, CourierError>)
    ensures
        check is Ok ==> (r matches Ok(s) && s@ == subdomain@),
        check is Err ==> (r matches Err(CourierError::SubdomainConflict(m)) && m@ == subdomain@),
{
    match check {
        Ok(()) => Ok(subdomain),
        Err(_) => Err(CourierError::SubdomainConflict(subdomain)),
    }
}

/// Answer to a registration: the tunnel id, its public URL and the server domain.
pub fn registration_response(courier_id: String, subdomain: &str, server_domain: &str) -> (r: ApiRegisterResponse)
    ensures
        r.courier_id@ == courier_id@,
        r.public_url@ == public_url_of(subdomain@, server_domain@),
        r.server_domain@ == server_domain@,
{
    ApiRegisterResponse {
        courier_id,
        public_url: public_url(subdomain, server_domain),
        server_domain: copy_text(server_domain),
    }
}

/// Answer of `GET /api/v1/tunnels/:id`: the record's id, status, public URL,
/// creation time and byte count.
pub fn tunnel_status(t: &Tunnel, server_domain: &str) -> (r: CourierStatusResponse)
    ensures
        r.courier_id@ == t.id@,
        r.status@ == t.status@,
        r.public_url@ == public_url_of(t.subdomain@, server_domain@),
        r.connected_at@ == t.created_at_iso@,
        r.bytes_transferred == t.bytes_transferred,
{
    CourierStatusResponse {
        courier_id: copy_text(t.id.as_str()),
        status: copy_text(t.status.as_str()),
        public_url: public_url(t.subdomain.as_str(), server_domain),
        connected_at: copy_text(t.created_at_iso.as_str()),
        bytes_transferred: t.bytes_transferred,
    }
}

/// Body of `POST /api/v1/auth/login`.
#[derive(Debug, Clone)]
pub struct LoginRequest {
    pub password: Option<String>,
}

/// Answer of a successful login.
#[derive(Debug, Clone)]
pub struct LoginResponse {
    pub token: String,
    /// Seconds the token lives.
    pub expires_in: u64,
}

/// Hours an admin token lives.
pub const ADMIN_TOKEN_HOURS: u64 = 24;

/// Logs the admin in: the password must be given and match the admin password
/// (none counts as empty, which nothing matches); the answer is a token for
/// "admin" signed with the admin password, valid for 24 hours.
pub fn login(req: &LoginRequest, admin_password: Option<&str>) -> (r: Result<LoginResponse, ApiError>)
    ensures
        req.password is None ==> (r matches Err(ApiError::ValidationError(m)) && m@ == "password 字段必填"@),
        match req.password {
            None => true,
            Some(p) => {
                let admin = match admin_password { Some(a) => a@, None => Seq::empty() };
                if p@.len() > 0 && p@ == admin {
                    r matches Ok(resp) && resp.expires_in == 86400 && issued_token(resp.token@, "admin"@, 24, admin)
                } else {
                    r matches Err(ApiError::Unauthorized(m)) && m@ == "密码错误"@
                }
            },
        },
{
    let password = match &req.password {
        None => return Err(ApiError::ValidationError(copy_text("password 字段必填"))),
        Some(p) => p,
    };
    let admin: &str = match admin_password {
        Some(a) => a,
        None => "",
    };
    proof { reveal_strlit(""); }
    if !verify_password(password.as_str(), admin) {
        return Err(ApiError::Unauthorized(copy_text("密码错误")));
    }
    let user = copy_text("admin");
    match generate_token(user, ADMIN_TOKEN_HOURS, admin) {
        Ok(token) => Ok(LoginResponse { token, expires_in: 86400 }),
        Err(e) => Err(ApiError::InternalError(e)),
    }
}

/// Settings of the relay server.
#[derive(Debug, Clone)]
pub struct ServerConfig {
    pub server_domain: String,
    pub admin_password: Option<String>,
}

/// The admin password the server must be started with.
pub fn require_admin_password(password: Option<String>) -> (r: Result<String, String>)
    ensures
        match password {
            Some(p) => r matches Ok(q) && q@ == p@,
            None => r matches Err(m) && m@ == "必须通过 --admin-password 设置管理员密码"@,
        },
{
    match password {
        Some(p) => Ok(p),
        None => Err(copy_text("必须通过 --admin-password 设置管理员密码")),
    }
}

/// Answer of `GET /health`.
pub fn health_check(version: &str) -> (r: HealthCheckResponse)
    ensures
        r.status@ == "ok"@,
        r.version@ == version@,
        r.active_tunnels == 0,
        r.uptime == 0,
{
    HealthCheckResponse { status: copy_text("ok"), version: copy_text(version), active_tunnels: 0, uptime: 0 }
}

/// The origin of the local service that requests matching no route are
/// forwarded to.
pub const UPSTREAM_ORIGIN: &'static str = "http://127.0.0.1:8080";

/// The URL a request for `path` that matches no route is forwarded to.
pub fn proxy_target_url(path: &str) -> (r: String)
    ensures
        r@ == UPSTREAM_ORIGIN@ + path@,
{
    concat2(UPSTREAM_ORIGIN, path)
}

/// One stored access record: which tunnel served which path to whom, with
/// what status, how many bytes, and when (Unix seconds).
#[derive(Debug, Clone)]
pub struct AccessLogRecord {
    pub courier_id: String,
    pub remote_addr: String,
    pub path: String,
    pub status_code: u16,
    pub bytes_sent: u64,
    pub timestamp: i64,
}

/// The access-log listing of the HTTP API: the records and their number.
#[derive(Debug, Clone)]
pub struct LogListResponse {
    pub logs: Vec<AccessLogRecord>,
    pub total: usize,
}

impl LogListResponse {
    /// The listing of the given records.
    pub fn new(logs: Vec<AccessLogRecord>) -> (r: Self)
        ensures
            r.logs == logs,
            r.total == logs@.len(),
    {
        let total = logs.len();
        LogListResponse { logs, total }
    }
}

} // verus!
